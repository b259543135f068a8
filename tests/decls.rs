use hdrgen::decls::{
    builtin_type, function_decl, union_payload, variable_decl,
    child_record_name, enum_decl, enum_use_decl, push_type, struct_decl, typedef_decl, union_decl, union_field_decl,
    CType, EnumConstant, Field,
};
use hdrgen::features::Features;
use hdrgen::kinds::{CallingConv, TypeKind};
use hdrgen::output::OutputItems;

fn named(header: &str, name: &str) -> CType {
    CType::Named { header: header.to_string(), name: name.to_string() }
}

fn field(name: &str, ty: CType) -> Field {
    Field { name: name.to_string(), ty, bit_width: None }
}

#[test]
fn pointer_typedef_to_record() {
    let ty = CType::Pointer { pointee: Box::new(named("sysinfoapi", "MEMORYSTATUSEX")), is_const: false };
    let decl = typedef_decl("LPMEMORYSTATUSEX", &ty);
    assert_eq!(decl, "pub type LPMEMORYSTATUSEX = *mut ::sysinfoapi::MEMORYSTATUSEX;");
    let mut out = OutputItems::new();
    let feat = Features::from_tag("winapi_desktop".to_string());
    assert!(out
        .add_header_item("LPMEMORYSTATUSEX".to_string(), "sysinfoapi".to_string(), feat, decl, "sysinfoapi.h:125:20".to_string())
        .is_ok());
    assert_eq!(
        out.emit("sysinfoapi"),
        "#[cfg(feature=\"winapi_desktop\")] pub type LPMEMORYSTATUSEX = *mut ::sysinfoapi::MEMORYSTATUSEX; /* sysinfoapi.h:125:20 */\n"
    );
}

#[test]
fn type_texts() {
    let mut s = String::new();
    push_type(&mut s, &CType::Builtin("u32".to_string()));
    assert_eq!(s, "u32");
    let mut s = String::new();
    let arr = CType::Array { element: Box::new(named("winnt", "WCHAR")), len: 32 };
    push_type(&mut s, &CType::Pointer { pointee: Box::new(arr), is_const: true });
    assert_eq!(s, "*const [::winnt::WCHAR; 32]");
    let nested = CType::Array { element: Box::new(CType::Array { element: Box::new(CType::Builtin("u8".to_string())), len: 4 }), len: 0 };
    assert_eq!(typedef_decl("M", &nested), "pub type M = [[u8; 4]; 0];");
}

#[test]
fn anonymous_union_in_system_info() {
    let union_name = child_record_name("SYSTEM_INFO", 0);
    assert_eq!(union_name, "SYSTEM_INFO_Child_0");
    let inner_name = child_record_name(&union_name, 1);
    assert_eq!(inner_name, "SYSTEM_INFO_Child_0_Child_1");
    assert_eq!(
        union_decl(&union_name, &CType::Builtin("u32".to_string())),
        "#[repr(C)] pub /*union*/ struct SYSTEM_INFO_Child_0 { _payload0: u32 }"
    );
    assert_eq!(
        union_field_decl(&union_name, &field("dwOemId", named("minwindef", "DWORD"))),
        "union_field! { SYSTEM_INFO_Child_0.{dwOemId, dwOemId_mut}: ::minwindef::DWORD }"
    );
    assert_eq!(
        union_field_decl(&union_name, &field("s", named("sysinfoapi", &inner_name))),
        "union_field! { SYSTEM_INFO_Child_0.{s, s_mut}: ::sysinfoapi::SYSTEM_INFO_Child_0_Child_1 }"
    );
    let parent = struct_decl(
        "SYSTEM_INFO",
        &vec![field("u", named("sysinfoapi", &union_name)), field("dwPageSize", named("minwindef", "DWORD"))],
        false,
    );
    assert_eq!(
        parent,
        "#[repr(C)] pub struct SYSTEM_INFO { u: ::sysinfoapi::SYSTEM_INFO_Child_0, dwPageSize: ::minwindef::DWORD }"
    );
}

#[test]
fn empty_struct() {
    assert_eq!(struct_decl("E", &Vec::new(), false), "#[repr(C)] pub struct E {  }");
}

#[test]
fn bitfields_and_packing() {
    let fields = vec![
        Field { name: "a".to_string(), ty: CType::Builtin("u32".to_string()), bit_width: Some(3) },
        Field { name: "b".to_string(), ty: CType::Builtin("u32".to_string()), bit_width: Some(29) },
        field("c", CType::Builtin("u8".to_string())),
    ];
    assert_eq!(
        struct_decl("FLAGS", &fields, true),
        "#[repr(C, packed)] pub struct FLAGS { a: u32 /* : 3 */, b: u32 /* : 29 */, c: u8 }"
    );
}

#[test]
fn enum_with_values() {
    let cs = vec![
        EnumConstant { name: "ComputerNameNetBIOS".to_string(), value: 0 },
        EnumConstant { name: "ComputerNameDnsHostname".to_string(), value: 1 },
        EnumConstant { name: "Low".to_string(), value: i64::MIN },
        EnumConstant { name: "Neg".to_string(), value: -3 },
    ];
    assert_eq!(
        enum_decl("COMPUTER_NAME_FORMAT", &cs),
        "#[repr(C)] pub enum COMPUTER_NAME_FORMAT {ComputerNameNetBIOS = 0, ComputerNameDnsHostname = 1, Low = -9223372036854775808, Neg = -3}"
    );
    assert_eq!(
        enum_use_decl("COMPUTER_NAME_FORMAT", &cs),
        "pub use self::COMPUTER_NAME_FORMAT::{ComputerNameNetBIOS, ComputerNameDnsHostname, Low, Neg};"
    );
}

#[test]
fn builtin_types_by_kind() {
    let text = |k: TypeKind| {
        builtin_type(k).map(|t| {
            let mut s = String::new();
            push_type(&mut s, &t);
            s
        })
    };
    assert_eq!(text(TypeKind::ULong), Some("u32".to_string()));
    assert_eq!(text(TypeKind::LongLong), Some("i64".to_string()));
    assert_eq!(text(TypeKind::WChar), Some("u16".to_string()));
    assert_eq!(text(TypeKind::Void), Some("c_void".to_string()));
    assert_eq!(text(TypeKind::Pointer), None);
}

#[test]
fn union_payloads() {
    let text = |size: u64, align: u64| {
        let mut s = String::new();
        push_type(&mut s, &union_payload(size, align));
        s
    };
    assert_eq!(text(4, 4), "u32");
    assert_eq!(text(16, 8), "[u64; 2]");
    assert_eq!(text(6, 2), "[u16; 3]");
    assert_eq!(text(3, 3), "[u8; 3]");
    assert_eq!(text(0, 4), "[u32; 0]");
}

#[test]
fn functions_and_variables() {
    let params = vec![
        field("lpSystemInfo", CType::Pointer { pointee: Box::new(named("sysinfoapi", "SYSTEM_INFO")), is_const: false }),
    ];
    assert_eq!(
        function_decl("GetSystemInfo", CallingConv::X86StdCall, &params, false, &CType::Builtin("c_void".to_string())),
        Some("extern \"stdcall\" { pub fn GetSystemInfo(lpSystemInfo: *mut ::sysinfoapi::SYSTEM_INFO); }".to_string())
    );
    let fmt = vec![field("", CType::Pointer { pointee: Box::new(CType::Builtin("i8".to_string())), is_const: true })];
    assert_eq!(
        function_decl("printf", CallingConv::C, &fmt, true, &CType::Builtin("i32".to_string())),
        Some("extern \"C\" { pub fn printf(_: *const i8, ...) -> i32; }".to_string())
    );
    assert_eq!(
        function_decl("f", CallingConv::Default, &Vec::new(), true, &CType::Builtin("u8".to_string())),
        Some("extern \"C\" { pub fn f(...) -> u8; }".to_string())
    );
    assert_eq!(function_decl("g", CallingConv::PnaclCall, &Vec::new(), false, &CType::Builtin("u8".to_string())), None);
    assert_eq!(variable_decl("errno_", &CType::Builtin("i32".to_string()), false), "extern \"C\" { pub static mut errno_: i32; }");
    assert_eq!(variable_decl("K", &named("minwindef", "DWORD"), true), "extern \"C\" { pub static K: ::minwindef::DWORD; }");
}

#[test]
fn distinct_types_are_written_apart() {
    let text = |t: &CType| {
        let mut s = String::new();
        push_type(&mut s, t);
        s
    };
    let a = CType::Pointer { pointee: Box::new(named("winnt", "WCHAR")), is_const: false };
    let b = CType::Pointer { pointee: Box::new(named("winnt", "WCHAR")), is_const: true };
    let c = CType::Array { element: Box::new(named("winnt", "WCHAR")), len: 1 };
    let d = CType::Array { element: Box::new(named("winnt", "WCHAR")), len: 11 };
    let all = [text(&a), text(&b), text(&c), text(&d)];
    for i in 0..all.len() {
        for j in 0..all.len() {
            assert_eq!(i == j, all[i] == all[j]);
        }
    }
}
