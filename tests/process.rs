use hdrgen::decls::{CType, EnumConstant, Field};
use hdrgen::features::Features;
use hdrgen::output::OutputItems;
use hdrgen::process::{process_decls, Decl, DeclBody};
use hdrgen::trans_macros::{MacroError, MacroToken};

fn decl(name: &str, header: &str, body: DeclBody) -> Decl {
    Decl { name: name.to_string(), header: header.to_string(), annotation: format!("{}.h:1:1", header), body }
}

fn macro_body(name: &str, value: &str) -> DeclBody {
    let end = 9 + name.len() as u32;
    DeclBody::Macro {
        tokens: vec![
            MacroToken { spelling: name.to_string(), start_column: 9, end_column: end },
            MacroToken { spelling: value.to_string(), start_column: end + 1, end_column: end + 1 + value.len() as u32 },
            MacroToken { spelling: String::new(), start_column: 1, end_column: 1 },
        ],
    }
}

fn sysinfo_decls(desktop: bool) -> Vec<Decl> {
    let mut ds = vec![
        decl(
            "LPSYSTEM_INFO",
            "sysinfoapi",
            DeclBody::Typedef {
                underlying: CType::Pointer {
                    pointee: Box::new(CType::Named { header: "sysinfoapi".to_string(), name: "SYSTEM_INFO".to_string() }),
                    is_const: false,
                },
            },
        ),
        decl("BYTE_ALIAS", "stdlib", DeclBody::Typedef { underlying: CType::Builtin("u8".to_string()) }),
    ];
    if desktop {
        ds.push(decl("SCEX2_ALT_NETBIOS_NAME", "sysinfoapi", macro_body("SCEX2_ALT_NETBIOS_NAME", "0x1")));
    }
    ds
}

#[test]
fn two_configurations_of_one_header() {
    let wanted = vec!["sysinfoapi".to_string()];
    let mut out = OutputItems::new();
    let fails = process_decls(&sysinfo_decls(true), &wanted, &mut out, &Features::from_tag("desktop".to_string()), false);
    assert!(fails.is_empty());
    let fails = process_decls(&sysinfo_decls(false), &wanted, &mut out, &Features::from_tag("app".to_string()), false);
    assert!(fails.is_empty());
    assert_eq!(out.len(), 2);
    assert_eq!(
        out.emit("sysinfoapi"),
        "#[cfg(any(feature=\"desktop\", feature=\"app\"))] pub type LPSYSTEM_INFO = *mut ::sysinfoapi::SYSTEM_INFO; /* sysinfoapi.h:1:1, sysinfoapi.h:1:1 */\n\
         #[cfg(feature=\"desktop\")] pub const SCEX2_ALT_NETBIOS_NAME: i32 = 1i32; /* Integer(1, Yes, Unknown) */ /* sysinfoapi.h:1:1 */\n"
    );
    assert_eq!(out.headers(), vec!["sysinfoapi".to_string()]);
}

#[test]
fn failures_do_not_stop_the_walk() {
    let wanted = vec!["h".to_string()];
    let ds = vec![
        decl("A", "h", macro_body("A", "X")),
        decl("B", "h", macro_body("B", "+")),
        decl("C", "h", macro_body("C", "3")),
        decl("C", "h", macro_body("C", "4")),
        decl("D", "h", DeclBody::Struct { fields: vec![Field { name: "x".to_string(), ty: CType::Builtin("i32".to_string()), bit_width: None }], packed: false }),
    ];
    let mut out = OutputItems::new();
    let fails = process_decls(&ds, &wanted, &mut out, &Features::from_tag("t".to_string()), false);
    let names: Vec<&str> = fails.iter().map(|f| f.name.as_str()).collect();
    assert_eq!(names, vec!["A", "B", "C"]);
    assert!(matches!(fails[0].error, MacroError::Unsupported));
    assert!(matches!(fails[1].error, MacroError::Parse { .. }));
    assert!(matches!(fails[2].error, MacroError::Conflict(_)));
    assert_eq!(out.len(), 2);
    assert_eq!(out.item(1).decl(), "#[repr(C)] pub struct D { x: i32 }");
}

#[test]
fn unions_and_enums_give_several_items() {
    let wanted = vec!["sysinfoapi".to_string()];
    let ds = vec![
        decl(
            "SYSTEM_INFO_Child_0",
            "sysinfoapi",
            DeclBody::Union {
                payload: CType::Builtin("u32".to_string()),
                fields: vec![Field {
                    name: "dwOemId".to_string(),
                    ty: CType::Named { header: "minwindef".to_string(), name: "DWORD".to_string() },
                    bit_width: None,
                }],
            },
        ),
        decl(
            "COMPUTER_NAME_FORMAT",
            "sysinfoapi",
            DeclBody::Enum { constants: vec![EnumConstant { name: "ComputerNameNetBIOS".to_string(), value: 0 }] },
        ),
    ];
    let mut out = OutputItems::new();
    let fails = process_decls(&ds, &wanted, &mut out, &Features::new(), false);
    assert!(fails.is_empty());
    assert_eq!(out.len(), 4);
    assert_eq!(out.item(1).name(), "SYSTEM_INFO_Child_0.dwOemId");
    assert_eq!(out.item(1).decl(), "union_field! { SYSTEM_INFO_Child_0.{dwOemId, dwOemId_mut}: ::minwindef::DWORD }");
    assert_eq!(out.item(3).name(), "COMPUTER_NAME_FORMAT::*");
    assert_eq!(out.item(3).decl(), "pub use self::COMPUTER_NAME_FORMAT::{ComputerNameNetBIOS};");
}

#[test]
fn headers_outside_the_request_are_skipped() {
    let mut out = OutputItems::new();
    let fails = process_decls(&sysinfo_decls(true), &Vec::new(), &mut out, &Features::new(), true);
    assert!(fails.is_empty());
    assert_eq!(out.len(), 0);
}
