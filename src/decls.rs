//! Declarations rendered from the types libclang reports: typedefs,
//! structures, unions, enums, and the names given to anonymous records.

use vstd::prelude::*;
use crate::macro_expr::is_ident;
use crate::kinds::{CallingConv, TypeKind};
use crate::macro_expr::{digit_value, is_ident_char, is_ident_start};
use crate::text::{dec, push_dec};
use crate::trans_macros::lemma_digits_round_trip;

verus! {

/// A C type, as the declarations refer to it.
pub enum CType {
    /// A type of the target language by its own name (`u32`, `c_void`).
    Builtin(String),
    /// A typedef, record or enum declared in `header`.
    Named { header: String, name: String },
    Pointer { pointee: Box<CType>, is_const: bool },
    Array { element: Box<CType>, len: u64 },
}

/// The mathematical value of a `CType`.
pub enum TypeModel {
    Builtin(Seq<char>),
    Named(Seq<char>, Seq<char>),
    Pointer(Box<TypeModel>, bool),
    Array(Box<TypeModel>, u64),
}

pub open spec fn model_of(t: CType) -> TypeModel
    decreases t,
{
    match t {
        CType::Builtin(n) => TypeModel::Builtin(n@),
        CType::Named { header, name } => TypeModel::Named(header@, name@),
        CType::Pointer { pointee, is_const } => TypeModel::Pointer(Box::new(model_of(*pointee)), is_const),
        CType::Array { element, len } => TypeModel::Array(Box::new(model_of(*element)), len),
    }
}

impl View for CType {
    type V = TypeModel;

    open spec fn view(&self) -> TypeModel {
        model_of(*self)
    }
}

/// Every name in the type is an identifier.
pub open spec fn well_named(t: TypeModel) -> bool
    decreases t,
{
    match t {
        TypeModel::Builtin(n) => is_ident(n),
        TypeModel::Named(h, n) => is_ident(h) && is_ident(n),
        TypeModel::Pointer(p, _) => well_named(*p),
        TypeModel::Array(e, _) => well_named(*e),
    }
}

/// How a type is written in a declaration: declared types by their header's
/// path, pointers as raw pointers, arrays with their length.
pub open spec fn render(t: TypeModel) -> Seq<char>
    decreases t,
{
    match t {
        TypeModel::Builtin(n) => n,
        TypeModel::Named(h, n) => "::"@ + h + "::"@ + n,
        TypeModel::Pointer(p, c) => (if c { "*const "@ } else { "*mut "@ }) + render(*p),
        TypeModel::Array(e, len) => "["@ + render(*e) + "; "@ + dec(len as nat) + "]"@,
    }
}

fn push_str(out: &mut String, s: &str)
    ensures
        final(out)@ == old(out)@ + s@,
{
    out.append(s);
}

/// Appends the text of `t`.
pub fn push_type(out: &mut String, t: &CType)
    ensures
        final(out)@ == old(out)@ + render(t@),
    decreases t,
{
    let ghost start = out@;
    match t {
        CType::Builtin(n) => {
            push_str(out, n.as_str());
        },
        CType::Named { header, name } => {
            push_str(out, "::");
            push_str(out, header.as_str());
            push_str(out, "::");
            push_str(out, name.as_str());
        },
        CType::Pointer { pointee, is_const } => {
            if *is_const {
                push_str(out, "*const ");
            } else {
                push_str(out, "*mut ");
            }
            push_type(out, pointee);
        },
        CType::Array { element, len } => {
            push_str(out, "[");
            push_type(out, element);
            push_str(out, "; ");
            push_dec(out, *len);
            push_str(out, "]");
        },
    }
    assert(out@ =~= start + render(t@));
}

/// `pub type NAME = TYPE;`
pub open spec fn typedef_text(name: Seq<char>, ty: TypeModel) -> Seq<char> {
    "pub type "@ + name + " = "@ + render(ty) + ";"@
}

/// The declaration of `typedef A NAME;`, with `ty` the canonical form of `A`.
pub fn typedef_decl(name: &str, ty: &CType) -> (r: String)
    ensures
        r@ == typedef_text(name@, ty@),
{
    let mut out = String::from_str("pub type ");
    push_str(&mut out, name);
    push_str(&mut out, " = ");
    push_type(&mut out, ty);
    push_str(&mut out, ";");
    out
}

/// A field of a record: its name, its type and, for a bitfield, its width
/// in bits.
pub struct Field {
    pub name: String,
    pub ty: CType,
    pub bit_width: Option<u32>,
}

/// One field as a structure declares it; a bitfield carries its width in a
/// comment, since the target language has no bitfields.
pub open spec fn field_text(f: Field) -> Seq<char> {
    f.name@ + ": "@ + render(f.ty@) + match f.bit_width {
        Some(w) => " /* : "@ + dec(w as nat) + " */"@,
        None => Seq::empty(),
    }
}

fn push_field(out: &mut String, f: &Field)
    ensures
        final(out)@ == old(out)@ + field_text(*f),
{
    let ghost start = out@;
    push_str(out, f.name.as_str());
    push_str(out, ": ");
    push_type(out, &f.ty);
    match f.bit_width {
        Some(w) => {
            push_str(out, " /* : ");
            push_dec(out, w as u64);
            push_str(out, " */");
        },
        None => {},
    }
    assert(out@ =~= start + field_text(*f));
}

/// The fields, separated by `, `.
pub open spec fn fields_text(fs: Seq<Field>) -> Seq<char>
    decreases fs.len(),
{
    if fs.len() == 0 {
        Seq::empty()
    } else if fs.len() == 1 {
        field_text(fs[0])
    } else {
        fields_text(fs.drop_last()) + ", "@ + field_text(fs.last())
    }
}

/// `#[repr(C)] pub struct NAME { fields }`, with `packed` in the `repr` of a
/// packed record.
pub open spec fn struct_text(name: Seq<char>, fs: Seq<Field>, packed: bool) -> Seq<char> {
    (if packed { "#[repr(C, packed)] pub struct "@ } else { "#[repr(C)] pub struct "@ }) + name
        + " { "@ + fields_text(fs) + " }"@
}

/// The declaration of a structure, its fields in declaration order.
pub fn struct_decl(name: &str, fields: &Vec<Field>, packed: bool) -> (r: String)
    ensures
        r@ == struct_text(name@, fields@, packed),
{
    let mut out = if packed {
        String::from_str("#[repr(C, packed)] pub struct ")
    } else {
        String::from_str("#[repr(C)] pub struct ")
    };
    push_str(&mut out, name);
    push_str(&mut out, " { ");
    let ghost mid = out@;
    let mut i: usize = 0;
    while i < fields.len()
        invariant
            i <= fields@.len(),
            out@ == mid + fields_text(fields@.subrange(0, i as int)),
        decreases fields@.len() - i,
    {
        if i > 0 {
            push_str(&mut out, ", ");
        }
        push_field(&mut out, &fields[i]);
        let ghost next = fields@.subrange(0, i + 1);
        assert(next.drop_last() =~= fields@.subrange(0, i as int));
        if i == 0 {
            assert(next.len() == 1);
        }
        assert(out@ =~= mid + fields_text(next));
        i = i + 1;
    }
    assert(fields@.subrange(0, i as int) =~= fields@);
    push_str(&mut out, " }");
    out
}

/// `#[repr(C)] pub /*union*/ struct NAME { _payload0: PAYLOAD }`
pub open spec fn union_text(name: Seq<char>, payload: TypeModel) -> Seq<char> {
    "#[repr(C)] pub /*union*/ struct "@ + name + " { _payload0: "@ + render(payload) + " }"@
}

/// The declaration of a union: a structure of the union's size and
/// alignment, given as `payload`, whose fields are reached through accessors.
pub fn union_decl(name: &str, payload: &CType) -> (r: String)
    ensures
        r@ == union_text(name@, payload@),
{
    let mut out = String::from_str("#[repr(C)] pub /*union*/ struct ");
    push_str(&mut out, name);
    push_str(&mut out, " { _payload0: ");
    push_type(&mut out, payload);
    push_str(&mut out, " }");
    out
}

/// `union_field! { UNION.{f, f_mut}: TYPE }`
pub open spec fn union_field_text(union_name: Seq<char>, f: Field) -> Seq<char> {
    "union_field! { "@ + union_name + ".{"@ + f.name@ + ", "@ + f.name@ + "_mut}: "@ + render(f.ty@)
        + " }"@
}

/// The accessors of one field of a union.
pub fn union_field_decl(union_name: &str, field: &Field) -> (r: String)
    ensures
        r@ == union_field_text(union_name@, *field),
{
    let mut out = String::from_str("union_field! { ");
    push_str(&mut out, union_name);
    push_str(&mut out, ".{");
    push_str(&mut out, field.name.as_str());
    push_str(&mut out, ", ");
    push_str(&mut out, field.name.as_str());
    push_str(&mut out, "_mut}: ");
    push_type(&mut out, &field.ty);
    push_str(&mut out, " }");
    out
}

/// The name of an anonymous record: its parent's name, `_Child_` and its
/// position among the parent's children.
pub open spec fn child_name_text(parent: Seq<char>, index: u64) -> Seq<char> {
    parent + "_Child_"@ + dec(index as nat)
}

pub fn child_record_name(parent: &str, index: u64) -> (r: String)
    ensures
        r@ == child_name_text(parent@, index),
{
    let mut out = String::from_str(parent);
    push_str(&mut out, "_Child_");
    push_dec(&mut out, index);
    out
}

/// An enum constant: its name and the value libclang evaluated for it.
pub struct EnumConstant {
    pub name: String,
    pub value: i64,
}

/// A signed value in decimal.
pub open spec fn signed_dec(v: i64) -> Seq<char> {
    if v < 0 {
        "-"@ + dec((-(v as int)) as nat)
    } else {
        dec(v as nat)
    }
}

/// `NAME = VALUE` for each constant, separated by `, `.
pub open spec fn constants_text(cs: Seq<EnumConstant>) -> Seq<char>
    decreases cs.len(),
{
    if cs.len() == 0 {
        Seq::empty()
    } else if cs.len() == 1 {
        cs[0].name@ + " = "@ + signed_dec(cs[0].value)
    } else {
        constants_text(cs.drop_last()) + ", "@ + cs.last().name@ + " = "@ + signed_dec(cs.last().value)
    }
}

/// `#[repr(C)] pub enum NAME {A = 0, B = 1}`
pub open spec fn enum_text(name: Seq<char>, cs: Seq<EnumConstant>) -> Seq<char> {
    "#[repr(C)] pub enum "@ + name + " {"@ + constants_text(cs) + "}"@
}

fn push_signed(out: &mut String, v: i64)
    ensures
        final(out)@ == old(out)@ + signed_dec(v),
{
    if v < 0 {
        push_str(out, "-");
        let m: u64 = if v == i64::MIN {
            0x8000_0000_0000_0000
        } else {
            (-v) as u64
        };
        push_dec(out, m);
    } else {
        push_dec(out, v as u64);
    }
}

/// The declaration of an enum, its constants in declaration order.
pub fn enum_decl(name: &str, constants: &Vec<EnumConstant>) -> (r: String)
    ensures
        r@ == enum_text(name@, constants@),
{
    let mut out = String::from_str("#[repr(C)] pub enum ");
    push_str(&mut out, name);
    push_str(&mut out, " {");
    let ghost mid = out@;
    let mut i: usize = 0;
    while i < constants.len()
        invariant
            i <= constants@.len(),
            out@ == mid + constants_text(constants@.subrange(0, i as int)),
        decreases constants@.len() - i,
    {
        if i > 0 {
            push_str(&mut out, ", ");
        }
        push_str(&mut out, constants[i].name.as_str());
        push_str(&mut out, " = ");
        push_signed(&mut out, constants[i].value);
        let ghost next = constants@.subrange(0, i + 1);
        assert(next.drop_last() =~= constants@.subrange(0, i as int));
        if i == 0 {
            assert(next.len() == 1);
        }
        assert(out@ =~= mid + constants_text(next));
        i = i + 1;
    }
    assert(constants@.subrange(0, i as int) =~= constants@);
    push_str(&mut out, "}");
    out
}

/// The names of the constants, separated by `, `.
pub open spec fn constant_names(cs: Seq<EnumConstant>) -> Seq<char>
    decreases cs.len(),
{
    if cs.len() == 0 {
        Seq::empty()
    } else if cs.len() == 1 {
        cs[0].name@
    } else {
        constant_names(cs.drop_last()) + ", "@ + cs.last().name@
    }
}

/// `pub use self::NAME::{A, B};`
pub open spec fn enum_use_text(name: Seq<char>, cs: Seq<EnumConstant>) -> Seq<char> {
    "pub use self::"@ + name + "::{"@ + constant_names(cs) + "};"@
}

/// The import that brings an enum's constants into the header's scope, as C
/// has them.
pub fn enum_use_decl(name: &str, constants: &Vec<EnumConstant>) -> (r: String)
    ensures
        r@ == enum_use_text(name@, constants@),
{
    let mut out = String::from_str("pub use self::");
    push_str(&mut out, name);
    push_str(&mut out, "::{");
    let ghost mid = out@;
    let mut i: usize = 0;
    while i < constants.len()
        invariant
            i <= constants@.len(),
            out@ == mid + constant_names(constants@.subrange(0, i as int)),
        decreases constants@.len() - i,
    {
        if i > 0 {
            push_str(&mut out, ", ");
        }
        push_str(&mut out, constants[i].name.as_str());
        let ghost next = constants@.subrange(0, i + 1);
        assert(next.drop_last() =~= constants@.subrange(0, i as int));
        if i == 0 {
            assert(next.len() == 1);
        }
        assert(out@ =~= mid + constant_names(next));
        i = i + 1;
    }
    assert(constants@.subrange(0, i as int) =~= constants@);
    push_str(&mut out, "};");
    out
}

/// The target-language name of a builtin C type, for the Windows data
/// model (`long` is 32 bits); `None` for kinds that are not builtins or have
/// no counterpart.
pub open spec fn builtin_text(kind: TypeKind) -> Option<Seq<char>> {
    match kind {
        TypeKind::Void => Some("c_void"@),
        TypeKind::Bool => Some("bool"@),
        TypeKind::Char_U | TypeKind::UChar => Some("u8"@),
        TypeKind::Char_S | TypeKind::SChar => Some("i8"@),
        TypeKind::UShort | TypeKind::WChar | TypeKind::Char16 => Some("u16"@),
        TypeKind::Short => Some("i16"@),
        TypeKind::UInt | TypeKind::ULong | TypeKind::Char32 => Some("u32"@),
        TypeKind::Int | TypeKind::Long => Some("i32"@),
        TypeKind::ULongLong => Some("u64"@),
        TypeKind::LongLong => Some("i64"@),
        TypeKind::UInt128 => Some("u128"@),
        TypeKind::Int128 => Some("i128"@),
        TypeKind::Float => Some("c_float"@),
        TypeKind::Double => Some("c_double"@),
        _ => None,
    }
}

/// The builtin type for a kind, as `builtin_text` names it.
pub fn builtin_type(kind: TypeKind) -> (r: Option<CType>)
    ensures
        match r {
            Some(t) => builtin_text(kind) == Some(render(t@)) && t@ == TypeModel::Builtin(
                render(t@),
            ),
            None => builtin_text(kind).is_none(),
        },
{
    let name = match kind {
        TypeKind::Void => "c_void",
        TypeKind::Bool => "bool",
        TypeKind::Char_U | TypeKind::UChar => "u8",
        TypeKind::Char_S | TypeKind::SChar => "i8",
        TypeKind::UShort | TypeKind::WChar | TypeKind::Char16 => "u16",
        TypeKind::Short => "i16",
        TypeKind::UInt | TypeKind::ULong | TypeKind::Char32 => "u32",
        TypeKind::Int | TypeKind::Long => "i32",
        TypeKind::ULongLong => "u64",
        TypeKind::LongLong => "i64",
        TypeKind::UInt128 => "u128",
        TypeKind::Int128 => "i128",
        TypeKind::Float => "c_float",
        TypeKind::Double => "c_double",
        _ => {
            return None;
        },
    };
    Some(CType::Builtin(String::from_str(name)))
}

/// The unsigned integer of `align` bytes that fills a union's payload.
pub open spec fn payload_unit(align: u64) -> Seq<char> {
    if align == 8 {
        "u64"@
    } else if align == 4 {
        "u32"@
    } else if align == 2 {
        "u16"@
    } else {
        "u8"@
    }
}

/// A union's storage: units of its alignment (1, 2, 4 or 8 bytes; other
/// alignments count in bytes), as many as fill its size; one unit stands
/// alone, others form an array.
pub open spec fn payload_model(size: u64, align: u64) -> TypeModel {
    let unit = if align == 8 || align == 4 || align == 2 { align } else { 1 };
    if size / unit == 1 {
        TypeModel::Builtin(payload_unit(align))
    } else {
        TypeModel::Array(Box::new(TypeModel::Builtin(payload_unit(align))), size / unit)
    }
}

/// The payload type of a union of `size` bytes aligned to `align` bytes.
pub fn union_payload(size: u64, align: u64) -> (r: CType)
    ensures
        r@ == payload_model(size, align),
{
    let unit: u64 = if align == 8 || align == 4 || align == 2 { align } else { 1 };
    let name = if align == 8 {
        "u64"
    } else if align == 4 {
        "u32"
    } else if align == 2 {
        "u16"
    } else {
        "u8"
    };
    let elem = CType::Builtin(String::from_str(name));
    assert(elem@ == TypeModel::Builtin(payload_unit(align)));
    if size / unit == 1 {
        elem
    } else {
        let element = Box::new(elem);
        assert(model_of(*element) == TypeModel::Builtin(payload_unit(align)));
        CType::Array { element, len: size / unit }
    }
}

/// The ABI string of a calling convention; `None` for conventions the
/// target language cannot name.
pub open spec fn abi_text(cc: CallingConv) -> Option<Seq<char>> {
    match cc {
        CallingConv::Default | CallingConv::C => Some("C"@),
        CallingConv::X86StdCall => Some("stdcall"@),
        CallingConv::X86FastCall => Some("fastcall"@),
        CallingConv::X86ThisCall => Some("thiscall"@),
        CallingConv::AAPCS => Some("aapcs"@),
        CallingConv::X86_64Win64 => Some("win64"@),
        CallingConv::X86_64SysV => Some("sysv64"@),
        _ => None,
    }
}

/// The ABI string of a calling convention, as `abi_text` gives it.
pub fn abi_name(cc: CallingConv) -> (r: Option<&'static str>)
    ensures
        match r {
            Some(a) => abi_text(cc) == Some(a@),
            None => abi_text(cc).is_none(),
        },
{
    match cc {
        CallingConv::Default | CallingConv::C => Some("C"),
        CallingConv::X86StdCall => Some("stdcall"),
        CallingConv::X86FastCall => Some("fastcall"),
        CallingConv::X86ThisCall => Some("thiscall"),
        CallingConv::AAPCS => Some("aapcs"),
        CallingConv::X86_64Win64 => Some("win64"),
        CallingConv::X86_64SysV => Some("sysv64"),
        _ => None,
    }
}

/// A parameter's name, `_` when it has none.
pub open spec fn param_name(f: Field) -> Seq<char> {
    if f.name@.len() == 0 {
        "_"@
    } else {
        f.name@
    }
}

/// `name: TYPE` for each parameter, separated by `, `.
pub open spec fn params_text(ps: Seq<Field>) -> Seq<char>
    decreases ps.len(),
{
    if ps.len() == 0 {
        Seq::empty()
    } else if ps.len() == 1 {
        param_name(ps[0]) + ": "@ + render(ps[0].ty@)
    } else {
        params_text(ps.drop_last()) + ", "@ + param_name(ps.last()) + ": "@ + render(ps.last().ty@)
    }
}

/// The declaration of a function: `extern "ABI" { pub fn NAME(params) -> R; }`,
/// with `...` for a variadic one and no result for `c_void`.
pub open spec fn function_text(
    name: Seq<char>,
    abi: Seq<char>,
    ps: Seq<Field>,
    variadic: bool,
    result: TypeModel,
) -> Seq<char> {
    "extern \""@ + abi + "\" { pub fn "@ + name + "("@ + params_text(ps) + (if !variadic {
        Seq::empty()
    } else if ps.len() == 0 {
        "..."@
    } else {
        ", ..."@
    }) + ")"@ + (if result == TypeModel::Builtin("c_void"@) {
        Seq::empty()
    } else {
        " -> "@ + render(result)
    }) + "; }"@
}

/// The declaration of a function, or `None` when its calling convention has
/// no name in the target language.
pub fn function_decl(
    name: &str,
    cc: CallingConv,
    params: &Vec<Field>,
    variadic: bool,
    result: &CType,
) -> (r: Option<String>)
    ensures
        match r {
            Some(t) => abi_text(cc) matches Some(abi) && t@ == function_text(
                name@,
                abi,
                params@,
                variadic,
                result@,
            ),
            None => abi_text(cc).is_none(),
        },
{
    let abi = match abi_name(cc) {
        Some(a) => a,
        None => {
            return None;
        },
    };
    let mut out = String::from_str("extern \"");
    push_str(&mut out, abi);
    push_str(&mut out, "\" { pub fn ");
    push_str(&mut out, name);
    push_str(&mut out, "(");
    let ghost mid = out@;
    let mut i: usize = 0;
    while i < params.len()
        invariant
            i <= params@.len(),
            out@ == mid + params_text(params@.subrange(0, i as int)),
        decreases params@.len() - i,
    {
        if i > 0 {
            push_str(&mut out, ", ");
        }
        if params[i].name.as_str().unicode_len() == 0 {
            push_str(&mut out, "_");
        } else {
            push_str(&mut out, params[i].name.as_str());
        }
        push_str(&mut out, ": ");
        push_type(&mut out, &params[i].ty);
        let ghost next = params@.subrange(0, i + 1);
        assert(next.drop_last() =~= params@.subrange(0, i as int));
        if i == 0 {
            assert(next.len() == 1);
        }
        assert(out@ =~= mid + params_text(next));
        i = i + 1;
    }
    assert(params@.subrange(0, i as int) =~= params@);
    let ghost before_dots = out@;
    if variadic {
        if params.len() == 0 {
            push_str(&mut out, "...");
        } else {
            push_str(&mut out, ", ...");
        }
    }
    push_str(&mut out, ")");
    let ghost before_result = out@;
    let is_void = match result {
        CType::Builtin(n) => crate::text::same_text(n.as_str(), "c_void"),
        _ => false,
    };
    assert(is_void == (result@ == TypeModel::Builtin("c_void"@)));
    if !is_void {
        push_str(&mut out, " -> ");
        push_type(&mut out, result);
    }
    push_str(&mut out, "; }");
    assert(out@ =~= function_text(name@, abi@, params@, variadic, result@));
    Some(out)
}

/// The declaration of a global variable: `extern "C" { pub static NAME: T; }`,
/// `static mut` unless it is const-qualified.
pub open spec fn variable_text(name: Seq<char>, ty: TypeModel, is_const: bool) -> Seq<char> {
    "extern \"C\" { pub static "@ + (if is_const { Seq::empty() } else { "mut "@ }) + name + ": "@
        + render(ty) + "; }"@
}

pub fn variable_decl(name: &str, ty: &CType, is_const: bool) -> (r: String)
    ensures
        r@ == variable_text(name@, ty@, is_const),
{
    let mut out = String::from_str("extern \"C\" { pub static ");
    if !is_const {
        push_str(&mut out, "mut ");
    }
    push_str(&mut out, name);
    push_str(&mut out, ": ");
    push_type(&mut out, ty);
    push_str(&mut out, "; }");
    assert(out@ =~= variable_text(name@, ty@, is_const));
    out
}

proof fn lemma_first_char(t: TypeModel)
    requires
        well_named(t),
    ensures
        render(t).len() >= 1,
        t is Builtin ==> is_ident_start(render(t)[0]),
        t is Named ==> render(t)[0] == ':',
        t is Pointer ==> render(t)[0] == '*',
        t is Array ==> render(t)[0] == '[',
{
    reveal_strlit("::");
    reveal_strlit("*const ");
    reveal_strlit("*mut ");
    reveal_strlit("[");
}

proof fn lemma_dec_digits(n: u64)
    ensures
        dec(n as nat).len() >= 1,
        forall|k: int| 0 <= k < dec(n as nat).len() ==> {
            let c = #[trigger] dec(n as nat)[k];
            c != ';' && c != ' ' && c != ']'
        },
{
    lemma_digits_round_trip(n as nat, 10);
    assert forall|k: int| 0 <= k < dec(n as nat).len() implies {
        let c = #[trigger] dec(n as nat)[k];
        c != ';' && c != ' ' && c != ']'
    } by {
        assert(digit_value(dec(n as nat)[k]) < 10);
    }
}

/// Two well-named types written alike are the same type: the text of a
/// declaration determines the type it names.
pub proof fn lemma_render_injective(a: TypeModel, b: TypeModel)
    requires
        well_named(a),
        well_named(b),
        render(a) == render(b),
    ensures
        a == b,
    decreases a,
{
    let s = render(a);
    lemma_first_char(a);
    lemma_first_char(b);
    reveal_strlit("::");
    reveal_strlit("*const ");
    reveal_strlit("*mut ");
    reveal_strlit("[");
    reveal_strlit("; ");
    reveal_strlit("]");
    match (a, b) {
        (TypeModel::Builtin(x), TypeModel::Builtin(y)) => {},
        (TypeModel::Named(h1, n1), TypeModel::Named(h2, n2)) => {
            assert(s =~= seq![':', ':'] + h1 + seq![':', ':'] + n1);
            assert(s =~= seq![':', ':'] + h2 + seq![':', ':'] + n2);
            if h1.len() < h2.len() {
                assert(s[2 + h1.len() as int] == ':');
                assert(s[2 + h1.len() as int] == h2[h1.len() as int]);
                assert(is_ident_char(h2[h1.len() as int]));
            } else if h2.len() < h1.len() {
                assert(s[2 + h2.len() as int] == ':');
                assert(s[2 + h2.len() as int] == h1[h2.len() as int]);
                assert(is_ident_char(h1[h2.len() as int]));
            }
            assert(h1 =~= s.subrange(2, 2 + h1.len() as int));
            assert(h2 =~= s.subrange(2, 2 + h2.len() as int));
            assert(n1 =~= s.subrange(4 + h1.len() as int, s.len() as int));
            assert(n2 =~= s.subrange(4 + h2.len() as int, s.len() as int));
        },
        (TypeModel::Pointer(p1, c1), TypeModel::Pointer(p2, c2)) => {
            let k1: int = if c1 { 7 } else { 5 };
            let k2: int = if c2 { 7 } else { 5 };
            assert(s[1] == (if c1 { 'c' } else { 'm' }));
            assert(s[1] == (if c2 { 'c' } else { 'm' }));
            assert(render(*p1) =~= s.subrange(k1, s.len() as int));
            assert(render(*p2) =~= s.subrange(k2, s.len() as int));
            lemma_render_injective(*p1, *p2);
        },
        (TypeModel::Array(e1, l1), TypeModel::Array(e2, l2)) => {
            let r1 = render(*e1);
            let r2 = render(*e2);
            let d1 = dec(l1 as nat);
            let d2 = dec(l2 as nat);
            assert(s =~= seq!['['] + r1 + seq![';', ' '] + d1 + seq![']']);
            assert(s =~= seq!['['] + r2 + seq![';', ' '] + d2 + seq![']']);
            lemma_dec_digits(l1);
            lemma_dec_digits(l2);
            if r1.len() < r2.len() {
                let k: int = 1 + r2.len() as int;
                assert(s[k] == ';');
                if k == 1 + r1.len() as int + 1 {
                    assert(s[k] == ' ');
                } else if k < 1 + r1.len() as int + 2 + d1.len() {
                    assert(s[k] == d1[k - (3 + r1.len() as int)]);
                } else {
                    assert(s[k] == ']');
                }
            } else if r2.len() < r1.len() {
                let k: int = 1 + r1.len() as int;
                assert(s[k] == ';');
                if k == 1 + r2.len() as int + 1 {
                    assert(s[k] == ' ');
                } else if k < 1 + r2.len() as int + 2 + d2.len() {
                    assert(s[k] == d2[k - (3 + r2.len() as int)]);
                } else {
                    assert(s[k] == ']');
                }
            }
            assert(r1 =~= s.subrange(1, 1 + r1.len() as int));
            assert(r2 =~= s.subrange(1, 1 + r2.len() as int));
            lemma_render_injective(*e1, *e2);
            assert(d1 =~= s.subrange(3 + r1.len() as int, s.len() - 1));
            assert(d2 =~= s.subrange(3 + r2.len() as int, s.len() - 1));
            lemma_digits_round_trip(l1 as nat, 10);
            lemma_digits_round_trip(l2 as nat, 10);
        },
        (TypeModel::Builtin(x), _) => {
            assert(is_ident_start(s[0]));
        },
        (_, TypeModel::Builtin(y)) => {
            assert(is_ident_start(s[0]));
        },
        _ => {},
    }
}

/// A typedef's declaration gives back the type it was emitted for: two
/// typedefs of one name written alike name the same well-named type.
pub proof fn lemma_typedef_round_trip(name: Seq<char>, a: TypeModel, b: TypeModel)
    requires
        well_named(a),
        well_named(b),
        typedef_text(name, a) == typedef_text(name, b),
    ensures
        a == b,
{
    let s = typedef_text(name, a);
    reveal_strlit(";");
    let p = "pub type "@ + name + " = "@;
    assert(s =~= p + render(a) + ";"@);
    assert(s =~= p + render(b) + ";"@);
    let k: int = ("pub type "@.len() + name.len() + " = "@.len()) as int;
    assert(render(a) =~= s.subrange(k, s.len() - 1));
    assert(render(b) =~= s.subrange(k, s.len() - 1));
    lemma_render_injective(a, b);
}

} // verus!
