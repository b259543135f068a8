use hdrgen::features::Features;
use hdrgen::macro_expr::{expression, lex_ident, lex_integer, lex_string, Node, Signed, Size, UnaryOp};
use hdrgen::output::OutputItems;
use hdrgen::trans_macros::{
    is_function_like, process_macro_defn, push_debug, try_trans_inty_macro, MacroDefinition, MacroError,
    MacroToken,
};

fn toks(words: &[&str]) -> Vec<String> {
    words.iter().map(|w| w.to_string()).collect()
}

/// Tokens laid out as a `#define` line: the name at column 9, each later
/// token after `gaps[i]` blank columns, then the framing token.
fn define_tokens(name: &str, rest: &[(&str, u32)]) -> Vec<MacroToken> {
    let mut out = Vec::new();
    let mut col: u32 = 9;
    let end = col + name.len() as u32;
    out.push(MacroToken { spelling: name.to_string(), start_column: col, end_column: end });
    col = end;
    for (word, gap) in rest {
        let start = col + gap;
        let end = start + word.len() as u32;
        out.push(MacroToken { spelling: word.to_string(), start_column: start, end_column: end });
        col = end;
    }
    out.push(MacroToken { spelling: String::new(), start_column: 1, end_column: 1 });
    out
}

fn defn(name: &str, rest: &[(&str, u32)]) -> MacroDefinition {
    MacroDefinition {
        name: name.to_string(),
        header: "sysinfoapi".to_string(),
        annotation: "sysinfoapi.h:618:9".to_string(),
        tokens: define_tokens(name, rest),
    }
}

fn parse_all(words: &[&str]) -> Node {
    let t = toks(words);
    match expression(&t) {
        Ok((n, used)) => {
            assert_eq!(used, t.len());
            n
        }
        Err(m) => panic!("no parse at {}", m.pos),
    }
}

fn translated(words: &[&str]) -> Option<(String, String)> {
    try_trans_inty_macro(&parse_all(words))
}

#[test]
fn integer_literal_suffixes() {
    assert!(matches!(lex_integer("1"), Some((1, Signed::Yes, Size::Unknown))));
    assert!(matches!(lex_integer("1U"), Some((1, Signed::No, Size::Unknown))));
    assert!(matches!(lex_integer("1u"), Some((1, Signed::No, Size::Unknown))));
    assert!(matches!(lex_integer("1L"), Some((1, Signed::Yes, Size::Long))));
    assert!(matches!(lex_integer("1LL"), Some((1, Signed::Yes, Size::Long))));
    assert!(matches!(lex_integer("1ULL"), Some((1, Signed::No, Size::Long))));
    assert!(matches!(lex_integer("1ull"), Some((1, Signed::No, Size::Long))));
    assert!(matches!(lex_integer("1LLU"), Some((1, Signed::No, Size::Long))));
    assert!(matches!(lex_integer("1UL"), Some((1, Signed::No, Size::Long))));
    assert!(lex_integer("1LUL").is_none());
    assert!(lex_integer("1lL").is_none());
    assert!(lex_integer("1X").is_none());
}

#[test]
fn integer_literal_bases() {
    assert!(matches!(lex_integer("0x1"), Some((1, Signed::Yes, Size::Unknown))));
    assert!(matches!(lex_integer("0xFFFFFFFFU"), Some((0xffff_ffff, Signed::No, Size::Unknown))));
    assert!(matches!(lex_integer("0XaB"), Some((0xab, Signed::Yes, Size::Unknown))));
    assert!(matches!(lex_integer("017"), Some((15, Signed::Yes, Size::Unknown))));
    assert!(matches!(lex_integer("0"), Some((0, Signed::Yes, Size::Unknown))));
    assert!(matches!(lex_integer("1234"), Some((1234, Signed::Yes, Size::Unknown))));
    assert!(lex_integer("0x").is_none());
    assert!(lex_integer("08").is_none());
    assert!(lex_integer("").is_none());
    assert!(lex_integer("abc").is_none());
}

#[test]
fn integer_literal_limits() {
    assert!(matches!(lex_integer("0xFFFFFFFFFFFFFFFF"), Some((u64::MAX, Signed::Yes, Size::Unknown))));
    assert!(matches!(lex_integer("18446744073709551615ULL"), Some((u64::MAX, Signed::No, Size::Long))));
    assert!(lex_integer("0x10000000000000000").is_none());
    assert!(lex_integer("18446744073709551616").is_none());
}

#[test]
fn string_and_identifier_tokens() {
    assert_eq!(lex_string("\"abc\""), Some(("abc".to_string(), false)));
    assert_eq!(lex_string("L\"w\""), Some(("w".to_string(), true)));
    assert_eq!(lex_string("\"\""), Some((String::new(), false)));
    assert_eq!(lex_string("\""), None);
    assert_eq!(lex_string("abc"), None);
    assert!(lex_ident("SCEX2_ALT_NETBIOS_NAME"));
    assert!(lex_ident("_x1"));
    assert!(!lex_ident("1x"));
    assert!(!lex_ident(""));
    assert!(!lex_ident("a-b"));
}

#[test]
fn parses_casts_calls_and_prefixes() {
    let n = parse_all(&["(", "DWORD", ")", "-", "1"]);
    assert_eq!(format!("{:?}", n), "Cast { ty: Type(\"DWORD\", false), value: Unary(Neg, Integer(1, Yes, Unknown)) }");
    let n = parse_all(&["(", "HANDLE", "*", ")", "0"]);
    assert_eq!(format!("{:?}", n), "Cast { ty: Type(\"HANDLE\", true), value: Integer(0, Yes, Unknown) }");
    let n = parse_all(&["TEXT", "(", "\"abc\"", ")"]);
    assert_eq!(format!("{:?}", n), "Call { subject: Ident(\"TEXT\"), args: [String(\"abc\", false)] }");
    let n = parse_all(&["F", "(", "1", ",", "~", "X", ")"]);
    assert_eq!(format!("{:?}", n), "Call { subject: Ident(\"F\"), args: [Integer(1, Yes, Unknown), Unary(Com, Ident(\"X\"))] }");
    let n = parse_all(&["G", "(", ")"]);
    assert_eq!(format!("{:?}", n), "Call { subject: Ident(\"G\"), args: [] }");
    let n = parse_all(&["(", "(", "5", ")", ")"]);
    assert_eq!(format!("{:?}", n), "Integer(5, Yes, Unknown)");
    let n = parse_all(&["(", "X", ")"]);
    assert_eq!(format!("{:?}", n), "Ident(\"X\")");
}

#[test]
fn parse_failures() {
    assert!(expression(&toks(&["+", "1"])).is_err());
    assert!(expression(&toks(&["(", "1"])).is_err());
    assert!(expression(&toks(&["F", "(", "1", ","])).is_err());
    assert!(expression(&Vec::new()).is_err());
    match expression(&toks(&["1", "+", "2"])) {
        Ok((_, used)) => assert_eq!(used, 1),
        Err(_) => panic!("a prefix parses"),
    }
}

#[test]
fn debug_rendering_matches_derived_debug() {
    let shapes: Vec<Vec<&str>> = vec![
        vec!["(", "DWORD", ")", "~", "0x10", "ULL"],
        vec!["TEXT", "(", "L\"a\\\"b\"", ")"],
        vec!["F", "(", "1", ",", "2", ",", "G", "(", ")", ")"],
        vec!["-", "(", "P", "*", ")", "X"],
    ];
    for words in shapes {
        let t: Vec<String> = words.iter().map(|w| w.to_string()).collect();
        if let Ok((n, _)) = expression(&t) {
            let mut s = String::new();
            push_debug(&mut s, &n);
            assert_eq!(s, format!("{:?}", n));
        } else {
            panic!("shape does not parse");
        }
    }
}

#[test]
fn translates_integers() {
    assert_eq!(translated(&["0xFFFFFFFFU"]), Some(("ffffffffu32".to_string(), "u32".to_string())));
    assert_eq!(translated(&["1ULL"]), Some(("1u64".to_string(), "u64".to_string())));
    assert_eq!(translated(&["0x1"]), Some(("1i32".to_string(), "i32".to_string())));
    assert_eq!(translated(&["255LL"]), Some(("ffi64".to_string(), "i64".to_string())));
    // A signed value of unknown size is written in 32 bits.
    assert_eq!(translated(&["0x100000001"]), Some(("1i32".to_string(), "i32".to_string())));
    assert_eq!(translated(&["0"]), Some(("0i32".to_string(), "i32".to_string())));
}

#[test]
fn translates_strings_casts_and_prefixes() {
    assert_eq!(translated(&["\"abc\""]), Some(("\"abc\"".to_string(), "&'static str".to_string())));
    assert_eq!(translated(&["TEXT", "(", "\"abc\"", ")"]), Some(("\"abc\"".to_string(), "&'static str".to_string())));
    assert_eq!(
        translated(&["(", "DWORD", ")", "1"]),
        Some(("1i32 as DWORD".to_string(), "DWORD".to_string()))
    );
    assert_eq!(
        translated(&["(", "HANDLE", "*", ")", "-", "1"]),
        Some(("-1i32 as *mut HANDLE".to_string(), "*mut HANDLE".to_string()))
    );
    assert_eq!(translated(&["~", "0U"]), Some(("!0u32".to_string(), "u32".to_string())));
    assert_eq!(translated(&["-", "2"]), Some(("-2i32".to_string(), "i32".to_string())));
}

#[test]
fn untranslatable_bodies() {
    assert_eq!(translated(&["X"]), None);
    assert_eq!(translated(&["F", "(", "1", ")"]), None);
    assert_eq!(translated(&["TEXT", "(", "1", ",", "2", ")"]), None);
    assert_eq!(translated(&["~", "X"]), None);
    assert_eq!(translated(&["(", "T", ")", "X"]), None);
}

#[test]
fn function_like_by_columns() {
    let adjacent = define_tokens("F", &[("(", 0), ("x", 0), (")", 0), ("x", 1)]);
    assert!(is_function_like(&adjacent));
    let spaced = define_tokens("F", &[("(", 1), ("x", 0), (")", 0)]);
    assert!(!is_function_like(&spaced));
    let alone = define_tokens("F", &[]);
    assert!(!is_function_like(&alone));
    assert!(!is_function_like(&Vec::new()));
}

#[test]
fn netbios_name_constant() {
    let mut out = OutputItems::new();
    let feat = Features::from_tag("winapi_desktop".to_string());
    let d = defn("SCEX2_ALT_NETBIOS_NAME", &[("0x1", 1)]);
    assert!(process_macro_defn(&d, &mut out, &feat, false).is_ok());
    assert_eq!(out.len(), 1);
    assert_eq!(
        out.item(0).decl(),
        "pub const SCEX2_ALT_NETBIOS_NAME: i32 = 1i32; /* Integer(1, Yes, Unknown) */"
    );
    assert_eq!(
        out.emit("sysinfoapi"),
        "#[cfg(feature=\"winapi_desktop\")] pub const SCEX2_ALT_NETBIOS_NAME: i32 = 1i32; /* Integer(1, Yes, Unknown) */ /* sysinfoapi.h:618:9 */\n"
    );
}

#[test]
fn unsigned_max_constant() {
    let mut out = OutputItems::new();
    let feat = Features::new();
    let d = defn("MAX_U", &[("0xFFFFFFFFU", 1)]);
    assert!(process_macro_defn(&d, &mut out, &feat, false).is_ok());
    assert_eq!(out.item(0).decl(), "pub const MAX_U: u32 = ffffffffu32; /* Integer(4294967295, No, Unknown) */");
}

#[test]
fn function_like_constant_is_never_a_constant() {
    let d = defn("K", &[("(", 0), ("x", 0), (")", 0), ("7", 1)]);
    let mut out = OutputItems::new();
    let r = process_macro_defn(&d, &mut out, &Features::new(), false);
    assert!(matches!(r, Err(MacroError::Unsupported)));
    assert_eq!(out.len(), 0);
    let mut out = OutputItems::new();
    let r = process_macro_defn(&d, &mut out, &Features::new(), true);
    assert!(matches!(r, Err(MacroError::Unsupported)));
    assert_eq!(out.len(), 1);
    assert_eq!(out.item(0).decl(), "// #define K(x) Integer(7, Yes, Unknown)");
}

#[test]
fn parse_error_names_where_parsing_stopped() {
    let mut out = OutputItems::new();
    let r = process_macro_defn(&defn("P", &[("(", 1), ("1", 0), ("2", 1)]), &mut out, &Features::new(), true);
    match r {
        Err(MacroError::Parse { pos, remaining }) => {
            assert_eq!(pos, 2);
            assert_eq!(remaining, vec!["2".to_string()]);
        }
        _ => panic!("expected a parse error"),
    }
    match expression(&toks(&["F", "(", "1", "+"])) {
        Err(m) => assert_eq!(m.pos, 3),
        Ok(_) => panic!("no parse"),
    }
    match expression(&toks(&["~"])) {
        Err(m) => assert_eq!(m.pos, 1),
        Ok(_) => panic!("no parse"),
    }
}

#[test]
fn empty_bodies_emit_nothing() {
    let mut out = OutputItems::new();
    let feat = Features::from_tag("app".to_string());
    assert!(process_macro_defn(&defn("GUARD_H", &[]), &mut out, &feat, true).is_ok());
    assert!(process_macro_defn(&defn("F", &[("(", 0), ("x", 0), (")", 0)]), &mut out, &feat, true).is_ok());
    let bare = MacroDefinition {
        name: "E".to_string(),
        header: "h".to_string(),
        annotation: String::new(),
        tokens: Vec::new(),
    };
    assert!(process_macro_defn(&bare, &mut out, &feat, true).is_ok());
    assert_eq!(out.len(), 0);
}

#[test]
fn widen_is_unsupported_or_stubbed() {
    let rest = [("(", 0), ("x", 0), (")", 0), ("L", 1), ("##", 0), ("x", 0)];
    let feat = Features::from_tag("app".to_string());

    let mut out = OutputItems::new();
    let done = process_macro_defn(&defn("OTHER", &[("2", 1)]), &mut out, &feat, false);
    assert!(done.is_ok());
    let r = process_macro_defn(&defn("WIDEN", &rest), &mut out, &feat, false);
    assert!(matches!(r, Err(MacroError::Unsupported)));
    assert_eq!(out.len(), 1);
    assert_eq!(out.item(0).name(), "OTHER");

    let mut out = OutputItems::new();
    let r = process_macro_defn(&defn("WIDEN", &rest), &mut out, &feat, true);
    assert!(matches!(r, Err(MacroError::Unsupported)));
    assert_eq!(out.len(), 1);
    assert_eq!(out.item(0).decl(), "// #define WIDEN(x) L ## x");
}

#[test]
fn stub_for_parsed_but_untranslatable() {
    let mut out = OutputItems::new();
    let r = process_macro_defn(&defn("ALIAS", &[("OTHER", 1)]), &mut out, &Features::new(), true);
    assert!(matches!(r, Err(MacroError::Unsupported)));
    assert_eq!(out.item(0).decl(), "// #define ALIAS Ident(\"OTHER\")");
    let mut out = OutputItems::new();
    let r = process_macro_defn(&defn("ALIAS", &[("OTHER", 1)]), &mut out, &Features::new(), false);
    assert!(matches!(r, Err(MacroError::Unsupported)));
    assert_eq!(out.len(), 0);
}

#[test]
fn object_like_parse_errors() {
    let mut out = OutputItems::new();
    let r = process_macro_defn(&defn("BAD", &[("+", 1), ("1", 0)]), &mut out, &Features::new(), true);
    match r {
        Err(MacroError::Parse { pos, remaining }) => {
            assert_eq!(pos, 0);
            assert_eq!(remaining, vec!["+".to_string(), "1".to_string()]);
        }
        _ => panic!("expected a parse error"),
    }
    let r = process_macro_defn(&defn("MORE", &[("1", 1), ("2", 1)]), &mut out, &Features::new(), true);
    match r {
        Err(MacroError::Incomplete { pos, remaining }) => {
            assert_eq!(pos, 1);
            assert_eq!(remaining, vec!["2".to_string()]);
        }
        _ => panic!("expected an incomplete parse"),
    }
    assert_eq!(out.len(), 0);
}

#[test]
fn conflicting_macro_redefinition() {
    let mut out = OutputItems::new();
    let feat = Features::from_tag("desktop".to_string());
    assert!(process_macro_defn(&defn("K", &[("1", 1)]), &mut out, &feat, false).is_ok());
    let r = process_macro_defn(&defn("K", &[("2", 1)]), &mut out, &feat, false);
    match r {
        Err(MacroError::Conflict(c)) => assert_eq!(c.existing, 0),
        _ => panic!("expected a conflict"),
    }
    assert_eq!(out.len(), 1);
}

#[test]
fn unary_ops_are_distinct() {
    assert_ne!(UnaryOp::Com, UnaryOp::Neg);
}

#[test]
fn emitted_integers_read_back() {
    for (lit, value, suffix) in [("0xFFFFFFFFU", 0xffff_ffffu64, "u32"), ("7ULL", 7, "u64"), ("0x7fffffff", 0x7fff_ffff, "i32"), ("077LL", 63, "i64")] {
        let (text, ty) = translated(&[lit]).expect("an integer translates");
        assert_eq!(ty, suffix);
        assert!(text.ends_with(suffix));
        let digits = &text[..text.len() - 3];
        assert_eq!(u64::from_str_radix(digits, 16), Ok(value));
    }
}
