use hdrgen::clang::{
    ErrorCode, File, SourceLocation, SourceRange, Token, Tokens, TokensIter, TranslationUnitFlags, TuRegistry, Type,
    VisitAction, VisitTermination, TU_DETAILED_PREPROCESSING_RECORD, TU_SKIP_FUNCTION_BODIES,
};
use hdrgen::kinds::{CallingConv, CursorKind, TypeKind};
use hdrgen::util::{BoolUtil, CheckedFrom, CheckedInto, TryFrom, TryInto};

fn loc(file: Option<&str>, line: u32, column: u32) -> SourceLocation {
    SourceLocation::new(
        (file.map(|f| File::new(f.to_string())), line, column, 100),
        (file.map(|f| File::new(f.to_string())), line + 1, column + 1, 101),
    )
}

fn token(spelling: &str, start: u32, end: u32) -> Token {
    Token {
        spelling: spelling.to_string(),
        extent: Some(SourceRange { start: loc(Some("h.h"), 3, start), end: loc(Some("h.h"), 3, end) }),
        location: loc(Some("h.h"), 3, start),
    }
}

#[test]
fn error_codes() {
    assert_eq!(<ErrorCode as TryFrom<u32>>::try_from(0), None);
    assert_eq!(<ErrorCode as TryFrom<u32>>::try_from(1), Some(ErrorCode::Failure));
    assert_eq!(<ErrorCode as TryFrom<u32>>::try_from(2), Some(ErrorCode::Crashed));
    assert_eq!(<ErrorCode as TryFrom<u32>>::try_from(3), Some(ErrorCode::InvalidArguments));
    assert_eq!(<ErrorCode as TryFrom<u32>>::try_from(4), Some(ErrorCode::AstReadError));
    assert_eq!(<ErrorCode as TryFrom<u32>>::try_from(77), Some(ErrorCode::UnknownError));
    let e: Option<ErrorCode> = TryInto::try_into(2u32);
    assert_eq!(e, Some(ErrorCode::Crashed));
    assert_eq!(ErrorCode::Crashed.description(), "clang crashed");
    assert_eq!(ErrorCode::UnknownError.description(), "unknown clang error");
}

#[test]
fn visit_codes() {
    assert_eq!(VisitAction::Break.raw(), 0);
    assert_eq!(VisitAction::Continue.raw(), 1);
    assert_eq!(VisitAction::Recurse.raw(), 2);
    assert_eq!(VisitTermination::from_raw(0), VisitTermination::Normal);
    assert_eq!(VisitTermination::from_raw(1), VisitTermination::Early);
}

#[test]
fn kinds_decode() {
    assert_eq!(<TypeKind as TryFrom<u32>>::try_from(101), Some(TypeKind::Pointer));
    assert_eq!(<TypeKind as TryFrom<u32>>::try_from(30), None);
    assert_eq!(TypeKind::Record.raw(), 105);
    assert_eq!(<CursorKind as TryFrom<u32>>::try_from(501), Some(CursorKind::MacroDefinition));
    assert_eq!(<CursorKind as TryFrom<u32>>::try_from(502), Some(CursorKind::MacroInstantiation));
    assert_eq!(CursorKind::TypedefDecl.raw(), 20);
    assert_eq!(<CallingConv as TryFrom<u32>>::try_from(2), Some(CallingConv::X86StdCall));
    assert_eq!(<CallingConv as TryFrom<u32>>::try_from(12), None);
    assert_eq!(Type::new(TypeKind::Typedef).kind(), TypeKind::Typedef);
}

#[test]
fn parse_flags() {
    let f = TranslationUnitFlags::from_bits_truncate(TU_DETAILED_PREPROCESSING_RECORD | 0x300);
    assert_eq!(f.bits, 1);
    let g = f.union(TranslationUnitFlags::from_bits_truncate(TU_SKIP_FUNCTION_BODIES));
    assert_eq!(g.bits, 65);
    assert!(g.contains(f));
    assert!(!f.contains(g));
}

#[test]
fn file_names_and_stems() {
    let f = File::new("C:\\sdk\\um\\sysinfoapi.h".to_string());
    assert_eq!(f.file_name(), "C:/sdk/um/sysinfoapi.h");
    assert_eq!(f.name(), "sysinfoapi");
    assert_eq!(File::new("/usr/include/a.b.h".to_string()).name(), "a.b");
    assert_eq!(File::new(".hidden".to_string()).name(), ".hidden");
    assert_eq!(File::new("plain".to_string()).name(), "plain");
    assert_eq!(File::new("a/b/".to_string()).name(), "b");
    assert_eq!(File::new("a/b.h/.".to_string()).name(), "b");
    assert_eq!(File::new("a\\b.h\\.\\".to_string()).name(), "b");
    assert_eq!(File::new("a/..".to_string()).name(), "");
    assert_eq!(File::new("/".to_string()).name(), "");
}

#[test]
fn locations() {
    let l = loc(Some("C:\\sdk\\sysinfoapi.h"), 618, 9);
    assert_eq!(l.line(), 618);
    assert_eq!(l.column(), 9);
    assert_eq!(l.file().map(|f| f.name()), Some("sysinfoapi".to_string()));
    assert_eq!(l.display_short(), "sysinfoapi.h:618:9");
    let (file, line, column, offset) = l.file_location();
    assert_eq!(file.map(|f| f.file_name()), Some("C:/sdk/sysinfoapi.h".to_string()));
    assert_eq!((line, column, offset), (619, 10, 101));
    let (_, _, _, offset) = l.instantiation_location();
    assert_eq!(offset, 100);
    assert_eq!(loc(None, 1, 2).display_short(), "(unknown):1:2");
    assert_eq!(loc(Some("inc/x.h/"), 3, 4).display_short(), "x.h:3:4");
}

#[test]
fn tokens_by_index_and_from_both_ends() {
    let toks = Tokens::new(vec![token("A", 9, 10), token("(", 10, 11), token("1", 12, 13)]);
    assert_eq!(toks.len(), 3);
    assert_eq!(toks.at(1).spelling(), "(");
    assert!(toks.get(3).is_none());
    assert_eq!(toks.get(2).map(|t| t.spelling()), Some("1".to_string()));
    assert_eq!(toks.at(0).extent().map(|e| e.end().column()), Some(10));
    assert_eq!(toks.at(2).location().column(), 12);
    let mut it = TokensIter::new(&toks);
    assert_eq!(it.len(), 3);
    assert_eq!(it.next().map(|t| t.spelling()), Some("A".to_string()));
    assert_eq!(it.next_back().map(|t| t.spelling()), Some("1".to_string()));
    assert_eq!(it.len(), 1);
    assert_eq!(it.next_back().map(|t| t.spelling()), Some("(".to_string()));
    assert!(it.next().is_none());
    assert!(it.next_back().is_none());
}

#[test]
fn macro_tokens_from_extents() {
    let toks = Tokens::new(vec![token("F", 9, 10), token("(", 10, 11)]);
    let m = toks.macro_tokens().expect("every token has an extent");
    assert_eq!(m.len(), 2);
    assert_eq!((m[1].start_column, m[1].end_column), (10, 11));
    let mut bare = token("x", 1, 2);
    bare.extent = None;
    assert!(Tokens::new(vec![token("F", 9, 10), bare]).macro_tokens().is_none());
}

#[test]
fn registry_of_units() {
    let mut reg: TuRegistry<&str> = TuRegistry::new();
    assert!(reg.register(0x1000, "first").is_ok());
    assert!(reg.register(0x2000, "second").is_ok());
    assert_eq!(reg.register(0x1000, "again").map_err(|e| e.handle), Err(0x1000));
    assert_eq!(reg.lookup(0x1000), Some(&"first"));
    assert_eq!(reg.unregister(0x2000), Some("second"));
    assert_eq!(reg.lookup(0x2000), None);
    assert_eq!(reg.lookup(0x1000), Some(&"first"));
    assert_eq!(reg.unregister(0x2000), None);
}

#[test]
fn conversions() {
    assert_eq!(true.as_either(1, 0), 1);
    assert_eq!(false.as_either("y", "n"), "n");
    assert_eq!(<u32 as CheckedFrom<usize>>::checked_from(7), 7u32);
    assert_eq!(<i32 as CheckedFrom<usize>>::checked_from(2147483647), i32::MAX);
    let n: u32 = CheckedInto::checked_into(5usize);
    assert_eq!(n, 5);
}
