//! The values that libclang hands out, held as plain values: files,
//! source locations and ranges, tokens, types, the codes its calls return, and
//! the registry that maps a native translation-unit handle to its owner.

use vstd::prelude::*;
use std::collections::HashMap;
use crate::kinds::TypeKind;
use crate::text::{dec, push_char, push_dec};
use crate::util::TryFrom;

verus! {

/// `clang_parseTranslationUnit2` reports success.
pub const CX_ERROR_SUCCESS: u32 = 0;

/// `clang_parseTranslationUnit2` reports a generic failure.
pub const CX_ERROR_FAILURE: u32 = 1;

/// libclang crashed while parsing.
pub const CX_ERROR_CRASHED: u32 = 2;

/// The arguments of the parse call were invalid.
pub const CX_ERROR_INVALID_ARGUMENTS: u32 = 3;

/// A serialized AST could not be read.
pub const CX_ERROR_AST_READ_ERROR: u32 = 4;

/// Why libclang did not produce a translation unit.
#[derive(PartialEq, Eq, Structural, Clone, Copy, Debug, Hash)]
pub enum ErrorCode {
    UnknownError,
    Failure,
    Crashed,
    InvalidArguments,
    AstReadError,
}

impl ErrorCode {
    /// A short description of the error.
    pub fn description(&self) -> (r: &'static str)
        ensures
            r@ == error_description(*self),
    {
        match self {
            ErrorCode::UnknownError => "unknown clang error",
            ErrorCode::Failure => "clang failure",
            ErrorCode::Crashed => "clang crashed",
            ErrorCode::InvalidArguments => "clang invalid arguments",
            ErrorCode::AstReadError => "clang ast read error",
        }
    }
}

pub open spec fn error_description(e: ErrorCode) -> Seq<char> {
    match e {
        ErrorCode::UnknownError => "unknown clang error"@,
        ErrorCode::Failure => "clang failure"@,
        ErrorCode::Crashed => "clang crashed"@,
        ErrorCode::InvalidArguments => "clang invalid arguments"@,
        ErrorCode::AstReadError => "clang ast read error"@,
    }
}

/// Success decodes to no error; every other code to an error, codes that
/// libclang may add later to `UnknownError`.
impl TryFrom<u32> for ErrorCode {
    open spec fn decoded(v: u32) -> Option<ErrorCode> {
        if v == CX_ERROR_SUCCESS {
            None
        } else if v == CX_ERROR_FAILURE {
            Some(ErrorCode::Failure)
        } else if v == CX_ERROR_CRASHED {
            Some(ErrorCode::Crashed)
        } else if v == CX_ERROR_INVALID_ARGUMENTS {
            Some(ErrorCode::InvalidArguments)
        } else if v == CX_ERROR_AST_READ_ERROR {
            Some(ErrorCode::AstReadError)
        } else {
            Some(ErrorCode::UnknownError)
        }
    }

    fn try_from(v: u32) -> (r: Option<ErrorCode>) {
        if v == CX_ERROR_SUCCESS {
            None
        } else if v == CX_ERROR_FAILURE {
            Some(ErrorCode::Failure)
        } else if v == CX_ERROR_CRASHED {
            Some(ErrorCode::Crashed)
        } else if v == CX_ERROR_INVALID_ARGUMENTS {
            Some(ErrorCode::InvalidArguments)
        } else if v == CX_ERROR_AST_READ_ERROR {
            Some(ErrorCode::AstReadError)
        } else {
            Some(ErrorCode::UnknownError)
        }
    }
}

/// What a visitor asks of the traversal after seeing a cursor.
#[derive(PartialEq, Eq, Structural, Clone, Copy, Debug, Hash)]
pub enum VisitAction {
    Break,
    Continue,
    Recurse,
}

impl VisitAction {
    /// The `CXChildVisitResult` code: 0, 1 and 2.
    pub fn raw(self) -> (r: u32)
        ensures
            r == visit_code(self),
    {
        match self {
            VisitAction::Break => 0,
            VisitAction::Continue => 1,
            VisitAction::Recurse => 2,
        }
    }
}

pub open spec fn visit_code(a: VisitAction) -> u32 {
    match a {
        VisitAction::Break => 0,
        VisitAction::Continue => 1,
        VisitAction::Recurse => 2,
    }
}

/// How a traversal of children ended.
#[derive(PartialEq, Eq, Structural, Clone, Copy, Debug, Hash)]
pub enum VisitTermination {
    Normal,
    Early,
}

impl VisitTermination {
    /// `clang_visitChildren` returns zero when the traversal ran to its end.
    pub fn from_raw(v: u32) -> (r: VisitTermination)
        ensures
            r == (if v == 0 { VisitTermination::Normal } else { VisitTermination::Early }),
    {
        if v == 0 {
            VisitTermination::Normal
        } else {
            VisitTermination::Early
        }
    }
}

/// Flags of a parse: a bit mask over the constants below.
#[derive(PartialEq, Eq, Structural, Clone, Copy, Debug, Hash)]
pub struct TranslationUnitFlags {
    pub bits: u32,
}

pub const TU_NONE: u32 = 0;

/// Needed to observe macro definitions.
pub const TU_DETAILED_PREPROCESSING_RECORD: u32 = 1;

pub const TU_INCOMPLETE: u32 = 2;

pub const TU_PRECOMPILED_PREAMBLE: u32 = 4;

pub const TU_CACHE_COMPLETION_RESULTS: u32 = 8;

pub const TU_FOR_SERIALIZATION: u32 = 16;

pub const TU_CXX_CHAINED_PCH: u32 = 32;

pub const TU_SKIP_FUNCTION_BODIES: u32 = 64;

pub const TU_INCLUDE_BRIEF_COMMENTS_IN_CODE_COMPLETION: u32 = 128;

impl TranslationUnitFlags {
    /// The flags whose bits are set in `bits`, unknown bits dropped.
    pub fn from_bits_truncate(bits: u32) -> (r: TranslationUnitFlags)
        ensures
            r.bits == bits & 255,
    {
        TranslationUnitFlags { bits: bits & 255 }
    }

    /// Whether every flag of `other` is set.
    pub fn contains(self, other: TranslationUnitFlags) -> (r: bool)
        ensures
            r == (self.bits & other.bits == other.bits),
    {
        self.bits & other.bits == other.bits
    }

    /// The flags of both.
    pub fn union(self, other: TranslationUnitFlags) -> (r: TranslationUnitFlags)
        ensures
            r.bits == self.bits | other.bits,
    {
        TranslationUnitFlags { bits: self.bits | other.bits }
    }
}

/// An in-memory overlay of a file for a parse: its name and the text that
/// stands in for what is on disk.
pub struct UnsavedFile {
    pub filename: String,
    pub contents: String,
}

/// A source file, by the name libclang gives it.
pub struct File {
    path: String,
}

/// `s` with every `\` turned into `/`.
pub open spec fn normalized(s: Seq<char>) -> Seq<char> {
    s.map_values(|c: char| if c == '\\' { '/' } else { c })
}

/// The characters after the last `/`.
pub open spec fn base_name(s: Seq<char>) -> Seq<char>
    decreases s.len(),
{
    if s.len() == 0 || s.last() == '/' {
        Seq::empty()
    } else {
        base_name(s.drop_last()).push(s.last())
    }
}

/// The position of the last `.`, or -1.
pub open spec fn last_dot(s: Seq<char>) -> int
    decreases s.len(),
{
    if s.len() == 0 {
        -1
    } else if s.last() == '.' {
        s.len() - 1
    } else {
        last_dot(s.drop_last())
    }
}

/// A file name without its extension: the part before the last `.`, unless
/// that dot leads the name.
pub open spec fn stem(s: Seq<char>) -> Seq<char> {
    if last_dot(s) > 0 {
        s.subrange(0, last_dot(s))
    } else {
        s
    }
}

fn base_start(s: &str) -> (r: usize)
    ensures
        r <= s@.len(),
        base_name(s@) == s@.subrange(r as int, s@.len() as int),
{
    let n = s.unicode_len();
    let mut i: usize = n;
    assert(s@.subrange(n as int, n as int) =~= Seq::<char>::empty());
    assert(s@.subrange(0, n as int) =~= s@);
    while i > 0 && s.get_char(i - 1) != '/'
        invariant
            n == s@.len(),
            i <= n,
            base_name(s@) == base_name(s@.subrange(0, i as int)) + s@.subrange(i as int, n as int),
        decreases i,
    {
        let ghost pre = s@.subrange(0, i as int);
        assert(pre.drop_last() =~= s@.subrange(0, i - 1));
        assert(s@.subrange(i - 1, n as int) =~= seq![pre.last()] + s@.subrange(i as int, n as int));
        i = i - 1;
    }
    let ghost pre = s@.subrange(0, i as int);
    assert(base_name(pre) =~= Seq::<char>::empty());
    assert(base_name(s@) =~= s@.subrange(i as int, n as int));
    i
}

/// `s` without trailing separators and trailing `.` components.
pub open spec fn trimmed(s: Seq<char>) -> Seq<char>
    decreases s.len(),
{
    if s.len() > 0 && s.last() == '/' {
        trimmed(s.drop_last())
    } else if s.len() >= 2 && s.last() == '.' && s[s.len() - 2] == '/' {
        trimmed(s.drop_last())
    } else {
        s
    }
}

/// The file name of a path: its last component once trailing separators and
/// `.` components are dropped; empty when that is `.` or `..`, or when the
/// path has no component.
pub open spec fn file_component(s: Seq<char>) -> Seq<char> {
    let b = base_name(trimmed(s));
    if b == seq!['.'] || b == seq!['.', '.'] {
        Seq::empty()
    } else {
        b
    }
}

fn last_component(s: &str) -> (r: String)
    ensures
        r@ == file_component(s@),
{
    let n = s.unicode_len();
    let mut i: usize = n;
    assert(s@.subrange(0, n as int) =~= s@);
    while i > 0 && (s.get_char(i - 1) == '/' || (i >= 2 && s.get_char(i - 1) == '.' && s.get_char(
        i - 2,
    ) == '/'))
        invariant
            n == s@.len(),
            i <= n,
            trimmed(s@) == trimmed(s@.subrange(0, i as int)),
        decreases i,
    {
        let ghost pre = s@.subrange(0, i as int);
        assert(pre.drop_last() =~= s@.subrange(0, i - 1));
        i = i - 1;
    }
    let t = s.substring_char(0, i);
    assert(trimmed(t@) == t@);
    let b = base_start(t);
    let c = t.substring_char(b, i);
    let k = c.unicode_len();
    if (k == 1 && c.get_char(0) == '.') || (k == 2 && c.get_char(0) == '.' && c.get_char(1) == '.') {
        assert(c@ == seq!['.'] || c@ =~= seq!['.', '.']) by {
            if k == 1 {
                assert(c@ =~= seq!['.']);
            }
        }
        String::new()
    } else {
        assert(c@ != seq!['.'] && c@ != seq!['.', '.']) by {
            if c@ == seq!['.'] {
                assert(c@[0] == '.');
            }
            if c@ == seq!['.', '.'] {
                assert(c@[0] == '.' && c@[1] == '.');
            }
        }
        String::from_str(c)
    }
}

fn stem_of(s: &str) -> (r: String)
    ensures
        r@ == stem(s@),
{
    let n = s.unicode_len();
    let mut i: usize = n;
    assert(s@.subrange(0, n as int) =~= s@);
    while i > 0 && s.get_char(i - 1) != '.'
        invariant
            n == s@.len(),
            i <= n,
            last_dot(s@) == last_dot(s@.subrange(0, i as int)),
        decreases i,
    {
        let ghost pre = s@.subrange(0, i as int);
        assert(pre.drop_last() =~= s@.subrange(0, i - 1));
        i = i - 1;
    }
    proof {
        let pre = s@.subrange(0, i as int);
        if i == 0 {
            assert(pre.len() == 0);
        }
    }
    if i > 1 {
        String::from_str(s.substring_char(0, i - 1))
    } else {
        String::from_str(s)
    }
}

impl File {
    /// The file libclang names `path`.
    pub fn new(path: String) -> (r: File)
        ensures
            r.path_view() == path@,
    {
        File { path }
    }

    pub closed spec fn path_view(&self) -> Seq<char> {
        self.path@
    }

    /// The name with `\` separators turned into `/`.
    pub fn file_name(&self) -> (r: String)
        ensures
            r@ == normalized(self.path_view()),
    {
        let s = self.path.as_str();
        let n = s.unicode_len();
        let mut out = String::new();
        let mut i: usize = 0;
        while i < n
            invariant
                n == s@.len(),
                s@ == self.path@,
                i <= n,
                out@ == normalized(s@.subrange(0, i as int)),
            decreases n - i,
        {
            let c = s.get_char(i);
            push_char(&mut out, if c == '\\' { '/' } else { c });
            assert(out@ =~= normalized(s@.subrange(0, i + 1)));
            i = i + 1;
        }
        assert(s@.subrange(0, n as int) =~= s@);
        out
    }

    /// The stem of the file: its file name without the extension; empty
    /// when the path names no file.
    pub fn name(&self) -> (r: String)
        ensures
            r@ == stem(file_component(normalized(self.path_view()))),
    {
        let full = self.file_name();
        let c = last_component(full.as_str());
        stem_of(c.as_str())
    }

    /// A second `File` for the same name.
    pub fn duplicate(&self) -> (r: File)
        ensures
            r.path_view() == self.path_view(),
    {
        File { path: self.path.clone() }
    }
}

/// A resolved position: file, line, column and offset.
pub type Position = (Option<File>, u32, u32, u32);

/// A place in the source, resolved in two ways: where a macro expansion puts
/// it, and where it is spelled.
pub struct SourceLocation {
    instantiation: (Option<File>, u32, u32, u32),
    spelled: (Option<File>, u32, u32, u32),
}

pub open spec fn file_view(f: Option<File>) -> Option<Seq<char>> {
    match f {
        Some(f) => Some(f.path_view()),
        None => None,
    }
}

fn dup_file(f: &Option<File>) -> (r: Option<File>)
    ensures
        file_view(r) == file_view(*f),
{
    match f {
        Some(f) => Some(f.duplicate()),
        None => None,
    }
}

/// `file:line:column` with the file name of the path, or `(unknown)`.
pub open spec fn short_display(file: Option<Seq<char>>, line: u32, column: u32) -> Seq<char> {
    let shown = match file {
        Some(p) => file_component(normalized(p)),
        None => "(unknown)"@,
    };
    shown + ":"@ + dec(line as nat) + ":"@ + dec(column as nat)
}

impl SourceLocation {
    /// A location from its two resolutions.
    pub fn new(instantiation: Position, spelled: Position) -> (r: SourceLocation)
        ensures
            r.instantiation_file() == file_view(instantiation.0),
            r.instantiation_line() == instantiation.1,
            r.instantiation_column() == instantiation.2,
            r.instantiation_offset() == instantiation.3,
            r.spelled_file() == file_view(spelled.0),
            r.spelled_line() == spelled.1,
            r.spelled_column() == spelled.2,
            r.spelled_offset() == spelled.3,
    {
        SourceLocation { instantiation, spelled }
    }

    pub closed spec fn instantiation_file(&self) -> Option<Seq<char>> {
        file_view(self.instantiation.0)
    }

    pub closed spec fn instantiation_line(&self) -> u32 {
        self.instantiation.1
    }

    pub closed spec fn instantiation_column(&self) -> u32 {
        self.instantiation.2
    }

    pub closed spec fn instantiation_offset(&self) -> u32 {
        self.instantiation.3
    }

    pub closed spec fn spelled_file(&self) -> Option<Seq<char>> {
        file_view(self.spelled.0)
    }

    pub closed spec fn spelled_line(&self) -> u32 {
        self.spelled.1
    }

    pub closed spec fn spelled_column(&self) -> u32 {
        self.spelled.2
    }

    pub closed spec fn spelled_offset(&self) -> u32 {
        self.spelled.3
    }

    /// Where a macro expansion puts the location: file, line, column, offset.
    pub fn instantiation_location(&self) -> (r: Position)
        ensures
            file_view(r.0) == self.instantiation_file(),
            r.1 == self.instantiation_line(),
            r.2 == self.instantiation_column(),
            r.3 == self.instantiation_offset(),
    {
        (dup_file(&self.instantiation.0), self.instantiation.1, self.instantiation.2, self.instantiation.3)
    }

    /// Where the location is spelled: file, line, column, offset.
    pub fn file_location(&self) -> (r: Position)
        ensures
            file_view(r.0) == self.spelled_file(),
            r.1 == self.spelled_line(),
            r.2 == self.spelled_column(),
            r.3 == self.spelled_offset(),
    {
        (dup_file(&self.spelled.0), self.spelled.1, self.spelled.2, self.spelled.3)
    }

    pub fn column(&self) -> (r: u32)
        ensures
            r == self.instantiation_column(),
    {
        self.instantiation.2
    }

    pub fn line(&self) -> (r: u32)
        ensures
            r == self.instantiation_line(),
    {
        self.instantiation.1
    }

    pub fn file(&self) -> (r: Option<File>)
        ensures
            file_view(r) == self.instantiation_file(),
    {
        dup_file(&self.instantiation.0)
    }

    /// `file:line:column` at the instantiation location, with the file name
    /// of its path only.
    pub fn display_short(&self) -> (r: String)
        ensures
            r@ == short_display(self.instantiation_file(), self.instantiation_line(), self.instantiation_column()),
    {
        let mut out = match &self.instantiation.0 {
            Some(f) => {
                let full = f.file_name();
                last_component(full.as_str())
            },
            None => String::from_str("(unknown)"),
        };
        out.append(":");
        push_dec(&mut out, self.instantiation.1 as u64);
        out.append(":");
        push_dec(&mut out, self.instantiation.2 as u64);
        out
    }

    /// A second `SourceLocation` for the same place.
    pub fn duplicate(&self) -> (r: SourceLocation)
        ensures
            same_place(&r, self),
    {
        SourceLocation {
            instantiation: (dup_file(&self.instantiation.0), self.instantiation.1, self.instantiation.2, self.instantiation.3),
            spelled: (dup_file(&self.spelled.0), self.spelled.1, self.spelled.2, self.spelled.3),
        }
    }
}

/// Two locations that resolve alike in both ways.
pub open spec fn same_place(a: &SourceLocation, b: &SourceLocation) -> bool {
    &&& a.instantiation_file() == b.instantiation_file()
    &&& a.instantiation_line() == b.instantiation_line()
    &&& a.instantiation_column() == b.instantiation_column()
    &&& a.instantiation_offset() == b.instantiation_offset()
    &&& a.spelled_file() == b.spelled_file()
    &&& a.spelled_line() == b.spelled_line()
    &&& a.spelled_column() == b.spelled_column()
    &&& a.spelled_offset() == b.spelled_offset()
}

/// The half-open stretch of source between two locations.
pub struct SourceRange {
    pub start: SourceLocation,
    pub end: SourceLocation,
}

impl SourceRange {
    pub fn start(&self) -> (r: SourceLocation)
        ensures
            same_place(&r, &self.start),
    {
        self.start.duplicate()
    }

    pub fn end(&self) -> (r: SourceLocation)
        ensures
            same_place(&r, &self.end),
    {
        self.end.duplicate()
    }
}

/// A preprocessor token: its spelling, its extent (none where libclang
/// reports a null range) and its location.
pub struct Token {
    pub spelling: String,
    pub extent: Option<SourceRange>,
    pub location: SourceLocation,
}

impl Token {
    pub fn spelling(&self) -> (r: String)
        ensures
            r@ == self.spelling@,
    {
        self.spelling.clone()
    }

    pub fn extent(&self) -> (r: Option<SourceRange>)
        ensures
            r is Some <==> self.extent is Some,
            r is Some ==> same_place(&r->0.start, &self.extent->0.start) && same_place(
                &r->0.end,
                &self.extent->0.end,
            ),
    {
        match &self.extent {
            Some(e) => Some(SourceRange { start: e.start.duplicate(), end: e.end.duplicate() }),
            None => None,
        }
    }

    pub fn location(&self) -> (r: SourceLocation)
        ensures
            same_place(&r, &self.location),
    {
        self.location.duplicate()
    }
}

/// The tokens of a stretch of source, in order.
pub struct Tokens {
    toks: Vec<Token>,
}

impl View for Tokens {
    type V = Seq<Token>;

    closed spec fn view(&self) -> Seq<Token> {
        self.toks@
    }
}

impl Tokens {
    pub fn new(toks: Vec<Token>) -> (r: Tokens)
        ensures
            r@ == toks@,
    {
        Tokens { toks }
    }

    /// The token at `index`.
    pub fn at(&self, index: usize) -> (r: &Token)
        requires
            index < self@.len(),
        ensures
            *r == self@[index as int],
    {
        &self.toks[index]
    }

    /// The token at `index`, if there is one.
    pub fn get(&self, index: usize) -> (r: Option<&Token>)
        ensures
            match r {
                Some(t) => index < self@.len() && *t == self@[index as int],
                None => index >= self@.len(),
            },
    {
        if index < self.toks.len() {
            Some(&self.toks[index])
        } else {
            None
        }
    }

    pub fn len(&self) -> (r: usize)
        ensures
            r == self@.len(),
    {
        self.toks.len()
    }

    /// The tokens of a macro definition as the macro processing reads them:
    /// spelling and the columns of the extent. `None` when a token has no
    /// extent.
    pub fn macro_tokens(&self) -> (r: Option<Vec<crate::trans_macros::MacroToken>>)
        ensures
            match r {
                Some(m) => m@.len() == self@.len() && forall|k: int| 0 <= k < m@.len() ==> {
                    let t = #[trigger] self@[k];
                    &&& t.extent is Some
                    &&& m@[k].spelling@ == t.spelling@
                    &&& m@[k].start_column == t.extent->0.start.instantiation_column()
                    &&& m@[k].end_column == t.extent->0.end.instantiation_column()
                },
                None => exists|k: int| 0 <= k < self@.len() && (#[trigger] self@[k]).extent is None,
            },
    {
        let mut out: Vec<crate::trans_macros::MacroToken> = Vec::new();
        let mut i: usize = 0;
        while i < self.toks.len()
            invariant
                i <= self@.len(),
                out@.len() == i,
                forall|k: int| 0 <= k < i ==> {
                    let t = #[trigger] self@[k];
                    &&& t.extent is Some
                    &&& out@[k].spelling@ == t.spelling@
                    &&& out@[k].start_column == t.extent->0.start.instantiation_column()
                    &&& out@[k].end_column == t.extent->0.end.instantiation_column()
                },
            decreases self@.len() - i,
        {
            let t = &self.toks[i];
            match &t.extent {
                Some(e) => {
                    out.push(
                        crate::trans_macros::MacroToken {
                            spelling: t.spelling.clone(),
                            start_column: e.start.column(),
                            end_column: e.end.column(),
                        },
                    );
                },
                None => {
                    assert(self@[i as int].extent is None);
                    return None;
                },
            }
            i = i + 1;
        }
        Some(out)
    }
}

/// A walk over tokens from both ends.
pub struct TokensIter<'a> {
    tokens: &'a Tokens,
    low: usize,
    high: usize,
}

impl<'a> TokensIter<'a> {
    pub closed spec fn source(&self) -> Seq<Token> {
        self.tokens@
    }

    /// The positions not yet handed out: from `low()` up to `high()`.
    pub closed spec fn low(&self) -> int {
        self.low as int
    }

    pub closed spec fn high(&self) -> int {
        self.high as int
    }

    pub open spec fn wf(&self) -> bool {
        0 <= self.low() <= self.high() <= self.source().len()
    }

    pub fn new(tokens: &'a Tokens) -> (r: TokensIter<'a>)
        ensures
            r.wf(),
            r.source() == tokens@,
            r.low() == 0,
            r.high() == tokens@.len(),
    {
        TokensIter { tokens, low: 0, high: tokens.len() }
    }

    /// The next token from the front.
    pub fn next(&mut self) -> (r: Option<&'a Token>)
        requires
            old(self).wf(),
        ensures
            final(self).wf(),
            final(self).source() == old(self).source(),
            final(self).high() == old(self).high(),
            match r {
                Some(t) => old(self).low() < old(self).high() && *t == old(self).source()[old(self).low()]
                    && final(self).low() == old(self).low() + 1,
                None => old(self).low() == old(self).high() && final(self).low() == old(self).low(),
            },
    {
        if self.low >= self.high {
            return None;
        }
        let t = self.tokens.at(self.low);
        self.low = self.low + 1;
        Some(t)
    }

    /// The next token from the back.
    pub fn next_back(&mut self) -> (r: Option<&'a Token>)
        requires
            old(self).wf(),
        ensures
            final(self).wf(),
            final(self).source() == old(self).source(),
            final(self).low() == old(self).low(),
            match r {
                Some(t) => old(self).low() < old(self).high() && *t == old(self).source()[old(self).high() - 1]
                    && final(self).high() == old(self).high() - 1,
                None => old(self).low() == old(self).high() && final(self).high() == old(self).high(),
            },
    {
        if self.low >= self.high {
            return None;
        }
        self.high = self.high - 1;
        Some(self.tokens.at(self.high))
    }

    /// How many tokens are left.
    pub fn len(&self) -> (r: usize)
        requires
            self.wf(),
        ensures
            r == self.high() - self.low(),
    {
        self.high - self.low
    }
}

/// A C type, by its kind.
pub struct Type {
    kind: TypeKind,
}

impl Type {
    pub fn new(kind: TypeKind) -> (r: Type)
        ensures
            r.kind_view() == kind,
    {
        Type { kind }
    }

    pub closed spec fn kind_view(&self) -> TypeKind {
        self.kind
    }

    pub fn kind(&self) -> (r: TypeKind)
        ensures
            r == self.kind_view(),
    {
        self.kind
    }
}

/// A second translation unit for a native handle that is already registered.
#[derive(PartialEq, Eq, Structural, Clone, Copy, Debug)]
pub struct AlreadyRegistered {
    pub handle: u64,
}

/// The registry of live translation units: native handle to the value that
/// stands for the unit (in the driver, a weak reference to it).
pub struct TuRegistry<T> {
    map: HashMap<u64, T>,
}

impl<T> TuRegistry<T> {
    pub closed spec fn entries(&self) -> Map<u64, T> {
        self.map@
    }

    pub fn new() -> (r: TuRegistry<T>)
        ensures
            r.entries() == Map::<u64, T>::empty(),
    {
        TuRegistry { map: HashMap::new() }
    }

    /// Records a new translation unit. A handle is registered once: a second
    /// registration while the first stands is refused and changes nothing.
    pub fn register(&mut self, handle: u64, unit: T) -> (r: Result<(), AlreadyRegistered>)
        ensures
            match r {
                Ok(()) => !old(self).entries().contains_key(handle) && final(self).entries()
                    == old(self).entries().insert(handle, unit),
                Err(e) => e.handle == handle && old(self).entries().contains_key(handle)
                    && final(self).entries() == old(self).entries(),
            },
    {
        broadcast use vstd::std_specs::hash::group_hash_axioms;

        if self.map.contains_key(&handle) {
            return Err(AlreadyRegistered { handle });
        }
        self.map.insert(handle, unit);
        Ok(())
    }

    /// The unit registered under `handle`.
    pub fn lookup(&self, handle: u64) -> (r: Option<&T>)
        ensures
            match r {
                Some(u) => self.entries().contains_key(handle) && *u == self.entries()[handle],
                None => !self.entries().contains_key(handle),
            },
    {
        broadcast use vstd::std_specs::hash::group_hash_axioms;

        self.map.get(&handle)
    }

    /// Removes the unit registered under `handle`, handing it back.
    pub fn unregister(&mut self, handle: u64) -> (r: Option<T>)
        ensures
            final(self).entries() == old(self).entries().remove(handle),
            match r {
                Some(u) => old(self).entries().contains_key(handle) && u == old(self).entries()[handle],
                None => !old(self).entries().contains_key(handle),
            },
    {
        broadcast use vstd::std_specs::hash::group_hash_axioms;

        self.map.remove(&handle)
    }
}

/// A unit is found under its handle from its registration until its
/// removal, whatever else is registered or removed meanwhile.
pub proof fn lemma_registered_unit_found<T>(
    before: Map<u64, T>,
    handle: u64,
    unit: T,
    others_added: Seq<(u64, T)>,
    others_removed: Seq<u64>,
)
    requires
        !before.contains_key(handle),
        forall|k: int| 0 <= k < others_added.len() ==> (#[trigger] others_added[k]).0 != handle,
        forall|k: int| 0 <= k < others_removed.len() ==> #[trigger] others_removed[k] != handle,
    ensures
        ({
            let m = removed_all(inserted_all(before.insert(handle, unit), others_added), others_removed);
            m.contains_key(handle) && m[handle] == unit
        }),
    decreases others_added.len() + others_removed.len(),
{
    if others_removed.len() > 0 {
        lemma_registered_unit_found(before, handle, unit, others_added, others_removed.drop_last());
    } else if others_added.len() > 0 {
        lemma_registered_unit_found(before, handle, unit, others_added.drop_last(), others_removed);
    }
}

/// `m` after the registrations of `adds`, in order.
pub open spec fn inserted_all<T>(m: Map<u64, T>, adds: Seq<(u64, T)>) -> Map<u64, T>
    decreases adds.len(),
{
    if adds.len() == 0 {
        m
    } else {
        inserted_all(m, adds.drop_last()).insert(adds.last().0, adds.last().1)
    }
}

/// `m` after the removals of `handles`, in order.
pub open spec fn removed_all<T>(m: Map<u64, T>, handles: Seq<u64>) -> Map<u64, T>
    decreases handles.len(),
{
    if handles.len() == 0 {
        m
    } else {
        removed_all(m, handles.drop_last()).remove(handles.last())
    }
}

} // verus!
