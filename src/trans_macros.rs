//! Translation of parsed macro bodies into typed constants, and the handling
//! of one macro definition from its tokens to an output item.

use vstd::prelude::*;
use crate::features::Features;
use crate::macro_expr::{
    Expr,
    Node,
    Signed,
    Size,
    UnaryOp,
    expr_of,
    exprs_of,
    lemma_exprs_of,
    digit_run,
    digit_value,
    is_tok,
    literal_base,
    digits_value,
    parse_primary,
    int_literal,
    parse_unary,
    spellings,
    expression,
};
use crate::output::{
    ConflictingDeclaration,
    Entry,
    OutputItems,
    added,
    gate,
    last_key_pos,
    lemma_add_twice,
    lemma_gates,
    lemma_merge_configurations,
};
use crate::text::{dec, digit_char, digits, hex, push_char, push_dec, push_hex, same_text};

verus! {

/// The text of an integer constant and its type.
pub open spec fn int_text(v: u64, sg: Signed, sz: Size) -> (Seq<char>, Seq<char>) {
    match (sg, sz) {
        (Signed::No, Size::Unknown) => (hex(v as nat) + "u32"@, "u32"@),
        (Signed::No, Size::Long) => (hex(v as nat) + "u64"@, "u64"@),
        (Signed::Yes, Size::Unknown) => (hex((v % 0x1_0000_0000) as nat) + "i32"@, "i32"@),
        (Signed::Yes, Size::Long) => (hex(v as nat) + "i64"@, "i64"@),
    }
}

/// The type text of a cast target.
pub open spec fn cast_type_text(name: Seq<char>, ptr: bool) -> Seq<char> {
    if ptr { "*mut "@ + name } else { name }
}

/// The constant that a macro body stands for, as (expression text, type
/// text); `None` where no translation rule applies.
pub open spec fn translate(e: Expr) -> Option<(Seq<char>, Seq<char>)>
    decreases e,
{
    match e {
        Expr::Call(subject, args) => match *subject {
            Expr::Ident(s) => if s == "TEXT"@ && args.len() == 1 {
                translate(args[0])
            } else {
                None
            },
            _ => None,
        },
        Expr::Cast(ty, value) => match *ty {
            Expr::Type(name, ptr) => match translate(*value) {
                Some((v, _)) => Some(
                    (v + " as "@ + cast_type_text(name, ptr), cast_type_text(name, ptr)),
                ),
                None => None,
            },
            _ => None,
        },
        Expr::Integer(v, sg, sz) => Some(int_text(v, sg, sz)),
        Expr::Str(s, _) => Some(("\""@ + s + "\""@, "&'static str"@)),
        Expr::Unary(op, x) => match translate(*x) {
            Some((v, t)) => Some(
                (
                    match op {
                        UnaryOp::Com => "!"@ + v,
                        UnaryOp::Neg => "-"@ + v,
                    },
                    t,
                ),
            ),
            None => None,
        },
        _ => None,
    }
}

fn owned(s: &str) -> (r: String)
    ensures
        r@ == s@,
{
    String::from_str(s)
}

/// Translates a parsed macro body into (expression text, type text) where it
/// is a typed constant.
pub fn try_trans_inty_macro(node: &Node) -> (r: Option<(String, String)>)
    ensures
        match r {
            Some((v, t)) => translate(node@) == Some((v@, t@)),
            None => translate(node@).is_none(),
        },
    decreases node,
{
    proof {
        reveal_with_fuel(expr_of, 2);
    }
    match node {
        Node::Call { subject, args } => match &**subject {
            Node::Ident(s) => {
                proof {
                    lemma_exprs_of(args@);
                }
                if same_text(s.as_str(), "TEXT") && args.len() == 1 {
                    try_trans_inty_macro(&args[0])
                } else {
                    None
                }
            },
            _ => None,
        },
        Node::Cast { ty, value } => match &**ty {
            Node::Type(name, ptr) => match try_trans_inty_macro(value) {
                Some((v, _)) => {
                    let mut t = if *ptr { owned("*mut ") } else { String::new() };
                    t.append(name.as_str());
                    let mut v = v;
                    v.append(" as ");
                    v.append(t.as_str());
                    Some((v, t))
                },
                None => None,
            },
            _ => None,
        },
        Node::Integer(v, sg, sz) => {
            let mut text = String::new();
            let ty = match (sg, sz) {
                (Signed::No, Size::Unknown) => {
                    push_hex(&mut text, *v);
                    "u32"
                },
                (Signed::No, Size::Long) => {
                    push_hex(&mut text, *v);
                    "u64"
                },
                (Signed::Yes, Size::Unknown) => {
                    push_hex(&mut text, *v % 0x1_0000_0000);
                    "i32"
                },
                (Signed::Yes, Size::Long) => {
                    push_hex(&mut text, *v);
                    "i64"
                },
            };
            text.append(ty);
            let ty = owned(ty);
            Some((text, ty))
        },
        Node::String(s, _) => {
            let mut text = owned("\"");
            text.append(s.as_str());
            text.append("\"");
            let ty = owned("&'static str");
            Some((text, ty))
        },
        Node::Unary(op, x) => match try_trans_inty_macro(x) {
            Some((v, t)) => {
                let mut text = match op {
                    UnaryOp::Com => owned("!"),
                    UnaryOp::Neg => owned("-"),
                };
                text.append(v.as_str());
                Some((text, t))
            },
            None => None,
        },
        _ => None,
    }
}

pub open spec fn escaped_char(c: char) -> Seq<char> {
    if c == '"' {
        seq!['\\', '"']
    } else if c == '\\' {
        seq!['\\', '\\']
    } else {
        seq![c]
    }
}

/// `s` with `"` and `\` escaped by a backslash.
pub open spec fn escaped(s: Seq<char>) -> Seq<char>
    decreases s.len(),
{
    if s.len() == 0 {
        Seq::empty()
    } else {
        escaped(s.drop_last()) + escaped_char(s.last())
    }
}

/// `s` in double quotes, escaped.
pub open spec fn quoted(s: Seq<char>) -> Seq<char> {
    "\""@ + escaped(s) + "\""@
}

pub open spec fn bool_text(b: bool) -> Seq<char> {
    if b { "true"@ } else { "false"@ }
}

pub open spec fn signed_text(s: Signed) -> Seq<char> {
    match s {
        Signed::No => "No"@,
        Signed::Yes => "Yes"@,
    }
}

pub open spec fn size_text(s: Size) -> Seq<char> {
    match s {
        Size::Unknown => "Unknown"@,
        Size::Long => "Long"@,
    }
}

pub open spec fn op_text(op: UnaryOp) -> Seq<char> {
    match op {
        UnaryOp::Com => "Com"@,
        UnaryOp::Neg => "Neg"@,
    }
}

/// A readable rendering of a macro body, in the shape of its variants:
/// `Integer(1, Yes, Unknown)`, `Call { subject: Ident("TEXT"), args: [..] }`.
pub open spec fn debug_expr(e: Expr) -> Seq<char>
    decreases e,
{
    match e {
        Expr::Integer(v, sg, sz) => "Integer("@ + dec(v as nat) + ", "@ + signed_text(sg) + ", "@
            + size_text(sz) + ")"@,
        Expr::Str(t, w) => "String("@ + quoted(t) + ", "@ + bool_text(w) + ")"@,
        Expr::Ident(t) => "Ident("@ + quoted(t) + ")"@,
        Expr::Type(t, p) => "Type("@ + quoted(t) + ", "@ + bool_text(p) + ")"@,
        Expr::Call(subject, args) => "Call { subject: "@ + debug_expr(*subject) + ", args: ["@
            + debug_list(args) + "] }"@,
        Expr::Cast(ty, value) => "Cast { ty: "@ + debug_expr(*ty) + ", value: "@ + debug_expr(
            *value,
        ) + " }"@,
        Expr::Unary(op, x) => "Unary("@ + op_text(op) + ", "@ + debug_expr(*x) + ")"@,
    }
}

/// The renderings of `a`, separated by `, `.
pub open spec fn debug_list(a: Seq<Expr>) -> Seq<char>
    decreases a,
{
    if a.len() == 0 {
        Seq::empty()
    } else if a.len() == 1 {
        debug_expr(a[0])
    } else {
        debug_list(a.drop_last()) + ", "@ + debug_expr(a.last())
    }
}

fn push_str(out: &mut String, s: &str)
    ensures
        final(out)@ == old(out)@ + s@,
{
    out.append(s);
}

fn push_quoted(out: &mut String, s: &str)
    ensures
        final(out)@ == old(out)@ + quoted(s@),
{
    let ghost start = out@;
    push_str(out, "\"");
    let n = s.unicode_len();
    let mut i: usize = 0;
    while i < n
        invariant
            n == s@.len(),
            i <= n,
            out@ == start + "\""@ + escaped(s@.subrange(0, i as int)),
        decreases n - i,
    {
        let c = s.get_char(i);
        let ghost before = out@;
        if c == '"' {
            push_char(out, '\\');
            push_char(out, '"');
        } else if c == '\\' {
            push_char(out, '\\');
            push_char(out, '\\');
        } else {
            push_char(out, c);
        }
        assert(out@ =~= before + escaped_char(c));
        assert(s@.subrange(0, i + 1).drop_last() =~= s@.subrange(0, i as int));
        i = i + 1;
    }
    assert(s@.subrange(0, n as int) =~= s@);
    push_str(out, "\"");
    assert(out@ =~= old(out)@ + quoted(s@));
}

fn push_bool(out: &mut String, b: bool)
    ensures
        final(out)@ == old(out)@ + bool_text(b),
{
    if b {
        push_str(out, "true");
    } else {
        push_str(out, "false");
    }
}

/// Appends the rendering of `n` given by `debug_expr`.
pub fn push_debug(out: &mut String, n: &Node)
    ensures
        final(out)@ == old(out)@ + debug_expr(n@),
    decreases n,
{
    proof {
        reveal_with_fuel(expr_of, 2);
    }
    let ghost start = out@;
    match n {
        Node::Integer(v, sg, sz) => {
            push_str(out, "Integer(");
            push_dec(out, *v);
            push_str(out, ", ");
            match sg {
                Signed::No => push_str(out, "No"),
                Signed::Yes => push_str(out, "Yes"),
            }
            push_str(out, ", ");
            match sz {
                Size::Unknown => push_str(out, "Unknown"),
                Size::Long => push_str(out, "Long"),
            }
            push_str(out, ")");
            assert(out@ =~= start + debug_expr(n@));
        },
        Node::String(t, w) => {
            push_str(out, "String(");
            push_quoted(out, t.as_str());
            push_str(out, ", ");
            push_bool(out, *w);
            push_str(out, ")");
            assert(out@ =~= start + debug_expr(n@));
        },
        Node::Ident(t) => {
            push_str(out, "Ident(");
            push_quoted(out, t.as_str());
            push_str(out, ")");
            assert(out@ =~= start + debug_expr(n@));
        },
        Node::Type(t, p) => {
            push_str(out, "Type(");
            push_quoted(out, t.as_str());
            push_str(out, ", ");
            push_bool(out, *p);
            push_str(out, ")");
            assert(out@ =~= start + debug_expr(n@));
        },
        Node::Call { subject, args } => {
            push_str(out, "Call { subject: ");
            push_debug(out, subject);
            push_str(out, ", args: [");
            push_debug_args(out, args);
            push_str(out, "] }");
            assert(out@ =~= start + debug_expr(n@));
        },
        Node::Cast { ty, value } => {
            push_str(out, "Cast { ty: ");
            push_debug(out, ty);
            push_str(out, ", value: ");
            push_debug(out, value);
            push_str(out, " }");
            assert(out@ =~= start + debug_expr(n@));
        },
        Node::Unary(op, x) => {
            push_str(out, "Unary(");
            match op {
                UnaryOp::Com => push_str(out, "Com"),
                UnaryOp::Neg => push_str(out, "Neg"),
            }
            push_str(out, ", ");
            push_debug(out, x);
            push_str(out, ")");
            assert(out@ =~= start + debug_expr(n@));
        },
    }
}

fn push_debug_args(out: &mut String, args: &Vec<Node>)
    ensures
        final(out)@ == old(out)@ + debug_list(exprs_of(args@)),
    decreases args,
{
    proof {
        lemma_exprs_of(args@);
    }
    let ghost a = exprs_of(args@);
    let ghost mid = out@;
    let mut i: usize = 0;
    while i < args.len()
        invariant
            a == exprs_of(args@),
            a.len() == args@.len(),
            forall|k: int| 0 <= k < args@.len() ==> #[trigger] a[k] == expr_of(args@[k]),
            i <= args@.len(),
            out@ == mid + debug_list(a.subrange(0, i as int)),
        decreases args@.len() - i,
    {
        if i > 0 {
            push_str(out, ", ");
        }
        proof {
            assert(decreases_to!(*args => args[i as int])) by {
                broadcast use vstd::std_specs::vec::axiom_vec_index_decreases;
            }
        }
        push_debug(out, &args[i]);
        let ghost pre = a.subrange(0, i as int);
        let ghost next = a.subrange(0, i + 1);
        assert(next.drop_last() =~= pre);
        assert(next.last() == expr_of(args@[i as int]));
        if i == 0 {
            assert(next.len() == 1);
        }
        assert(out@ =~= mid + debug_list(next));
        i = i + 1;
    }
    assert(a.subrange(0, i as int) =~= a);
}

/// A token of a macro definition: its spelling and the columns at which its
/// extent starts and ends (the end column is one past its last character).
pub struct MacroToken {
    pub spelling: String,
    pub start_column: u32,
    pub end_column: u32,
}

/// What the processing of one macro definition reads: its name, the stem of
/// the header it is in, where it is (for the annotation) and the tokens of its
/// extent, name first and a closing framing token last.
pub struct MacroDefinition {
    pub name: String,
    pub header: String,
    pub annotation: String,
    pub tokens: Vec<MacroToken>,
}

/// Why a macro definition gave no constant.
pub enum MacroError {
    /// The body does not match the grammar; where parsing stopped and the
    /// tokens from there on.
    Parse { pos: usize, remaining: Vec<String> },
    /// The body parsed, but tokens are left after the expression.
    Incomplete { pos: usize, remaining: Vec<String> },
    /// The body parsed, but no translation rule applies to it.
    Unsupported,
    /// The output already holds another declaration under this name.
    Conflict(ConflictingDeclaration),
}

/// A macro takes parameters when the token after its name starts right where
/// the name ends.
pub open spec fn is_functionish(toks: Seq<MacroToken>) -> bool {
    toks.len() >= 2 && toks[1].start_column == toks[0].end_column
}

/// The spellings between the name and the framing token.
pub open spec fn inner_spellings(toks: Seq<MacroToken>) -> Seq<Seq<char>> {
    if toks.len() >= 2 {
        toks.subrange(1, toks.len() - 1).map_values(|t: MacroToken| t.spelling@)
    } else {
        Seq::empty()
    }
}

/// The number of tokens before the first `)`.
pub open spec fn before_close(b: Seq<Seq<char>>) -> nat
    decreases b.len(),
{
    if b.len() == 0 || b[0] == seq![')'] {
        0
    } else {
        1 + before_close(b.drop_first())
    }
}

/// Where the parameter list ends: after the first `)` of a functionish macro.
pub open spec fn params_end(toks: Seq<MacroToken>) -> int {
    params_end_of(inner_spellings(toks), is_functionish(toks))
}

/// The parameter list of a macro, as tokens.
pub open spec fn macro_params(toks: Seq<MacroToken>) -> Seq<Seq<char>> {
    inner_spellings(toks).subrange(0, params_end(toks))
}

/// The expansion of a macro, as tokens.
pub open spec fn macro_body(toks: Seq<MacroToken>) -> Seq<Seq<char>> {
    let b = inner_spellings(toks);
    b.subrange(params_end(toks), b.len() as int)
}

/// The tokens written one after the other.
pub open spec fn joined(s: Seq<Seq<char>>) -> Seq<char>
    decreases s.len(),
{
    if s.len() == 0 {
        Seq::empty()
    } else {
        joined(s.drop_last()) + s.last()
    }
}

/// The declaration of a translated constant.
pub open spec fn constant_decl(name: Seq<char>, value: Seq<char>, ty: Seq<char>, e: Expr) -> Seq<char> {
    "pub const "@ + name + ": "@ + ty + " = "@ + value + "; /* "@ + debug_expr(e) + " */"@
}

/// The commented stub of a macro that has no translation.
pub open spec fn stub_decl(name: Seq<char>, params: Seq<Seq<char>>, e: Expr) -> Seq<char> {
    "// #define "@ + name + joined(params) + " "@ + debug_expr(e)
}

/// The tokens separated by single spaces.
pub open spec fn spaced(s: Seq<Seq<char>>) -> Seq<char>
    decreases s.len(),
{
    if s.len() == 0 {
        Seq::empty()
    } else if s.len() == 1 {
        s[0]
    } else {
        spaced(s.drop_last()) + " "@ + s.last()
    }
}

/// The commented stub of a function-like macro whose body does not parse.
pub open spec fn raw_stub_decl(name: Seq<char>, params: Seq<Seq<char>>, body: Seq<Seq<char>>) -> Seq<char> {
    "// #define "@ + name + joined(params) + " "@ + spaced(body)
}

/// What an unsupported macro leaves: a stub when stubs are asked for.
pub open spec fn stub_result(
    es: Seq<Entry>,
    name: Seq<char>,
    header: Seq<char>,
    annot: Seq<char>,
    features: Seq<Seq<char>>,
    emit_stubs: bool,
    stub: Seq<char>,
) -> (Seq<Entry>, MacroOutcome) {
    if emit_stubs {
        match added(es, name, header, features, stub, annot) {
            Some(m) => (m, MacroOutcome::Unsupported),
            None => (es, MacroOutcome::Conflict),
        }
    } else {
        (es, MacroOutcome::Unsupported)
    }
}

/// How the processing of a macro definition ends.
pub enum MacroOutcome {
    Done,
    ParseFailed,
    Incomplete,
    Unsupported,
    Conflict,
}

pub open spec fn outcome_of(r: Result<(), MacroError>) -> MacroOutcome {
    match r {
        Ok(()) => MacroOutcome::Done,
        Err(MacroError::Parse { .. }) => MacroOutcome::ParseFailed,
        Err(MacroError::Incomplete { .. }) => MacroOutcome::Incomplete,
        Err(MacroError::Unsupported) => MacroOutcome::Unsupported,
        Err(MacroError::Conflict(_)) => MacroOutcome::Conflict,
    }
}

/// The collection after processing a macro definition, and how it ended.
pub open spec fn macro_result(
    es: Seq<Entry>,
    name: Seq<char>,
    header: Seq<char>,
    annot: Seq<char>,
    toks: Seq<MacroToken>,
    features: Seq<Seq<char>>,
    emit_stubs: bool,
) -> (Seq<Entry>, MacroOutcome) {
    let body = macro_body(toks);
    if body.len() == 0 {
        (es, MacroOutcome::Done)
    } else if is_functionish(toks) {
        let stub = match parse_unary(body, 0) {
            Ok((e, j)) => if j == body.len() {
                stub_decl(name, macro_params(toks), e)
            } else {
                raw_stub_decl(name, macro_params(toks), body)
            },
            Err(_) => raw_stub_decl(name, macro_params(toks), body),
        };
        stub_result(es, name, header, annot, features, emit_stubs, stub)
    } else {
        match parse_unary(body, 0) {
            Err(_) => (es, MacroOutcome::ParseFailed),
            Ok((e, j)) => if j != body.len() {
                (es, MacroOutcome::Incomplete)
            } else {
                match translate(e) {
                    Some((v, t)) => match added(
                        es,
                        name,
                        header,
                        features,
                        constant_decl(name, v, t, e),
                        annot,
                    ) {
                        Some(m) => (m, MacroOutcome::Done),
                        None => (es, MacroOutcome::Conflict),
                    },
                    None => stub_result(
                        es,
                        name,
                        header,
                        annot,
                        features,
                        emit_stubs,
                        stub_decl(name, macro_params(toks), e),
                    ),
                }
            },
        }
    }
}

/// Whether a macro takes parameters, by the columns of its first two tokens.
pub fn is_function_like(toks: &Vec<MacroToken>) -> (r: bool)
    ensures
        r == is_functionish(toks@),
{
    toks.len() >= 2 && toks[1].start_column == toks[0].end_column
}

fn inner_tokens(toks: &Vec<MacroToken>) -> (r: Vec<String>)
    ensures
        spellings(r@) == inner_spellings(toks@),
{
    let mut r: Vec<String> = Vec::new();
    if toks.len() < 2 {
        assert(spellings(r@) =~= inner_spellings(toks@));
        return r;
    }
    let ghost want = inner_spellings(toks@);
    let mut i: usize = 1;
    while i < toks.len() - 1
        invariant
            toks@.len() >= 2,
            want == inner_spellings(toks@),
            1 <= i <= toks@.len() - 1,
            r@.len() == i - 1,
            forall|k: int| 0 <= k < i - 1 ==> #[trigger] r@[k]@ == want[k],
        decreases toks@.len() - 1 - i,
    {
        r.push(toks[i].spelling.clone());
        i = i + 1;
    }
    assert(spellings(r@) =~= want);
    r
}

fn tail(v: &Vec<String>, from: usize) -> (r: Vec<String>)
    requires
        from <= v@.len(),
    ensures
        spellings(r@) == spellings(v@).subrange(from as int, v@.len() as int),
{
    let mut r: Vec<String> = Vec::new();
    let mut i: usize = from;
    while i < v.len()
        invariant
            from <= i <= v@.len(),
            r@.len() == i - from,
            forall|k: int| 0 <= k < i - from ==> #[trigger] r@[k]@ == v@[from + k]@,
        decreases v@.len() - i,
    {
        r.push(v[i].clone());
        i = i + 1;
    }
    assert(spellings(r@) =~= spellings(v@).subrange(from as int, v@.len() as int));
    r
}

fn split_params(inner: &Vec<String>, functionish: bool) -> (r: usize)
    ensures
        r == params_end_of(spellings(inner@), functionish),
{
    if !functionish {
        return 0;
    }
    let ghost b = spellings(inner@);
    assert(b.subrange(0, b.len() as int) =~= b);
    let mut i: usize = 0;
    while i < inner.len() && !crate::macro_expr::is_punct(inner[i].as_str(), ')')
        invariant
            b == spellings(inner@),
            i <= b.len(),
            before_close(b) == i + before_close(b.subrange(i as int, b.len() as int)),
        decreases b.len() - i,
    {
        let ghost rest = b.subrange(i as int, b.len() as int);
        assert(rest.drop_first() =~= b.subrange(i + 1, b.len() as int));
        assert(rest[0] == inner@[i as int]@);
        i = i + 1;
    }
    proof {
        let rest = b.subrange(i as int, b.len() as int);
        if i < b.len() {
            assert(rest[0] == inner@[i as int]@);
        }
        assert(before_close(rest) == 0);
    }
    if i < inner.len() {
        i + 1
    } else {
        i
    }
}

/// `params_end` over the spellings alone.
pub open spec fn params_end_of(b: Seq<Seq<char>>, functionish: bool) -> int {
    if !functionish {
        0
    } else if before_close(b) < b.len() {
        before_close(b) + 1int
    } else {
        b.len() as int
    }
}

fn push_joined(out: &mut String, parts: &Vec<String>, upto: usize)
    requires
        upto <= parts@.len(),
    ensures
        final(out)@ == old(out)@ + joined(spellings(parts@).subrange(0, upto as int)),
{
    let ghost start = out@;
    let ghost b = spellings(parts@);
    let mut i: usize = 0;
    while i < upto
        invariant
            upto <= parts@.len(),
            b == spellings(parts@),
            i <= upto,
            out@ == start + joined(b.subrange(0, i as int)),
        decreases upto - i,
    {
        out.append(parts[i].as_str());
        let ghost next = b.subrange(0, i + 1);
        assert(next.drop_last() =~= b.subrange(0, i as int));
        assert(out@ =~= start + joined(next));
        i = i + 1;
    }
}

fn add_stub(
    defn: &MacroDefinition,
    output: &mut OutputItems,
    feat: &Features,
    emit_stubs: bool,
    stub: String,
) -> (r: Result<(), MacroError>)
    requires
        old(output).wf(),
        feat.wf(),
    ensures
        final(output).wf(),
        stub_result(
            old(output)@,
            defn.name@,
            defn.header@,
            defn.annotation@,
            feat@,
            emit_stubs,
            stub@,
        ) == (final(output)@, outcome_of(r)),
        r is Err,
        !(r matches Err(MacroError::Parse { .. })),
        !(r matches Err(MacroError::Incomplete { .. })),
{
    if emit_stubs {
        match output.add_header_item(
            defn.name.clone(),
            defn.header.clone(),
            feat.duplicate(),
            stub,
            defn.annotation.clone(),
        ) {
            Ok(()) => Err(MacroError::Unsupported),
            Err(c) => Err(MacroError::Conflict(c)),
        }
    } else {
        Err(MacroError::Unsupported)
    }
}

fn raw_stub(
    defn: &MacroDefinition,
    output: &mut OutputItems,
    feat: &Features,
    emit_stubs: bool,
    inner: &Vec<String>,
    split: usize,
    body: &Vec<String>,
) -> (r: Result<(), MacroError>)
    requires
        old(output).wf(),
        feat.wf(),
        split <= inner@.len(),
        spellings(inner@).subrange(0, split as int) == macro_params(defn.tokens@),
        spellings(body@) == macro_body(defn.tokens@),
    ensures
        final(output).wf(),
        stub_result(
            old(output)@,
            defn.name@,
            defn.header@,
            defn.annotation@,
            feat@,
            emit_stubs,
            raw_stub_decl(defn.name@, macro_params(defn.tokens@), macro_body(defn.tokens@)),
        ) == (final(output)@, outcome_of(r)),
        r is Err,
        !(r matches Err(MacroError::Parse { .. })),
        !(r matches Err(MacroError::Incomplete { .. })),
{
    let mut decl = String::from_str("// #define ");
    decl.append(defn.name.as_str());
    push_joined(&mut decl, inner, split);
    decl.append(" ");
    let ghost start = decl@;
    let ghost b = spellings(body@);
    let mut i: usize = 0;
    while i < body.len()
        invariant
            b == spellings(body@),
            i <= b.len(),
            decl@ == start + spaced(b.subrange(0, i as int)),
        decreases b.len() - i,
    {
        if i > 0 {
            decl.append(" ");
        }
        decl.append(body[i].as_str());
        let ghost next = b.subrange(0, i + 1);
        assert(next.drop_last() =~= b.subrange(0, i as int));
        if i == 0 {
            assert(next.len() == 1);
        }
        assert(decl@ =~= start + spaced(next));
        i = i + 1;
    }
    assert(b.subrange(0, i as int) =~= b);
    assert(decl@ =~= raw_stub_decl(defn.name@, macro_params(defn.tokens@), macro_body(defn.tokens@)));
    add_stub(defn, output, feat, emit_stubs, decl)
}

fn node_stub(
    defn: &MacroDefinition,
    output: &mut OutputItems,
    feat: &Features,
    emit_stubs: bool,
    inner: &Vec<String>,
    split: usize,
    node: &Node,
) -> (r: Result<(), MacroError>)
    requires
        old(output).wf(),
        feat.wf(),
        split <= inner@.len(),
        spellings(inner@).subrange(0, split as int) == macro_params(defn.tokens@),
    ensures
        final(output).wf(),
        stub_result(
            old(output)@,
            defn.name@,
            defn.header@,
            defn.annotation@,
            feat@,
            emit_stubs,
            stub_decl(defn.name@, macro_params(defn.tokens@), node@),
        ) == (final(output)@, outcome_of(r)),
        r is Err,
        !(r matches Err(MacroError::Parse { .. })),
        !(r matches Err(MacroError::Incomplete { .. })),
{
    let mut decl = String::from_str("// #define ");
    decl.append(defn.name.as_str());
    push_joined(&mut decl, inner, split);
    decl.append(" ");
    push_debug(&mut decl, node);
    assert(decl@ =~= stub_decl(defn.name@, macro_params(defn.tokens@), node@));
    add_stub(defn, output, feat, emit_stubs, decl)
}

/// Processes one macro definition. An empty body gives nothing and
/// succeeds. A function-like macro never becomes a constant: it is
/// unsupported, and leaves a commented stub when `emit_stubs` holds. An
/// object-like body that translates to a typed constant becomes
/// `pub const NAME: TYPE = VALUE;` in the output, under the header, name and
/// tags given; one outside the grammar is a parse error, naming where parsing
/// stopped; one that parses without a translation is unsupported, with a stub
/// when `emit_stubs` holds.
pub fn process_macro_defn(
    defn: &MacroDefinition,
    output: &mut OutputItems,
    feat: &Features,
    emit_stubs: bool,
) -> (r: Result<(), MacroError>)
    requires
        old(output).wf(),
        feat.wf(),
    ensures
        final(output).wf(),
        macro_result(
            old(output)@,
            defn.name@,
            defn.header@,
            defn.annotation@,
            defn.tokens@,
            feat@,
            emit_stubs,
        ) == (final(output)@, outcome_of(r)),
        match r {
            Err(MacroError::Incomplete { pos, remaining }) => {
                let body = macro_body(defn.tokens@);
                &&& parse_unary(body, 0) matches Ok((_, j)) && j == pos
                &&& pos < body.len()
                &&& spellings(remaining@) == body.subrange(pos as int, body.len() as int)
            },
            Err(MacroError::Parse { pos, remaining }) => {
                let body = macro_body(defn.tokens@);
                &&& parse_unary(body, 0) == Err::<(Expr, int), int>(pos as int)
                &&& pos <= body.len()
                &&& spellings(remaining@) == body.subrange(pos as int, body.len() as int)
            },
            _ => true,
        },
{
    let functionish = is_function_like(&defn.tokens);
    let inner = inner_tokens(&defn.tokens);
    let split = split_params(&inner, functionish);
    let body = tail(&inner, split);
    assert(spellings(body@) == macro_body(defn.tokens@));
    assert(spellings(inner@).subrange(0, split as int) == macro_params(defn.tokens@));
    if body.len() == 0 {
        return Ok(());
    }
    let parsed = expression(&body);
    if functionish {
        match parsed {
            Ok((node, used)) => {
                if used == body.len() {
                    return node_stub(defn, output, feat, emit_stubs, &inner, split, &node);
                }
            },
            Err(_) => {},
        }
        return raw_stub(defn, output, feat, emit_stubs, &inner, split, &body);
    }
    let (node, used) = match parsed {
        Ok(found) => found,
        Err(m) => {
            let remaining = tail(&body, m.pos);
            return Err(MacroError::Parse { pos: m.pos, remaining });
        },
    };
    if used != body.len() {
        proof {
            crate::macro_expr::lemma_parse_unary_bounds(spellings(body@), 0);
        }
        let remaining = tail(&body, used);
        return Err(MacroError::Incomplete { pos: used, remaining });
    }
    let name = defn.name.as_str();
    match try_trans_inty_macro(&node) {
        Some((v, t)) => {
            let mut decl = String::from_str("pub const ");
            decl.append(name);
            decl.append(": ");
            decl.append(t.as_str());
            decl.append(" = ");
            decl.append(v.as_str());
            decl.append("; /* ");
            push_debug(&mut decl, &node);
            decl.append(" */");
            assert(decl@ =~= constant_decl(defn.name@, v@, t@, node@));
            match output.add_header_item(
                defn.name.clone(),
                defn.header.clone(),
                feat.duplicate(),
                decl,
                defn.annotation.clone(),
            ) {
                Ok(()) => Ok(()),
                Err(c) => Err(MacroError::Conflict(c)),
            }
        },
        None => node_stub(defn, output, feat, emit_stubs, &inner, split, &node),
    }
}

/// What the type suffix of an emitted integer constant says.
pub open spec fn emitted_kind(suffix: Seq<char>) -> Option<(Signed, Size)> {
    if suffix == "u32"@ {
        Some((Signed::No, Size::Unknown))
    } else if suffix == "u64"@ {
        Some((Signed::No, Size::Long))
    } else if suffix == "i32"@ {
        Some((Signed::Yes, Size::Unknown))
    } else if suffix == "i64"@ {
        Some((Signed::Yes, Size::Long))
    } else {
        None
    }
}

/// Reads an emitted integer constant: hexadecimal digits, then a three-letter
/// type suffix.
pub open spec fn emitted_int(text: Seq<char>) -> Option<(nat, Signed, Size)> {
    if text.len() < 4 {
        None
    } else {
        let ds = text.subrange(0, text.len() - 3);
        match emitted_kind(text.subrange(text.len() - 3, text.len() as int)) {
            Some((sg, sz)) => if forall|k: int| 0 <= k < ds.len() ==> digit_value(#[trigger] ds[k]) < 16 {
                Some((digits_value(ds, 16), sg, sz))
            } else {
                None
            },
            None => None,
        }
    }
}

proof fn lemma_digit_char(d: nat)
    requires
        d < 16,
    ensures
        digit_value(digit_char(d)) == d,
{
}

/// Reading the digits of `v` in base `b` gives `v` back; each is a digit of
/// that base.
pub proof fn lemma_digits_round_trip(v: nat, b: nat)
    requires
        2 <= b <= 16,
    ensures
        digits(v, b).len() >= 1,
        digits_value(digits(v, b), b) == v,
        forall|k: int| 0 <= k < digits(v, b).len() ==> digit_value(#[trigger] digits(v, b)[k]) < b,
    decreases v,
{
    if v < b {
        lemma_digit_char(v);
        assert(v % 16 == v);
        assert(digits(v, b) == seq![digit_char(v % 16)]);
        assert(digits(v, b).drop_last() =~= Seq::<char>::empty());
        assert(digits_value(Seq::<char>::empty(), b) == 0);
        assert(digits_value(digits(v, b), b) == 0 * b + digit_value(digit_char(v)));
    } else {
        assert(v / b < v) by (nonlinear_arith)
            requires
                b >= 2,
                v >= b,
        ;
        lemma_digits_round_trip(v / b, b);
        assert(v % b < b) by (nonlinear_arith)
            requires
                b >= 2,
        ;
        lemma_digit_char(v % b);
        let h = digits(v / b, b);
        assert(digits(v, b) == h.push(digit_char(v % b)));
        assert(digits(v, b).drop_last() =~= h);
        assert(forall|k: int| 0 <= k < h.len() ==> digits(v, b)[k] == h[k]);
        assert(digits_value(digits(v, b), b) == digits_value(h, b) * b + digit_value(digit_char(v % b)));
        assert((v / b) * b + v % b == v) by (nonlinear_arith)
            requires
                b >= 2,
        ;
    }
}

/// Emitting an integer literal and reading the constant back gives the
/// literal's value, signedness and size. A signed literal of unknown size is
/// written in 32 bits, so its value must fit in them.
pub proof fn lemma_int_round_trip(s: Seq<char>)
    requires
        int_literal(s) is Some,
        int_literal(s).unwrap().1 == Signed::Yes && int_literal(s).unwrap().2 == Size::Unknown ==> int_literal(
            s,
        ).unwrap().0 < 0x1_0000_0000,
    ensures
        ({
            let (v, sg, sz) = int_literal(s)->0;
            &&& parse_unary(seq![s], 0) == Ok::<(Expr, int), int>((Expr::Integer(v, sg, sz), 1int))
            &&& translate(Expr::Integer(v, sg, sz)) is Some
            &&& emitted_int(translate(Expr::Integer(v, sg, sz)).unwrap().0) == Some((v as nat, sg, sz))
        }),
{
    let (v, sg, sz) = int_literal(s)->0;
    let t = seq![s];
    assert(!is_tok(t, 0, '~') && !is_tok(t, 0, '-') && !is_tok(t, 0, '(')) by {
        if t[0] == seq!['~'] || t[0] == seq!['-'] || t[0] == seq!['('] {
            assert(literal_base(s) == (0int, 10nat));
            assert(digit_run(s, 0, 10) == 0);
        }
    }
    reveal_strlit("u32");
    reveal_strlit("u64");
    reveal_strlit("i32");
    reveal_strlit("i64");
    let w: nat = if sg == Signed::Yes && sz == Size::Unknown { (v % 0x1_0000_0000) as nat } else { v as nat };
    assert(w == v as nat);
    lemma_digits_round_trip(w, 16);
    assert(parse_primary(t, 0) == Ok::<(Expr, int), int>((Expr::Integer(v, sg, sz), 1int)));
    assert(parse_unary(t, 0) == Ok::<(Expr, int), int>((Expr::Integer(v, sg, sz), 1int)));
    let (text, _) = int_text(v, sg, sz);
    let h = hex(w);
    let suffix = text.subrange(text.len() - 3, text.len() as int);
    assert(text.subrange(0, text.len() - 3) =~= h);
    assert(translate(Expr::Integer(v, sg, sz)) == Some(int_text(v, sg, sz)));
    assert("u32"@[0] == 'u' && "u32"@[1] == '3');
    assert("u64"@[0] == 'u' && "u64"@[1] == '6');
    assert("i32"@[0] == 'i' && "i32"@[1] == '3');
    assert("i64"@[0] == 'i' && "i64"@[1] == '6');
    match (sg, sz) {
        (Signed::No, Size::Unknown) => {
            assert(suffix =~= "u32"@);
        },
        (Signed::No, Size::Long) => {
            assert(suffix =~= "u64"@);
        },
        (Signed::Yes, Size::Unknown) => {
            assert(suffix =~= "i32"@);
        },
        (Signed::Yes, Size::Long) => {
            assert(suffix =~= "i64"@);
        },
    }
    assert(emitted_kind(suffix) == Some((sg, sz)));
    assert(emitted_int(text) == Some((v as nat, sg, sz)));
}

/// The first token after the name starting where the name ends makes a
/// macro function-like; a gap of one column makes it object-like.
pub proof fn lemma_functionish_by_columns(toks: Seq<MacroToken>)
    requires
        toks.len() >= 2,
    ensures
        toks[1].start_column == toks[0].end_column ==> is_functionish(toks),
        toks[1].start_column == toks[0].end_column + 1 ==> !is_functionish(toks),
{
}

/// A macro whose body is empty leaves the output as it is and succeeds.
pub proof fn lemma_empty_body(
    es: Seq<Entry>,
    name: Seq<char>,
    header: Seq<char>,
    annot: Seq<char>,
    toks: Seq<MacroToken>,
    features: Seq<Seq<char>>,
    emit_stubs: bool,
)
    requires
        macro_body(toks).len() == 0,
    ensures
        macro_result(es, name, header, annot, toks, features, emit_stubs) == (es, MacroOutcome::Done),
{
}

/// The constant a macro definition's tokens stand for: `None` unless the
/// macro is object-like and its whole body translates.
pub open spec fn macro_constant(name: Seq<char>, toks: Seq<MacroToken>) -> Option<Seq<char>> {
    let body = macro_body(toks);
    if body.len() == 0 || is_functionish(toks) {
        None
    } else {
        match parse_unary(body, 0) {
            Ok((e, j)) => if j == body.len() {
                match translate(e) {
                    Some((v, t)) => Some(constant_decl(name, v, t, e)),
                    None => None,
                }
            } else {
                None
            },
            Err(_) => None,
        }
    }
}

/// A function-like macro with a body never becomes a constant: it is
/// unsupported, leaving the output as it was unless a stub is asked for, and
/// then adding only the stub (or refusing it on a conflict).
pub proof fn lemma_functionish_never_constant(
    es: Seq<Entry>,
    name: Seq<char>,
    header: Seq<char>,
    annot: Seq<char>,
    toks: Seq<MacroToken>,
    features: Seq<Seq<char>>,
    emit_stubs: bool,
)
    requires
        is_functionish(toks),
        macro_body(toks).len() > 0,
    ensures
        ({
            let (m, o) = macro_result(es, name, header, annot, toks, features, emit_stubs);
            &&& o == MacroOutcome::Unsupported || o == MacroOutcome::Conflict
            &&& !emit_stubs ==> m == es && o == MacroOutcome::Unsupported
            &&& o == MacroOutcome::Conflict ==> m == es
            &&& emit_stubs && o == MacroOutcome::Unsupported ==> exists|stub: Seq<char>|
                added(es, name, header, features, stub, annot) == Some(m)
        }),
{
}

/// Processing the same object-like constant twice, under the same tags and
/// where its header and name were new, gives one item whose set of tags is
/// the one given; both calls succeed.
pub proof fn lemma_macro_twice(
    es: Seq<Entry>,
    name: Seq<char>,
    header: Seq<char>,
    toks: Seq<MacroToken>,
    features: Seq<Seq<char>>,
    a1: Seq<char>,
    a2: Seq<char>,
    emit_stubs: bool,
)
    requires
        macro_constant(name, toks) is Some,
        features.no_duplicates(),
        last_key_pos(es, header, name) < 0,
    ensures
        ({
            let (m1, o1) = macro_result(es, name, header, a1, toks, features, emit_stubs);
            let (m2, o2) = macro_result(m1, name, header, a2, toks, features, emit_stubs);
            &&& o1 == MacroOutcome::Done
            &&& o2 == MacroOutcome::Done
            &&& m2.len() == es.len() + 1
            &&& m2.subrange(0, es.len() as int) == es
            &&& m2.last().name == name
            &&& m2.last().decl == macro_constant(name, toks).unwrap()
            &&& m2.last().features.to_set() == features.to_set()
        }),
{
    lemma_add_twice(es, name, header, features, macro_constant(name, toks).unwrap(), a1, a2);
}

/// The same constant observed under tag `a` and then under another tag `b`
/// is one item gated on both, `a` first; observed under `a` alone, it is
/// gated on `a` alone.
pub proof fn lemma_macro_configurations(
    es: Seq<Entry>,
    name: Seq<char>,
    header: Seq<char>,
    toks: Seq<MacroToken>,
    a: Seq<char>,
    b: Seq<char>,
    a1: Seq<char>,
    a2: Seq<char>,
    emit_stubs: bool,
)
    requires
        macro_constant(name, toks) is Some,
        a != b,
        last_key_pos(es, header, name) < 0,
    ensures
        ({
            let (m1, o1) = macro_result(es, name, header, a1, toks, seq![a], emit_stubs);
            let (m2, o2) = macro_result(m1, name, header, a2, toks, seq![b], emit_stubs);
            &&& o1 == MacroOutcome::Done
            &&& m1.last().features == seq![a]
            &&& gate(m1.last().features) == "#[cfg("@ + "feature=\""@ + a + "\""@ + ")] "@
            &&& o2 == MacroOutcome::Done
            &&& m2.len() == es.len() + 1
            &&& m2.last().features == seq![a, b]
            &&& m2.last().decl == macro_constant(name, toks).unwrap()
        }),
{
    let d = macro_constant(name, toks).unwrap();
    lemma_merge_configurations(es, name, header, d, a, b, a1, a2);
    lemma_gates(a, b);
    crate::output::lemma_first_add(es, name, header, seq![a], d, a1);
}

} // verus!
