//! Expressions of `#define` bodies: the tree, integer and string literals,
//! and a parser over token spellings.

use vstd::prelude::*;

verus! {

/// Whether an integer literal carries an unsigned suffix.
#[derive(PartialEq, Eq, Structural, Clone, Copy, Debug)]
pub enum Signed {
    No,
    Yes,
}

/// Whether an integer literal carries a long suffix.
#[derive(PartialEq, Eq, Structural, Clone, Copy, Debug)]
pub enum Size {
    Unknown,
    Long,
}

/// The prefix operators of the accepted grammar.
#[derive(PartialEq, Eq, Structural, Clone, Copy, Debug)]
pub enum UnaryOp {
    /// `~`
    Com,
    /// `-`
    Neg,
}

/// A parsed macro body.
#[derive(Debug)]
pub enum Node {
    Integer(u64, Signed, Size),
    String(String, bool),
    Ident(String),
    Type(String, bool),
    Call { subject: Box<Node>, args: Vec<Node> },
    Cast { ty: Box<Node>, value: Box<Node> },
    Unary(UnaryOp, Box<Node>),
}

/// The mathematical value of a `Node`.
pub enum Expr {
    Integer(u64, Signed, Size),
    Str(Seq<char>, bool),
    Ident(Seq<char>),
    Type(Seq<char>, bool),
    Call(Box<Expr>, Seq<Expr>),
    Cast(Box<Expr>, Box<Expr>),
    Unary(UnaryOp, Box<Expr>),
}

pub open spec fn expr_of(n: Node) -> Expr
    decreases n,
{
    match n {
        Node::Integer(v, s, z) => Expr::Integer(v, s, z),
        Node::String(t, w) => Expr::Str(t@, w),
        Node::Ident(t) => Expr::Ident(t@),
        Node::Type(t, p) => Expr::Type(t@, p),
        Node::Call { subject, args } => Expr::Call(Box::new(expr_of(*subject)), exprs_of(args@)),
        Node::Cast { ty, value } => Expr::Cast(Box::new(expr_of(*ty)), Box::new(expr_of(*value))),
        Node::Unary(op, e) => Expr::Unary(op, Box::new(expr_of(*e))),
    }
}

pub open spec fn exprs_of(s: Seq<Node>) -> Seq<Expr>
    decreases s,
{
    if s.len() == 0 {
        Seq::empty()
    } else {
        seq![expr_of(s[0])] + exprs_of(s.drop_first())
    }
}

/// `exprs_of` keeps the length and maps each element.
pub proof fn lemma_exprs_of(s: Seq<Node>)
    ensures
        exprs_of(s).len() == s.len(),
        forall|k: int| 0 <= k < s.len() ==> #[trigger] exprs_of(s)[k] == expr_of(s[k]),
    decreases s.len(),
{
    if s.len() > 0 {
        lemma_exprs_of(s.drop_first());
        assert forall|k: int| 0 <= k < s.len() implies #[trigger] exprs_of(s)[k] == expr_of(
            s[k],
        ) by {
            if k > 0 {
                assert(s.drop_first()[k - 1] == s[k]);
            }
        }
    }
}

impl View for Node {
    type V = Expr;

    open spec fn view(&self) -> Expr {
        expr_of(*self)
    }
}


/// The value of `c` as a digit (`0`-`9`, `a`-`f`, `A`-`F`); 16 for anything else.
pub open spec fn digit_value(c: char) -> nat {
    if '0' <= c && c <= '9' {
        (c as nat - '0' as nat) as nat
    } else if 'a' <= c && c <= 'f' {
        (c as nat - 'a' as nat + 10) as nat
    } else if 'A' <= c && c <= 'F' {
        (c as nat - 'A' as nat + 10) as nat
    } else {
        16
    }
}

/// The number written by the digits `s` in base `b`.
pub open spec fn digits_value(s: Seq<char>, b: nat) -> nat
    decreases s.len(),
{
    if s.len() == 0 {
        0
    } else {
        digits_value(s.drop_last(), b) * b + digit_value(s.last())
    }
}

/// How many characters from `i` on are digits of base `b`.
pub open spec fn digit_run(s: Seq<char>, i: int, b: nat) -> nat
    decreases s.len() - i,
{
    if 0 <= i < s.len() && digit_value(s[i]) < b {
        1 + digit_run(s, i + 1, b)
    } else {
        0
    }
}

pub open spec fn is_unsigned_mark(c: char) -> bool {
    c == 'u' || c == 'U'
}

/// `l`, `L`, `ll` or `LL`.
pub open spec fn is_long_mark(s: Seq<char>) -> bool {
    s == seq!['l'] || s == seq!['L'] || s == seq!['l', 'l'] || s == seq!['L', 'L']
}

/// What an integer suffix selects: `U` makes the literal unsigned, `L` or
/// `LL` long, in either order.
pub open spec fn suffix_kind(s: Seq<char>) -> Option<(Signed, Size)> {
    if s.len() == 0 {
        Some((Signed::Yes, Size::Unknown))
    } else if s.len() == 1 && is_unsigned_mark(s[0]) {
        Some((Signed::No, Size::Unknown))
    } else if is_long_mark(s) {
        Some((Signed::Yes, Size::Long))
    } else if is_unsigned_mark(s[0]) && is_long_mark(s.drop_first()) {
        Some((Signed::No, Size::Long))
    } else if is_unsigned_mark(s.last()) && is_long_mark(s.drop_last()) {
        Some((Signed::No, Size::Long))
    } else {
        None
    }
}

/// Where the digits of an integer literal start, and their base: `0x` or `0X`
/// gives hexadecimal, a leading `0` before another digit octal, else decimal.
pub open spec fn literal_base(s: Seq<char>) -> (int, nat) {
    if s.len() >= 2 && s[0] == '0' && (s[1] == 'x' || s[1] == 'X') {
        (2, 16)
    } else if s.len() >= 2 && s[0] == '0' && digit_value(s[1]) < 10 {
        (1, 8)
    } else {
        (0, 10)
    }
}

/// The integer literal `s`: its value and what its suffix selects. `None`
/// when `s` is no integer literal or its value does not fit in 64 bits.
pub open spec fn int_literal(s: Seq<char>) -> Option<(u64, Signed, Size)> {
    let (start, b) = literal_base(s);
    let end = start + digit_run(s, start, b);
    if end == start {
        None
    } else if digits_value(s.subrange(start, end), b) > u64::MAX {
        None
    } else {
        match suffix_kind(s.subrange(end, s.len() as int)) {
            Some((sg, sz)) => Some((digits_value(s.subrange(start, end), b) as u64, sg, sz)),
            None => None,
        }
    }
}

pub proof fn lemma_digit_run_bound(s: Seq<char>, i: int, b: nat)
    requires
        0 <= i <= s.len(),
    ensures
        i + digit_run(s, i, b) <= s.len(),
        forall|k: int| i <= k < i + digit_run(s, i, b) ==> digit_value(#[trigger] s[k]) < b,
        i + digit_run(s, i, b) < s.len() ==> digit_value(s[i + digit_run(s, i, b)]) >= b,
    decreases s.len() - i,
{
    if i < s.len() && digit_value(s[i]) < b {
        lemma_digit_run_bound(s, i + 1, b);
    }
}

proof fn lemma_digits_value_mono(s: Seq<char>, n: int, b: nat)
    requires
        0 <= n <= s.len(),
        b >= 1,
    ensures
        digits_value(s.subrange(0, n), b) <= digits_value(s, b),
    decreases s.len() - n,
{
    if n < s.len() {
        lemma_digits_value_mono(s, n + 1, b);
        let t = s.subrange(0, n + 1);
        assert(t.drop_last() =~= s.subrange(0, n));
        let v = digits_value(s.subrange(0, n), b);
        assert(v * b >= v) by (nonlinear_arith)
            requires
                b >= 1,
        ;
    } else {
        assert(s.subrange(0, n) =~= s);
    }
}

fn digit_of_char(c: char) -> (r: u64)
    ensures
        r == digit_value(c),
{
    if '0' <= c && c <= '9' {
        (c as u64) - ('0' as u64)
    } else if 'a' <= c && c <= 'f' {
        (c as u64) - ('a' as u64) + 10
    } else if 'A' <= c && c <= 'F' {
        (c as u64) - ('A' as u64) + 10
    } else {
        16
    }
}

fn same_chars(s: &str, from: usize, expect: &[char]) -> (r: bool)
    requires
        from <= s@.len(),
    ensures
        r == (s@.subrange(from as int, s@.len() as int) == expect@),
{
    let n = s.unicode_len();
    if n - from != expect.len() {
        return false;
    }
    let mut i: usize = 0;
    while i < expect.len()
        invariant
            n == s@.len(),
            from + expect@.len() == n,
            i <= expect@.len(),
            forall|k: int| 0 <= k < i ==> s@[from + k] == expect@[k],
        decreases expect.len() - i,
    {
        if s.get_char(from + i) != expect[i] {
            return false;
        }
        i = i + 1;
    }
    assert(s@.subrange(from as int, s@.len() as int) =~= expect@);
    true
}

fn lex_suffix(s: &str, from: usize) -> (r: Option<(Signed, Size)>)
    requires
        from <= s@.len(),
    ensures
        r == suffix_kind(s@.subrange(from as int, s@.len() as int)),
{
    let ghost t = s@.subrange(from as int, s@.len() as int);
    let n = s.unicode_len();
    let len = n - from;
    if len == 0 {
        return Some((Signed::Yes, Size::Unknown));
    }
    let first = s.get_char(from);
    let last = s.get_char(n - 1);
    assert(first == t[0] && last == t.last());
    let u_first = first == 'u' || first == 'U';
    let u_last = last == 'u' || last == 'U';
    if len == 1 && u_first {
        return Some((Signed::No, Size::Unknown));
    }
    let whole_long = same_chars(s, from, &['l']) || same_chars(s, from, &['L'])
        || same_chars(s, from, &['l', 'l']) || same_chars(s, from, &['L', 'L']);
    assert(whole_long == is_long_mark(t)) by {
        assert(seq!['l'] =~= ['l']@);
        assert(seq!['L'] =~= ['L']@);
        assert(seq!['l', 'l'] =~= ['l', 'l']@);
        assert(seq!['L', 'L'] =~= ['L', 'L']@);
    }
    if whole_long {
        return Some((Signed::Yes, Size::Long));
    }
    let after_u = u_first && (same_chars(s, from + 1, &['l']) || same_chars(s, from + 1, &['L'])
        || same_chars(s, from + 1, &['l', 'l']) || same_chars(s, from + 1, &['L', 'L']));
    assert(after_u == (is_unsigned_mark(t[0]) && is_long_mark(t.drop_first()))) by {
        assert(t.drop_first() =~= s@.subrange(from + 1, s@.len() as int));
        assert(seq!['l'] =~= ['l']@);
        assert(seq!['L'] =~= ['L']@);
        assert(seq!['l', 'l'] =~= ['l', 'l']@);
        assert(seq!['L', 'L'] =~= ['L', 'L']@);
    }
    if after_u {
        return Some((Signed::No, Size::Long));
    }
    let before_u = u_last && (len == 2 || len == 3) && {
        let a = s.get_char(from);
        let b = s.get_char(n - 2);
        a == b && (a == 'l' || a == 'L')
    };
    assert(before_u == (is_unsigned_mark(t.last()) && is_long_mark(t.drop_last()))) by {
        let d = t.drop_last();
        if len == 2 {
            assert(d.len() == 1 && d[0] == t[0]);
            if is_long_mark(d) {
                assert(d[0] == seq!['l'][0] || d[0] == seq!['L'][0]);
            }
            if d[0] == 'l' {
                assert(d =~= seq!['l']);
            }
            if d[0] == 'L' {
                assert(d =~= seq!['L']);
            }
        } else if len == 3 {
            assert(d.len() == 2 && d[0] == t[0] && d[1] == t[1]);
            if is_long_mark(d) {
                assert(d[0] == seq!['l', 'l'][0] || d[0] == seq!['L', 'L'][0]);
                assert(d[1] == seq!['l', 'l'][1] || d[1] == seq!['L', 'L'][1]);
                assert(d[0] == d[1]);
            }
            if d[0] == 'l' && d[1] == 'l' {
                assert(d =~= seq!['l', 'l']);
            }
            if d[0] == 'L' && d[1] == 'L' {
                assert(d =~= seq!['L', 'L']);
            }
        } else {
            assert(d.len() != 1 && d.len() != 2);
        }
    }
    if before_u {
        return Some((Signed::No, Size::Long));
    }
    None
}

/// Reads the integer literal `s`.
pub fn lex_integer(s: &str) -> (r: Option<(u64, Signed, Size)>)
    ensures
        r == int_literal(s@),
{
    let n = s.unicode_len();
    let (start, b): (usize, u64) = if n >= 2 && s.get_char(0) == '0' && (s.get_char(1) == 'x'
        || s.get_char(1) == 'X') {
        (2, 16)
    } else if n >= 2 && s.get_char(0) == '0' && digit_of_char(s.get_char(1)) < 10 {
        (1, 8)
    } else {
        (0, 10)
    };
    assert((start as int, b as nat) == literal_base(s@));
    let ghost run = digit_run(s@, start as int, b as nat);
    proof {
        lemma_digit_run_bound(s@, start as int, b as nat);
    }
    let mut i: usize = start;
    let mut acc: u64 = 0;
    let mut overflow = false;
    while i < n && digit_of_char(s.get_char(i)) < b
        invariant
            n == s@.len(),
            start <= i <= start + run <= n,
            b == 8 || b == 10 || b == 16,
            run == digit_run(s@, start as int, b as nat),
            forall|k: int| start <= k < start + run ==> digit_value(#[trigger] s@[k]) < b,
            start + run < n ==> digit_value(s@[start + run]) >= b,
            !overflow ==> acc == digits_value(s@.subrange(start as int, i as int), b as nat),
            overflow ==> digits_value(s@.subrange(start as int, i as int), b as nat) > u64::MAX,
        decreases n - i,
    {
        let d = digit_of_char(s.get_char(i));
        let ghost pre = s@.subrange(start as int, i as int);
        let ghost next = s@.subrange(start as int, i + 1);
        assert(next.drop_last() =~= pre);
        assert(next.last() == s@[i as int]);
        if !overflow {
            if acc > (u64::MAX - d) / b {
                overflow = true;
                assert(acc * b + d > u64::MAX) by (nonlinear_arith)
                    requires
                        acc as int > (u64::MAX as int - d as int) / (b as int),
                        b > 0,
                        d < b,
                ;
            } else {
                assert(acc * b + d <= u64::MAX) by (nonlinear_arith)
                    requires
                        acc as int <= (u64::MAX as int - d as int) / (b as int),
                        b > 0,
                        d < b,
                ;
                acc = acc * b + d;
            }
        } else {
            let ghost v = digits_value(pre, b as nat);
            assert(v * b + d > u64::MAX) by (nonlinear_arith)
                requires
                    v > u64::MAX,
                    b > 0,
            ;
        }
        i = i + 1;
    }
    assert(i == start + run);
    if i == start {
        return None;
    }
    if overflow {
        return None;
    }
    match lex_suffix(s, i) {
        Some((sg, sz)) => Some((acc, sg, sz)),
        None => None,
    }
}

/// The string literal `s`, optionally `L`-prefixed: its text between the
/// quotes, kept as written, and whether it is wide.
pub open spec fn string_literal(s: Seq<char>) -> Option<(Seq<char>, bool)> {
    if s.len() >= 2 && s[0] == '"' && s.last() == '"' {
        Some((s.subrange(1, s.len() - 1), false))
    } else if s.len() >= 3 && s[0] == 'L' && s[1] == '"' && s.last() == '"' {
        Some((s.subrange(2, s.len() - 1), true))
    } else {
        None
    }
}

pub open spec fn is_ident_start(c: char) -> bool {
    ('a' <= c && c <= 'z') || ('A' <= c && c <= 'Z') || c == '_'
}

pub open spec fn is_ident_char(c: char) -> bool {
    is_ident_start(c) || ('0' <= c && c <= '9')
}

/// A C identifier: a letter or `_`, then letters, digits and `_`.
pub open spec fn is_ident(s: Seq<char>) -> bool {
    s.len() >= 1 && is_ident_start(s[0]) && forall|k: int| 0 <= k < s.len() ==> is_ident_char(
        #[trigger] s[k],
    )
}

/// Reads the string literal `s`.
pub fn lex_string(s: &str) -> (r: Option<(String, bool)>)
    ensures
        match r {
            Some((t, w)) => string_literal(s@) == Some((t@, w)),
            None => string_literal(s@).is_none(),
        },
{
    let n = s.unicode_len();
    if n >= 2 && s.get_char(0) == '"' && s.get_char(n - 1) == '"' {
        Some((String::from_str(s.substring_char(1, n - 1)), false))
    } else if n >= 3 && s.get_char(0) == 'L' && s.get_char(1) == '"' && s.get_char(n - 1) == '"' {
        Some((String::from_str(s.substring_char(2, n - 1)), true))
    } else {
        None
    }
}

fn ident_start(c: char) -> (r: bool)
    ensures
        r == is_ident_start(c),
{
    ('a' <= c && c <= 'z') || ('A' <= c && c <= 'Z') || c == '_'
}

/// Whether `s` is a C identifier.
pub fn lex_ident(s: &str) -> (r: bool)
    ensures
        r == is_ident(s@),
{
    let n = s.unicode_len();
    if n == 0 || !ident_start(s.get_char(0)) {
        return false;
    }
    let mut i: usize = 0;
    while i < n
        invariant
            n == s@.len(),
            i <= n,
            forall|k: int| 0 <= k < i ==> is_ident_char(#[trigger] s@[k]),
        decreases n - i,
    {
        let c = s.get_char(i);
        if !(ident_start(c) || ('0' <= c && c <= '9')) {
            assert(!is_ident_char(s@[i as int]));
            return false;
        }
        i = i + 1;
    }
    true
}

/// Whether `s` is the one-character token `c`.
pub fn is_punct(s: &str, c: char) -> (r: bool)
    ensures
        r == (s@ == seq![c]),
{
    let n = s.unicode_len();
    if n != 1 {
        return false;
    }
    let r = s.get_char(0) == c;
    assert(r ==> s@ =~= seq![c]);
    r
}

/// The spellings of a token list.
pub open spec fn spellings(t: Seq<String>) -> Seq<Seq<char>> {
    t.map_values(|x: String| x@)
}

pub open spec fn is_tok(t: Seq<Seq<char>>, i: int, c: char) -> bool {
    0 <= i < t.len() && t[i] == seq![c]
}

/// A token that can begin an operand: what makes `( T ) x` a cast.
pub open spec fn starts_operand(x: Seq<char>) -> bool {
    x == seq!['('] || x == seq!['~'] || x == seq!['-'] || int_literal(x).is_some()
        || string_literal(x).is_some() || is_ident(x)
}

/// A prefix expression starting at token `i`: the expression and the
/// position after it, or the position of the token at which parsing stopped.
pub open spec fn parse_unary(t: Seq<Seq<char>>, i: int) -> Result<(Expr, int), int>
    decreases t.len() - i, 2nat,
{
    if i < 0 || i >= t.len() {
        Err(i)
    } else if is_tok(t, i, '~') || is_tok(t, i, '-') {
        let op = if is_tok(t, i, '~') { UnaryOp::Com } else { UnaryOp::Neg };
        match parse_unary(t, i + 1) {
            Ok((e, j)) => Ok((Expr::Unary(op, Box::new(e)), j)),
            Err(p) => Err(p),
        }
    } else {
        parse_primary(t, i)
    }
}

/// A literal, an identifier, a call, a cast or a parenthesised expression
/// starting at token `i`.
pub open spec fn parse_primary(t: Seq<Seq<char>>, i: int) -> Result<(Expr, int), int>
    decreases t.len() - i, 1nat,
{
    if i < 0 || i >= t.len() {
        Err(i)
    } else if is_tok(t, i, '(') {
        if i + 3 < t.len() && is_ident(t[i + 1]) && is_tok(t, i + 2, ')') && starts_operand(
            t[i + 3],
        ) {
            match parse_unary(t, i + 3) {
                Ok((v, j)) => Ok(
                    (Expr::Cast(Box::new(Expr::Type(t[i + 1], false)), Box::new(v)), j),
                ),
                Err(p) => Err(p),
            }
        } else if i + 3 < t.len() && is_ident(t[i + 1]) && is_tok(t, i + 2, '*') && is_tok(
            t,
            i + 3,
            ')',
        ) {
            match parse_unary(t, i + 4) {
                Ok((v, j)) => Ok(
                    (Expr::Cast(Box::new(Expr::Type(t[i + 1], true)), Box::new(v)), j),
                ),
                Err(p) => Err(p),
            }
        } else {
            match parse_unary(t, i + 1) {
                Ok((e, j)) => if is_tok(t, j, ')') {
                    Ok((e, j + 1))
                } else {
                    Err(j)
                },
                Err(p) => Err(p),
            }
        }
    } else if int_literal(t[i]).is_some() {
        let (v, sg, sz) = int_literal(t[i]).unwrap();
        Ok((Expr::Integer(v, sg, sz), i + 1))
    } else if string_literal(t[i]).is_some() {
        let (text, wide) = string_literal(t[i]).unwrap();
        Ok((Expr::Str(text, wide), i + 1))
    } else if is_ident(t[i]) {
        if is_tok(t, i + 1, '(') {
            if is_tok(t, i + 2, ')') {
                Ok((Expr::Call(Box::new(Expr::Ident(t[i])), Seq::empty()), i + 3))
            } else {
                match parse_args(t, i + 2) {
                    Ok((args, j)) => Ok((Expr::Call(Box::new(Expr::Ident(t[i])), args), j)),
                    Err(p) => Err(p),
                }
            }
        } else {
            Ok((Expr::Ident(t[i]), i + 1))
        }
    } else {
        Err(i)
    }
}

/// Call arguments from token `i`, separated by `,` and closed by `)`: the
/// arguments and the position after the `)`.
pub open spec fn parse_args(t: Seq<Seq<char>>, i: int) -> Result<(Seq<Expr>, int), int>
    decreases t.len() - i, 3nat,
{
    if i < 0 || i >= t.len() {
        Err(i)
    } else {
        match parse_unary(t, i) {
            Ok((e, j)) => if !(i < j <= t.len()) {
                Err(i)
            } else if is_tok(t, j, ')') {
                Ok((seq![e], j + 1))
            } else if is_tok(t, j, ',') {
                match parse_args(t, j + 1) {
                    Ok((rest, k)) => Ok((seq![e] + rest, k)),
                    Err(p) => Err(p),
                }
            } else {
                Err(j)
            },
            Err(p) => Err(p),
        }
    }
}

/// Where parsing a macro body stopped.
#[derive(PartialEq, Eq, Structural, Clone, Copy, Debug)]
pub struct Mismatch {
    /// The position of the token at which parsing stopped.
    pub pos: usize,
}

fn tok_is(toks: &Vec<String>, i: usize, c: char) -> (r: bool)
    ensures
        r == is_tok(spellings(toks@), i as int, c),
{
    if i < toks.len() {
        assert(spellings(toks@)[i as int] == toks@[i as int]@);
        is_punct(toks[i].as_str(), c)
    } else {
        false
    }
}

fn operand_start(x: &str) -> (r: bool)
    ensures
        r == starts_operand(x@),
{
    is_punct(x, '(') || is_punct(x, '~') || is_punct(x, '-') || lex_integer(x).is_some()
        || lex_string(x).is_some() || lex_ident(x)
}

/// Parses a prefix expression starting at token `i`.
pub fn parse_unary_at(toks: &Vec<String>, i: usize) -> (r: Result<(Node, usize), usize>)
    ensures
        match r {
            Ok((n, j)) => parse_unary(spellings(toks@), i as int) == Ok::<(Expr, int), int>((n@, j as int)),
            Err(p) => parse_unary(spellings(toks@), i as int) == Err::<(Expr, int), int>(p as int),
        },
    decreases toks@.len() - i, 2nat,
{
    if i >= toks.len() {
        return Err(i);
    }
    let com = tok_is(toks, i, '~');
    if com || tok_is(toks, i, '-') {
        let op = if com { UnaryOp::Com } else { UnaryOp::Neg };
        match parse_unary_at(toks, i + 1) {
            Ok((e, j)) => {
                let e = Box::new(e);
                assert(expr_of(*e) == e@);
                Ok((Node::Unary(op, e), j))
            },
            Err(p) => Err(p),
        }
    } else {
        parse_primary_at(toks, i)
    }
}

/// Parses a literal, an identifier, a call, a cast or a parenthesised
/// expression starting at token `i`.
pub fn parse_primary_at(toks: &Vec<String>, i: usize) -> (r: Result<(Node, usize), usize>)
    ensures
        match r {
            Ok((n, j)) => parse_primary(spellings(toks@), i as int) == Ok::<(Expr, int), int>((n@, j as int)),
            Err(p) => parse_primary(spellings(toks@), i as int) == Err::<(Expr, int), int>(p as int),
        },
    decreases toks@.len() - i, 1nat,
{
    let ghost t = spellings(toks@);
    if i >= toks.len() {
        return Err(i);
    }
    assert(t[i as int] == toks@[i as int]@);
    let x = toks[i].as_str();
    if tok_is(toks, i, '(') {
        let n = toks.len();
        if n - i > 3 {
            assert(t[i + 1] == toks@[i + 1]@);
            assert(t[i + 3] == toks@[i + 3]@);
        }
        if n - i > 3 && lex_ident(toks[i + 1].as_str()) && tok_is(toks, i + 2, ')')
            && operand_start(toks[i + 3].as_str()) {
            match parse_unary_at(toks, i + 3) {
                Ok((v, j)) => {
                    let ty = Box::new(Node::Type(toks[i + 1].clone(), false));
                    assert(expr_of(*ty) == Expr::Type(t[i + 1], false));
                    let value = Box::new(v);
                    assert(expr_of(*value) == v@);
                    Ok((Node::Cast { ty, value }, j))
                },
                Err(p) => Err(p),
            }
        } else if n - i > 3 && lex_ident(toks[i + 1].as_str()) && tok_is(toks, i + 2, '*')
            && tok_is(toks, i + 3, ')') {
            match parse_unary_at(toks, i + 4) {
                Ok((v, j)) => {
                    let ty = Box::new(Node::Type(toks[i + 1].clone(), true));
                    assert(expr_of(*ty) == Expr::Type(t[i + 1], true));
                    let value = Box::new(v);
                    assert(expr_of(*value) == v@);
                    Ok((Node::Cast { ty, value }, j))
                },
                Err(p) => Err(p),
            }
        } else {
            match parse_unary_at(toks, i + 1) {
                Ok((e, j)) => if tok_is(toks, j, ')') {
                    Ok((e, j + 1))
                } else {
                    Err(j)
                },
                Err(p) => Err(p),
            }
        }
    } else if let Some((v, sg, sz)) = lex_integer(x) {
        Ok((Node::Integer(v, sg, sz), i + 1))
    } else if let Some((text, wide)) = lex_string(x) {
        Ok((Node::String(text, wide), i + 1))
    } else if lex_ident(x) {
        let name = toks[i].clone();
        if tok_is(toks, i + 1, '(') {
            let subject = Box::new(Node::Ident(name));
            assert(expr_of(*subject) == Expr::Ident(t[i as int]));
            if tok_is(toks, i + 2, ')') {
                let args: Vec<Node> = Vec::new();
                assert(exprs_of(args@) =~= Seq::<Expr>::empty());
                Ok((Node::Call { subject, args }, i + 3))
            } else {
                match parse_args_at(toks, i + 2) {
                    Ok((args, j)) => Ok((Node::Call { subject, args }, j)),
                    Err(p) => Err(p),
                }
            }
        } else {
            Ok((Node::Ident(name), i + 1))
        }
    } else {
        Err(i)
    }
}

/// Parses call arguments from token `i` up to and including the closing `)`.
pub fn parse_args_at(toks: &Vec<String>, i: usize) -> (r: Result<(Vec<Node>, usize), usize>)
    ensures
        match r {
            Ok((a, j)) => parse_args(spellings(toks@), i as int) == Ok::<(Seq<Expr>, int), int>(
                (exprs_of(a@), j as int),
            ),
            Err(p) => parse_args(spellings(toks@), i as int) == Err::<(Seq<Expr>, int), int>(p as int),
        },
    decreases toks@.len() - i, 3nat,
{
    if i >= toks.len() {
        return Err(i);
    }
    match parse_unary_at(toks, i) {
        Ok((e, j)) => {
            if !(i < j && j <= toks.len()) {
                Err(i)
            } else if tok_is(toks, j, ')') {
                let mut v: Vec<Node> = Vec::new();
                v.push(e);
                proof {
                    assert(v@.drop_first() =~= Seq::<Node>::empty());
                    assert(exprs_of(Seq::<Node>::empty()) =~= Seq::<Expr>::empty());
                    assert(exprs_of(v@) =~= seq![expr_of(v@[0])]);
                }
                Ok((v, j + 1))
            } else if tok_is(toks, j, ',') {
                match parse_args_at(toks, j + 1) {
                    Ok((rest, k)) => {
                        let ghost old_rest = rest@;
                        let mut rest = rest;
                        rest.insert(0, e);
                        proof {
                            assert(rest@.drop_first() =~= old_rest);
                            assert(exprs_of(rest@) =~= seq![expr_of(rest@[0])] + exprs_of(old_rest));
                        }
                        Ok((rest, k))
                    },
                    Err(p) => Err(p),
                }
            } else {
                Err(j)
            }
        },
        Err(p) => Err(p),
    }
}

/// Parses a whole macro body: the expression at the start of `toks` and the
/// position after it, or where the parse failed.
pub fn expression(toks: &Vec<String>) -> (r: Result<(Node, usize), Mismatch>)
    ensures
        match r {
            Ok((n, j)) => parse_unary(spellings(toks@), 0) == Ok::<(Expr, int), int>((n@, j as int)),
            Err(m) => parse_unary(spellings(toks@), 0) == Err::<(Expr, int), int>(m.pos as int)
                && m.pos <= toks@.len(),
        },
{
    proof {
        lemma_parse_unary_bounds(spellings(toks@), 0);
    }
    match parse_unary_at(toks, 0) {
        Ok((n, j)) => Ok((n, j)),
        Err(p) => Err(Mismatch { pos: p }),
    }
}

/// A parse ends after where it starts, within the tokens; a failed parse
/// stops within them, not before where it started.
pub proof fn lemma_parse_unary_bounds(t: Seq<Seq<char>>, i: int)
    ensures
        0 <= i <= t.len() ==> match parse_unary(t, i) {
            Ok((_, j)) => i < j <= t.len(),
            Err(p) => i <= p <= t.len(),
        },
    decreases t.len() - i, 2nat,
{
    if 0 <= i < t.len() {
        if is_tok(t, i, '~') || is_tok(t, i, '-') {
            lemma_parse_unary_bounds(t, i + 1);
        } else {
            lemma_parse_primary_bounds(t, i);
        }
    }
}

pub proof fn lemma_parse_primary_bounds(t: Seq<Seq<char>>, i: int)
    ensures
        0 <= i <= t.len() ==> match parse_primary(t, i) {
            Ok((_, j)) => i < j <= t.len(),
            Err(p) => i <= p <= t.len(),
        },
    decreases t.len() - i, 1nat,
{
    if 0 <= i < t.len() {
        lemma_parse_unary_bounds(t, i + 1);
        if i + 3 < t.len() {
            lemma_parse_unary_bounds(t, i + 3);
        }
        if i + 4 <= t.len() {
            lemma_parse_unary_bounds(t, i + 4);
        }
        if i + 2 <= t.len() {
            lemma_parse_args_bounds(t, i + 2);
        }
    }
}

pub proof fn lemma_parse_args_bounds(t: Seq<Seq<char>>, i: int)
    ensures
        0 <= i <= t.len() ==> match parse_args(t, i) {
            Ok((_, j)) => i < j <= t.len(),
            Err(p) => i <= p <= t.len(),
        },
    decreases t.len() - i, 3nat,
{
    if 0 <= i < t.len() {
        lemma_parse_unary_bounds(t, i);
        match parse_unary(t, i) {
            Ok((e, j)) => {
                if i < j <= t.len() && is_tok(t, j, ',') {
                    lemma_parse_args_bounds(t, j + 1);
                }
            },
            Err(_) => {},
        }
    }
}

proof fn lemma_run_stops(s: Seq<char>, t: Seq<char>, i: int, b: nat)
    requires
        0 <= i <= s.len(),
        i + digit_run(s, i, b) == s.len(),
        t.len() > 0,
        digit_value(t[0]) >= b,
    ensures
        digit_run(s + t, i, b) == digit_run(s, i, b),
    decreases s.len() - i,
{
    if i < s.len() {
        assert((s + t)[i] == s[i]);
        lemma_run_stops(s, t, i + 1, b);
    } else {
        assert((s + t)[i] == t[0]);
    }
}

proof fn lemma_suffixed(s: Seq<char>, t: Seq<char>)
    requires
        int_literal(s) matches Some((_, sg, sz)) && sg == Signed::Yes && sz == Size::Unknown,
        t.len() > 0,
        digit_value(t[0]) == 16,
        t[0] != 'x' && t[0] != 'X',
        suffix_kind(t) is Some,
    ensures
        int_literal(s + t) == Some((int_literal(s).unwrap().0, suffix_kind(t).unwrap().0, suffix_kind(t).unwrap().1)),
{
    let u = s + t;
    let (start, b) = literal_base(s);
    assert(s.len() >= 1) by {
        if s.len() == 0 {
            assert(digit_run(s, 0, 10) == 0);
        }
    }
    assert(literal_base(u) == literal_base(s)) by {
        if s.len() >= 2 {
            assert(u[0] == s[0] && u[1] == s[1]);
        } else {
            assert(u[0] == s[0] && u[1] == t[0]);
        }
    }
    lemma_digit_run_bound(s, start, b);
    let end = start + digit_run(s, start, b);
    assert(s.subrange(end, s.len() as int).len() == 0) by {
        let rest = s.subrange(end, s.len() as int);
        if rest.len() > 0 {
            assert(suffix_kind(rest) != Some((Signed::Yes, Size::Unknown)));
        }
    }
    lemma_run_stops(s, t, start, b);
    assert(u.subrange(start, end) =~= s.subrange(start, end));
    assert(u.subrange(end, u.len() as int) =~= t);
}

/// A `ULL` suffix on an integer literal without suffix selects unsigned and
/// long; `LL` alone selects signed and long. The value is kept.
pub proof fn lemma_long_suffixes(s: Seq<char>)
    requires
        int_literal(s) matches Some((_, sg, sz)) && sg == Signed::Yes && sz == Size::Unknown,
    ensures
        int_literal(s + seq!['U', 'L', 'L']) == Some((int_literal(s).unwrap().0, Signed::No, Size::Long)),
        int_literal(s + seq!['L', 'L']) == Some((int_literal(s).unwrap().0, Signed::Yes, Size::Long)),
{
    let ull = seq!['U', 'L', 'L'];
    let ll = seq!['L', 'L'];
    assert(ull.drop_first() =~= ll);
    assert(suffix_kind(ull) == Some((Signed::No, Size::Long)));
    assert(suffix_kind(ll) == Some((Signed::Yes, Size::Long)));
    lemma_suffixed(s, ull);
    lemma_suffixed(s, ll);
}

} // verus!
