//! The lexer of the schema description language.
//!
//! Schema text is cut into tokens: primitive type names, the `enum`
//! keyword, enum variants (`name=value`), unsigned integers, identifiers,
//! braces, brackets, commas, semicolons and colons.  Whitespace separates
//! tokens; any character that fits no token makes the whole text
//! unlexable.  The lexer is longest-match: a word token ends only where no
//! token could grow further.
//!
//! The executable lexer is a character-at-a-time state machine; its
//! specification is the same machine folded over the text, so the result
//! is pinned down for every input.

use vstd::prelude::*;
use vstd::string::*;

verus! {

/// A token of the schema language, at the specification level: text
/// payloads are character sequences.
pub enum SpecTok {
    TypeName(Seq<char>),
    EnumKeyword,
    EnumVariant(Seq<char>, i8),
    Integer(u32),
    Ident(Seq<char>),
    OpenBrace,
    CloseBrace,
    OpenBracket,
    CloseBracket,
    Comma,
    Semicolon,
    Colon,
}

/// A token of the schema language.
#[derive(Debug, PartialEq, Eq)]
pub enum Token {
    TypeName(String),
    EnumKeyword,
    EnumVariant(String, i8),
    Integer(u32),
    Ident(String),
    OpenBrace,
    CloseBrace,
    OpenBracket,
    CloseBracket,
    Comma,
    Semicolon,
    Colon,
}

impl View for Token {
    type V = SpecTok;

    open spec fn view(&self) -> SpecTok {
        match self {
            Token::TypeName(w) => SpecTok::TypeName(w@),
            Token::EnumKeyword => SpecTok::EnumKeyword,
            Token::EnumVariant(w, v) => SpecTok::EnumVariant(w@, *v),
            Token::Integer(v) => SpecTok::Integer(*v),
            Token::Ident(w) => SpecTok::Ident(w@),
            Token::OpenBrace => SpecTok::OpenBrace,
            Token::CloseBrace => SpecTok::CloseBrace,
            Token::OpenBracket => SpecTok::OpenBracket,
            Token::CloseBracket => SpecTok::CloseBracket,
            Token::Comma => SpecTok::Comma,
            Token::Semicolon => SpecTok::Semicolon,
            Token::Colon => SpecTok::Colon,
        }
    }
}

impl Token {
    /// An equal token; text payloads are copied.
    pub fn clone_tok(&self) -> (t: Token)
        ensures
            t@ == self@,
    {
        match self {
            Token::TypeName(w) => Token::TypeName(w.clone()),
            Token::EnumKeyword => Token::EnumKeyword,
            Token::EnumVariant(w, v) => Token::EnumVariant(w.clone(), *v),
            Token::Integer(v) => Token::Integer(*v),
            Token::Ident(w) => Token::Ident(w.clone()),
            Token::OpenBrace => Token::OpenBrace,
            Token::CloseBrace => Token::CloseBrace,
            Token::OpenBracket => Token::OpenBracket,
            Token::CloseBracket => Token::CloseBracket,
            Token::Comma => Token::Comma,
            Token::Semicolon => Token::Semicolon,
            Token::Colon => Token::Colon,
        }
    }
}

/// The token views of a token vector.
pub open spec fn toks_view(v: Seq<Token>) -> Seq<SpecTok> {
    v.map(|k: int, t: Token| t@)
}

/// Whitespace between tokens: space, tab, newline and form feed.
pub open spec fn is_space(c: char) -> bool {
    c == ' ' || c == '\t' || c == '\n' || c == '\u{c}'
}

/// A decimal digit.
pub open spec fn is_digit(c: char) -> bool {
    48 <= c as u32 && c as u32 <= 57
}

/// A letter of either case.
pub open spec fn is_alpha(c: char) -> bool {
    (65 <= c as u32 && c as u32 <= 90) || (97 <= c as u32 && c as u32 <= 122)
}

/// A character that may open a word token: letters, `_` and `-`.
pub open spec fn is_word_start(c: char) -> bool {
    is_alpha(c) || c == '_' || c == '-'
}

/// A character that may continue a word token.
pub open spec fn is_word_cont(c: char) -> bool {
    is_alpha(c) || is_digit(c) || c == '_' || c == '-'
}

/// A single-character punctuation token, if `c` is one.
pub open spec fn punct_tok(c: char) -> Option<SpecTok> {
    if c == '{' {
        Some(SpecTok::OpenBrace)
    } else if c == '}' {
        Some(SpecTok::CloseBrace)
    } else if c == '[' {
        Some(SpecTok::OpenBracket)
    } else if c == ']' {
        Some(SpecTok::CloseBracket)
    } else if c == ',' {
        Some(SpecTok::Comma)
    } else if c == ';' {
        Some(SpecTok::Semicolon)
    } else if c == ':' {
        Some(SpecTok::Colon)
    } else {
        None
    }
}

/// Whether a word is one of the primitive type names of the language.
pub open spec fn is_prim_name(w: Seq<char>) -> bool {
    ||| w == "bool"@
    ||| w == "char"@
    ||| w == "int8"@
    ||| w == "int16"@
    ||| w == "int32"@
    ||| w == "int64"@
    ||| w == "uint8"@
    ||| w == "uint16"@
    ||| w == "uint32"@
    ||| w == "uint64"@
    ||| w == "float32"@
    ||| w == "float64"@
    ||| w == "float"@
    ||| w == "double"@
}

/// The token a finished word makes: keyword, type name or identifier.
pub open spec fn word_tok(w: Seq<char>) -> SpecTok {
    if w == "enum"@ {
        SpecTok::EnumKeyword
    } else if is_prim_name(w) {
        SpecTok::TypeName(w)
    } else {
        SpecTok::Ident(w)
    }
}

/// The value of the digit run `s[start..end]`.
pub open spec fn digits_val(s: Seq<char>, start: int, end: int) -> int
    decreases end - start,
{
    if end <= start {
        0
    } else {
        digits_val(s, start, end - 1) * 10 + (s[end - 1] as u32 - 48)
    }
}

/// The lexer's state between characters, at the specification level.
/// Word, number and variant states remember where their text began.
pub enum LexState {
    Start,
    Word { start: int },
    Num { start: int },
    VarEq { start: int, ident_end: int },
    VarNeg { start: int, ident_end: int },
    VarNum { start: int, ident_end: int, neg: bool, digits_start: int },
    Failed,
}

/// The lexer's state together with the tokens emitted so far.
pub struct LexFold {
    pub st: LexState,
    pub toks: Seq<SpecTok>,
}

/// Processing character `s[i]` from the `Start` state: skip whitespace,
/// emit punctuation, or open a number or word token.  An unexpected
/// character fails the whole text.
pub open spec fn start_step(s: Seq<char>, toks: Seq<SpecTok>, i: int) -> LexFold {
    let c = s[i];
    if is_space(c) {
        LexFold { st: LexState::Start, toks }
    } else if punct_tok(c) is Some {
        LexFold { st: LexState::Start, toks: toks.push(punct_tok(c)->Some_0) }
    } else if is_digit(c) {
        LexFold { st: LexState::Num { start: i }, toks }
    } else if is_word_start(c) {
        LexFold { st: LexState::Word { start: i }, toks }
    } else {
        LexFold { st: LexState::Failed, toks }
    }
}

/// Closing a number token that spans `s[start..i]`: the digits must fit a
/// 32-bit unsigned value.
pub open spec fn close_num(s: Seq<char>, toks: Seq<SpecTok>, start: int, i: int) -> Option<
    Seq<SpecTok>,
> {
    let v = digits_val(s, start, i);
    if v <= u32::MAX {
        Some(toks.push(SpecTok::Integer(v as u32)))
    } else {
        None
    }
}

/// Closing an enum-variant token `name=value` whose digits span
/// `s[digits_start..i]`: the signed value must fit an 8-bit integer.
pub open spec fn close_var(
    s: Seq<char>,
    toks: Seq<SpecTok>,
    start: int,
    ident_end: int,
    neg: bool,
    digits_start: int,
    i: int,
) -> Option<Seq<SpecTok>> {
    let mag = digits_val(s, digits_start, i);
    let v = if neg {
        -mag
    } else {
        mag
    };
    if -128 <= v && v <= 127 {
        Some(toks.push(SpecTok::EnumVariant(s.subrange(start, ident_end), v as i8)))
    } else {
        None
    }
}

/// One step of the lexer: the state after reading `s[i]`.
pub open spec fn lex_step(s: Seq<char>, f: LexFold, i: int) -> LexFold {
    let c = s[i];
    match f.st {
        LexState::Failed => f,
        LexState::Start => start_step(s, f.toks, i),
        LexState::Word { start } => {
            if is_word_cont(c) {
                f
            } else if c == '=' {
                LexFold { st: LexState::VarEq { start, ident_end: i }, toks: f.toks }
            } else {
                start_step(s, f.toks.push(word_tok(s.subrange(start, i))), i)
            }
        },
        LexState::Num { start } => {
            if is_digit(c) {
                f
            } else {
                match close_num(s, f.toks, start, i) {
                    Some(toks) => start_step(s, toks, i),
                    None => LexFold { st: LexState::Failed, toks: f.toks },
                }
            }
        },
        LexState::VarEq { start, ident_end } => {
            if c == '-' {
                LexFold { st: LexState::VarNeg { start, ident_end }, toks: f.toks }
            } else if is_digit(c) {
                LexFold {
                    st: LexState::VarNum { start, ident_end, neg: false, digits_start: i },
                    toks: f.toks,
                }
            } else {
                LexFold { st: LexState::Failed, toks: f.toks }
            }
        },
        LexState::VarNeg { start, ident_end } => {
            if is_digit(c) {
                LexFold {
                    st: LexState::VarNum { start, ident_end, neg: true, digits_start: i },
                    toks: f.toks,
                }
            } else {
                LexFold { st: LexState::Failed, toks: f.toks }
            }
        },
        LexState::VarNum { start, ident_end, neg, digits_start } => {
            if is_digit(c) {
                f
            } else {
                match close_var(s, f.toks, start, ident_end, neg, digits_start, i) {
                    Some(toks) => start_step(s, toks, i),
                    None => LexFold { st: LexState::Failed, toks: f.toks },
                }
            }
        },
    }
}

/// The lexer folded over the first `n` characters of `s`.
pub open spec fn lex_fold(s: Seq<char>, n: int) -> LexFold
    decreases n,
{
    if n <= 0 {
        LexFold { st: LexState::Start, toks: Seq::empty() }
    } else {
        lex_step(s, lex_fold(s, n - 1), n - 1)
    }
}

/// Finishing at the end of the text: a pending word or number closes; a
/// pending `name=` or `name=-` has no digits, so the text is unlexable.
pub open spec fn lex_finish(s: Seq<char>, f: LexFold) -> Option<Seq<SpecTok>> {
    let len = s.len() as int;
    match f.st {
        LexState::Failed => None,
        LexState::Start => Some(f.toks),
        LexState::Word { start } => Some(f.toks.push(word_tok(s.subrange(start, len)))),
        LexState::Num { start } => close_num(s, f.toks, start, len),
        LexState::VarEq { .. } => None,
        LexState::VarNeg { .. } => None,
        LexState::VarNum { start, ident_end, neg, digits_start } => close_var(
            s,
            f.toks,
            start,
            ident_end,
            neg,
            digits_start,
            len,
        ),
    }
}

/// The token sequence of a schema text, or `None` when any part of it is
/// unlexable.
pub open spec fn spec_lex(s: Seq<char>) -> Option<Seq<SpecTok>> {
    lex_finish(s, lex_fold(s, s.len() as int))
}

/// The executable lexer's state: the specification state plus, for number
/// and variant states, the running value of the digit run and whether it
/// has overflowed.
#[derive(Clone, Copy)]
enum Scan {
    Start,
    Word { start: usize },
    Num { start: usize, val: u32, over: bool },
    VarEq { start: usize, ident_end: usize },
    VarNeg { start: usize, ident_end: usize },
    VarNum { start: usize, ident_end: usize, neg: bool, digits_start: usize, mag: u32, over: bool },
    Failed,
}

/// The specification state an executable state stands for.
spec fn scan_view(sc: Scan) -> LexState {
    match sc {
        Scan::Start => LexState::Start,
        Scan::Word { start } => LexState::Word { start: start as int },
        Scan::Num { start, .. } => LexState::Num { start: start as int },
        Scan::VarEq { start, ident_end } => LexState::VarEq {
            start: start as int,
            ident_end: ident_end as int,
        },
        Scan::VarNeg { start, ident_end } => LexState::VarNeg {
            start: start as int,
            ident_end: ident_end as int,
        },
        Scan::VarNum { start, ident_end, neg, digits_start, .. } => LexState::VarNum {
            start: start as int,
            ident_end: ident_end as int,
            neg,
            digits_start: digits_start as int,
        },
        Scan::Failed => LexState::Failed,
    }
}

/// The executable state's bookkeeping, after `i` characters of `s`: its
/// positions are ordered and within bounds, and its running value agrees
/// with the digit run it has read.
spec fn scan_ok(sc: Scan, s: Seq<char>, i: int) -> bool {
    match sc {
        Scan::Start => true,
        Scan::Failed => true,
        Scan::Word { start } => 0 <= start <= i,
        Scan::Num { start, val, over } => {
            &&& 0 <= start <= i
            &&& (over <==> digits_val(s, start as int, i) > u32::MAX)
            &&& (!over ==> val == digits_val(s, start as int, i))
        },
        Scan::VarEq { start, ident_end } => 0 <= start <= ident_end <= i,
        Scan::VarNeg { start, ident_end } => 0 <= start <= ident_end <= i,
        Scan::VarNum { start, ident_end, neg, digits_start, mag, over } => {
            &&& 0 <= start <= ident_end <= digits_start <= i
            &&& (over <==> digits_val(s, digits_start as int, i) > u32::MAX)
            &&& (!over ==> mag == digits_val(s, digits_start as int, i))
        },
    }
}

fn e_is_space(c: char) -> (r: bool)
    ensures
        r == is_space(c),
{
    c == ' ' || c == '\t' || c == '\n' || c == '\u{c}'
}

fn e_is_digit(c: char) -> (r: bool)
    ensures
        r == is_digit(c),
{
    let u = c as u32;
    48 <= u && u <= 57
}

fn e_word_start(c: char) -> (r: bool)
    ensures
        r == is_word_start(c),
{
    let u = c as u32;
    (65 <= u && u <= 90) || (97 <= u && u <= 122) || c == '_' || c == '-'
}

fn e_word_cont(c: char) -> (r: bool)
    ensures
        r == is_word_cont(c),
{
    let u = c as u32;
    (65 <= u && u <= 90) || (97 <= u && u <= 122) || (48 <= u && u <= 57) || c == '_' || c == '-'
}

fn e_punct(c: char) -> (r: Option<Token>)
    ensures
        match r {
            Some(t) => punct_tok(c) == Some(t@),
            None => punct_tok(c) is None,
        },
{
    if c == '{' {
        Some(Token::OpenBrace)
    } else if c == '}' {
        Some(Token::CloseBrace)
    } else if c == '[' {
        Some(Token::OpenBracket)
    } else if c == ']' {
        Some(Token::CloseBracket)
    } else if c == ',' {
        Some(Token::Comma)
    } else if c == ';' {
        Some(Token::Semicolon)
    } else if c == ':' {
        Some(Token::Colon)
    } else {
        None
    }
}

fn e_is_prim_name(w: &str) -> (r: bool)
    ensures
        r == is_prim_name(w@),
{
    ||| crate::text::str_eq(w, "bool")
    ||| crate::text::str_eq(w, "char")
    ||| crate::text::str_eq(w, "int8")
    ||| crate::text::str_eq(w, "int16")
    ||| crate::text::str_eq(w, "int32")
    ||| crate::text::str_eq(w, "int64")
    ||| crate::text::str_eq(w, "uint8")
    ||| crate::text::str_eq(w, "uint16")
    ||| crate::text::str_eq(w, "uint32")
    ||| crate::text::str_eq(w, "uint64")
    ||| crate::text::str_eq(w, "float32")
    ||| crate::text::str_eq(w, "float64")
    ||| crate::text::str_eq(w, "float")
    ||| crate::text::str_eq(w, "double")
}

/// Classifies a finished word as keyword, type name or identifier.
fn classify_word(w: &str) -> (t: Token)
    ensures
        t@ == word_tok(w@),
{
    if crate::text::str_eq(w, "enum") {
        Token::EnumKeyword
    } else if e_is_prim_name(w) {
        Token::TypeName(w.to_owned())
    } else {
        Token::Ident(w.to_owned())
    }
}

/// Handles the character `s[i]` from the `Start` state, pushing a
/// punctuation token when one is read.
fn start_scan(Ghost(s): Ghost<Seq<char>>, c: char, i: usize, out: &mut Vec<Token>) -> (sc: Scan)
    requires
        i < s.len(),
        c == s[i as int],
    ensures
        ({
            let f = start_step(s, toks_view(old(out)@), i as int);
            &&& scan_view(sc) == f.st
            &&& toks_view(final(out)@) == f.toks
            &&& scan_ok(sc, s, i + 1)
        }),
{
    if e_is_space(c) {
        Scan::Start
    } else {
        let p = e_punct(c);
        match p {
            Some(t) => {
                let ghost tv = t@;
                out.push(t);
                proof {
                    assert(toks_view(out@) =~= toks_view(old(out)@).push(tv));
                }
                Scan::Start
            },
            None => {
                if e_is_digit(c) {
                    let d = c as u32 - 48;
                    let sc = Scan::Num { start: i, val: d, over: false };
                    proof {
                        assert(digits_val(s, i as int, i + 1) == digits_val(s, i as int, i as int)
                            * 10 + (s[i as int] as u32 - 48));
                    }
                    sc
                } else if e_word_start(c) {
                    Scan::Word { start: i }
                } else {
                    Scan::Failed
                }
            },
        }
    }
}

/// Extends a digit run's running value by the digit `c`, tracking
/// overflow past the 32-bit range.
fn extend_digits(
    Ghost(s): Ghost<Seq<char>>,
    Ghost(dstart): Ghost<int>,
    Ghost(i): Ghost<int>,
    c: char,
    val: u32,
    over: bool,
) -> (r: (u32, bool))
    requires
        is_digit(c),
        0 <= dstart <= i < s.len(),
        c == s[i],
        over <==> digits_val(s, dstart, i) > u32::MAX,
        !over ==> val == digits_val(s, dstart, i),
    ensures
        r.1 <==> digits_val(s, dstart, i + 1) > u32::MAX,
        !r.1 ==> r.0 == digits_val(s, dstart, i + 1),
{
    let d = c as u32 - 48;
    proof {
        assert(digits_val(s, dstart, i + 1) == digits_val(s, dstart, i) * 10 + (s[i] as u32 - 48));
        if over {
            let prev = digits_val(s, dstart, i);
            assert(prev * 10 + (s[i] as u32 - 48) >= prev);
        }
    }
    if over {
        (0, true)
    } else {
        let nv: u64 = (val as u64) * 10 + (d as u64);
        if nv > 0xffff_ffffu64 {
            (0, true)
        } else {
            (nv as u32, false)
        }
    }
}

/// Closes a pending variant token: the magnitude must fit the signed
/// 8-bit range, under the sign read before the digits.
fn close_variant(
    schema: &str,
    Ghost(i): Ghost<int>,
    start: usize,
    ident_end: usize,
    neg: bool,
    digits_start: usize,
    mag: u32,
    over: bool,
    out: &mut Vec<Token>,
) -> (ok: bool)
    requires
        0 <= start <= ident_end <= digits_start <= i <= schema@.len(),
        over <==> digits_val(schema@, digits_start as int, i) > u32::MAX,
        !over ==> mag == digits_val(schema@, digits_start as int, i),
    ensures
        ({
            let closed = close_var(
                schema@,
                toks_view(old(out)@),
                start as int,
                ident_end as int,
                neg,
                digits_start as int,
                i,
            );
            if ok {
                closed == Some(toks_view(final(out)@))
            } else {
                closed is None && final(out)@ == old(out)@
            }
        }),
{
    if over {
        return false;
    }
    if neg {
        if mag > 128 {
            return false;
        }
        let v: i8 = (-(mag as i32)) as i8;
        let name = schema.substring_char(start, ident_end);
        let t = Token::EnumVariant(name.to_owned(), v);
        let ghost tv = t@;
        out.push(t);
        proof {
            assert(toks_view(out@) =~= toks_view(old(out)@).push(tv));
        }
        true
    } else {
        if mag > 127 {
            return false;
        }
        let v: i8 = mag as i8;
        let name = schema.substring_char(start, ident_end);
        let t = Token::EnumVariant(name.to_owned(), v);
        let ghost tv = t@;
        out.push(t);
        proof {
            assert(toks_view(out@) =~= toks_view(old(out)@).push(tv));
        }
        true
    }
}

/// Cuts schema text into tokens; `None` when any part of it is
/// unlexable, which callers treat as a failed parse.
pub fn lex_schema(schema: &str) -> (r: Option<Vec<Token>>)
    ensures
        match r {
            Some(v) => spec_lex(schema@) == Some(toks_view(v@)),
            None => spec_lex(schema@) is None,
        },
{
    let ghost s = schema@;
    let len = schema.unicode_len();
    let mut out: Vec<Token> = Vec::new();
    let mut sc = Scan::Start;
    let mut i: usize = 0;
    proof {
        assert(toks_view(out@) =~= Seq::<SpecTok>::empty());
    }
    while i < len
        invariant
            len == s.len(),
            s == schema@,
            0 <= i <= len,
            scan_ok(sc, s, i as int),
            lex_fold(s, i as int) == (LexFold { st: scan_view(sc), toks: toks_view(out@) }),
        decreases len - i,
    {
        let c = schema.get_char(i);
        let ghost fprev = lex_fold(s, i as int);
        proof {
            assert(lex_fold(s, i + 1) == lex_step(s, fprev, i as int));
        }
        match sc {
            Scan::Failed => {},
            Scan::Start => {
                sc = start_scan(Ghost(s), c, i, &mut out);
            },
            Scan::Word { start } => {
                if e_word_cont(c) {
                } else if c == '=' {
                    sc = Scan::VarEq { start, ident_end: i };
                } else {
                    let w = schema.substring_char(start, i);
                    let t = classify_word(w);
                    let ghost tv = t@;
                    out.push(t);
                    proof {
                        assert(toks_view(out@) =~= fprev.toks.push(tv));
                    }
                    sc = start_scan(Ghost(s), c, i, &mut out);
                }
            },
            Scan::Num { start, val, over } => {
                if e_is_digit(c) {
                    let (nv, nover) = extend_digits(
                        Ghost(s),
                        Ghost(start as int),
                        Ghost(i as int),
                        c,
                        val,
                        over,
                    );
                    sc = Scan::Num { start, val: nv, over: nover };
                } else {
                    if over {
                        sc = Scan::Failed;
                    } else {
                        out.push(Token::Integer(val));
                        proof {
                            assert(toks_view(out@) =~= fprev.toks.push(SpecTok::Integer(val)));
                        }
                        sc = start_scan(Ghost(s), c, i, &mut out);
                    }
                }
            },
            Scan::VarEq { start, ident_end } => {
                if c == '-' {
                    sc = Scan::VarNeg { start, ident_end };
                } else if e_is_digit(c) {
                    let d = c as u32 - 48;
                    sc = Scan::VarNum {
                        start,
                        ident_end,
                        neg: false,
                        digits_start: i,
                        mag: d,
                        over: false,
                    };
                    proof {
                        assert(digits_val(s, i as int, i + 1) == digits_val(s, i as int, i as int)
                            * 10 + (s[i as int] as u32 - 48));
                    }
                } else {
                    sc = Scan::Failed;
                }
            },
            Scan::VarNeg { start, ident_end } => {
                if e_is_digit(c) {
                    let d = c as u32 - 48;
                    sc = Scan::VarNum {
                        start,
                        ident_end,
                        neg: true,
                        digits_start: i,
                        mag: d,
                        over: false,
                    };
                    proof {
                        assert(digits_val(s, i as int, i + 1) == digits_val(s, i as int, i as int)
                            * 10 + (s[i as int] as u32 - 48));
                    }
                } else {
                    sc = Scan::Failed;
                }
            },
            Scan::VarNum { start, ident_end, neg, digits_start, mag, over } => {
                if e_is_digit(c) {
                    let (nv, nover) = extend_digits(
                        Ghost(s),
                        Ghost(digits_start as int),
                        Ghost(i as int),
                        c,
                        mag,
                        over,
                    );
                    sc = Scan::VarNum { start, ident_end, neg, digits_start, mag: nv, over: nover };
                } else {
                    let ok = close_variant(
                        schema,
                        Ghost(i as int),
                        start,
                        ident_end,
                        neg,
                        digits_start,
                        mag,
                        over,
                        &mut out,
                    );
                    if ok {
                        sc = start_scan(Ghost(s), c, i, &mut out);
                    } else {
                        sc = Scan::Failed;
                    }
                }
            },
        }
        i += 1;
    }
    match sc {
        Scan::Failed => None,
        Scan::Start => Some(out),
        Scan::Word { start } => {
            let w = schema.substring_char(start, len);
            let t = classify_word(w);
            let ghost tv = t@;
            out.push(t);
            proof {
                assert(toks_view(out@) =~= lex_fold(s, len as int).toks.push(tv));
            }
            Some(out)
        },
        Scan::Num { start, val, over } => {
            if over {
                None
            } else {
                out.push(Token::Integer(val));
                proof {
                    assert(toks_view(out@) =~= lex_fold(s, len as int).toks.push(
                        SpecTok::Integer(val),
                    ));
                }
                Some(out)
            }
        },
        Scan::VarEq { .. } => None,
        Scan::VarNeg { .. } => None,
        Scan::VarNum { start, ident_end, neg, digits_start, mag, over } => {
            let ok = close_variant(
                schema,
                Ghost(len as int),
                start,
                ident_end,
                neg,
                digits_start,
                mag,
                over,
                &mut out,
            );
            if ok {
                Some(out)
            } else {
                None
            }
        },
    }
}

} // verus!
