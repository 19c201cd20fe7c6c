//! The token model of the invocation grammars: the shape an invocation's
//! argument stream takes before parsing, and its canonical rendering.

use vstd::prelude::*;

verus! {

/// The delimiter of a token group.
#[derive(Clone, Copy, PartialEq, Eq, Structural, Debug)]
pub enum Delim {
    Paren,
    Bracket,
    Brace,
}

/// One token of an invocation argument stream.  Joint punctuation that the
/// grammars treat as one unit (`::`, `->`, lifetimes) arrives pre-merged.
#[derive(Debug)]
pub enum Tok {
    Ident(String),
    LitStr(String),
    Lifetime(String),
    PathSep,
    Arrow,
    Punct(char),
    Group(Delim, Vec<Tok>),
}

/// The opening character of a delimiter.
pub open spec fn open_text(d: Delim) -> Seq<char> {
    match d {
        Delim::Paren => "("@,
        Delim::Bracket => "["@,
        Delim::Brace => "{"@,
    }
}

/// The closing character of a delimiter.
pub open spec fn close_text(d: Delim) -> Seq<char> {
    match d {
        Delim::Paren => ")"@,
        Delim::Bracket => "]"@,
        Delim::Brace => "}"@,
    }
}

/// The canonical text of one token.
pub open spec fn tok_text(t: Tok) -> Seq<char>
    decreases t,
{
    match t {
        Tok::Ident(s) => s@,
        Tok::LitStr(s) => "\""@ + s@ + "\""@,
        Tok::Lifetime(s) => "'"@ + s@,
        Tok::PathSep => "::"@,
        Tok::Arrow => "->"@,
        Tok::Punct(c) => seq![c],
        Tok::Group(d, ts) => open_text(d) + toks_text(ts@) + close_text(d),
    }
}

/// The canonical text of a token sequence: the tokens' texts joined by
/// single spaces.
pub open spec fn toks_text(ts: Seq<Tok>) -> Seq<char>
    decreases ts,
{
    if ts.len() == 0 {
        Seq::empty()
    } else if ts.len() == 1 {
        tok_text(ts[0])
    } else {
        tok_text(ts[0]) + " "@ + toks_text(ts.drop_first())
    }
}

/// Render one token.
pub fn render_tok(t: &Tok) -> (r: String)
    ensures
        r@ == tok_text(*t),
    decreases *t,
{
    match t {
        Tok::Ident(s) => s.clone(),
        Tok::LitStr(s) => "\"".to_owned().concat(s.as_str()).concat("\""),
        Tok::Lifetime(s) => "'".to_owned().concat(s.as_str()),
        Tok::PathSep => "::".to_owned(),
        Tok::Arrow => "->".to_owned(),
        Tok::Punct(c) => crate::foreign::char_to_string(*c),
        Tok::Group(d, ts) => {
            let open: &'static str = match d {
                Delim::Paren => "(",
                Delim::Bracket => "[",
                Delim::Brace => "{",
            };
            let close: &'static str = match d {
                Delim::Paren => ")",
                Delim::Bracket => "]",
                Delim::Brace => "}",
            };
            let inner = render_slice(ts, 0, ts.len());
            proof {
                assert(ts@.subrange(0, ts@.len() as int) =~= ts@);
            }
            open.to_owned().concat(inner.as_str()).concat(close)
        },
    }
}

/// Render the tokens from `a` (inclusive) to `b` (exclusive).
pub fn render_slice(ts: &Vec<Tok>, a: usize, b: usize) -> (r: String)
    requires
        a <= b <= ts@.len(),
    ensures
        r@ == toks_text(ts@.subrange(a as int, b as int)),
    decreases ts@, b - a,
{
    let ghost part: Seq<Tok> = ts@.subrange(a as int, b as int);
    if a >= b {
        String::new()
    } else if a + 1 == b {
        proof {
            assert(part[0] == ts@[a as int]);
        }
        render_tok(&ts[a])
    } else {
        let head = render_tok(&ts[a]);
        let rest = render_slice(ts, a + 1, b);
        proof {
            assert(part[0] == ts@[a as int]);
            assert(part.drop_first() =~= ts@.subrange(a + 1, b as int));
        }
        head.concat(" ").concat(rest.as_str())
    }
}

/// Render a whole token sequence.
pub fn render_toks(ts: &Vec<Tok>) -> (r: String)
    ensures
        r@ == toks_text(ts@),
{
    let r = render_slice(ts, 0, ts.len());
    proof {
        assert(ts@.subrange(0, ts@.len() as int) =~= ts@);
    }
    r
}

} // verus!
