use vstd::prelude::*;

verus! {

/// The four kinds of token that generated source text is made of.
#[derive(Clone, Copy, PartialEq, Eq, Structural, Debug)]
pub enum TokenKind {
    /// A name or a keyword.
    Ident,
    /// A lifetime, with its leading quote (`'a`).
    Lifetime,
    /// Punctuation (`::`, `<`, `,`, `{`, ...).
    Punct,
    /// A literal, such as the position of a field.
    Literal,
}

/// One token of Rust source text.
pub struct Token {
    pub kind: TokenKind,
    pub text: String,
}

impl View for Token {
    type V = (TokenKind, Seq<char>);

    open spec fn view(&self) -> (TokenKind, Seq<char>) {
        (self.kind, self.text@)
    }
}

/// The tokens of a sequence, as kinds and texts.
pub open spec fn toks(v: Seq<Token>) -> Seq<(TokenKind, Seq<char>)> {
    v.map_values(|t: Token| t@)
}

/// The pieces `f(0)`, ..., `f(n - 1)`, one after the other.
pub open spec fn concat_map<A>(n: nat, f: spec_fn(int) -> Seq<A>) -> Seq<A>
    decreases n,
{
    if n == 0 {
        Seq::empty()
    } else {
        concat_map((n - 1) as nat, f) + f(n - 1)
    }
}

pub open spec fn ident(s: Seq<char>) -> (TokenKind, Seq<char>) {
    (TokenKind::Ident, s)
}

pub open spec fn punct(s: Seq<char>) -> (TokenKind, Seq<char>) {
    (TokenKind::Punct, s)
}

pub open spec fn lifetime(s: Seq<char>) -> (TokenKind, Seq<char>) {
    (TokenKind::Lifetime, s)
}

pub open spec fn literal(s: Seq<char>) -> (TokenKind, Seq<char>) {
    (TokenKind::Literal, s)
}

/// The decimal digit `d`.
pub open spec fn digit_char(d: nat) -> char {
    "0123456789"@[d as int]
}

/// `n` written in decimal, without leading zeros.
pub open spec fn decimal(n: nat) -> Seq<char>
    decreases n,
{
    if n < 10 {
        seq![digit_char(n)]
    } else {
        decimal(n / 10) + seq![digit_char(n % 10)]
    }
}

/// The text of the tokens, each followed by one space.
pub open spec fn render_spec(ts: Seq<(TokenKind, Seq<char>)>) -> Seq<char> {
    concat_map(ts.len(), |i: int| ts[i].1 + " "@)
}

pub proof fn lemma_toks_push(v: Seq<Token>, t: Token)
    ensures
        toks(v.push(t)) == toks(v).push(t@),
{
    assert(toks(v.push(t)) =~= toks(v).push(t@));
}

fn digit_str(d: usize) -> (r: &'static str)
    requires
        d < 10,
    ensures
        r@ == seq![digit_char(d as nat)],
{
    proof {
        reveal_strlit("0123456789");
    }
    match d {
        0 => {
            proof { reveal_strlit("0"); }
            "0"
        },
        1 => {
            proof { reveal_strlit("1"); }
            "1"
        },
        2 => {
            proof { reveal_strlit("2"); }
            "2"
        },
        3 => {
            proof { reveal_strlit("3"); }
            "3"
        },
        4 => {
            proof { reveal_strlit("4"); }
            "4"
        },
        5 => {
            proof { reveal_strlit("5"); }
            "5"
        },
        6 => {
            proof { reveal_strlit("6"); }
            "6"
        },
        7 => {
            proof { reveal_strlit("7"); }
            "7"
        },
        8 => {
            proof { reveal_strlit("8"); }
            "8"
        },
        _ => {
            proof { reveal_strlit("9"); }
            "9"
        },
    }
}

/// Writes `n` in decimal.
pub fn decimal_string(n: usize) -> (r: String)
    ensures
        r@ == decimal(n as nat),
    decreases n,
{
    if n < 10 {
        String::from_str(digit_str(n))
    } else {
        let mut s: String = decimal_string(n / 10);
        s.append(digit_str(n % 10));
        s
    }
}

/// The name `prefix` followed by the decimal `n` (`T0`, `'a1`).
pub open spec fn numbered(prefix: Seq<char>, n: nat) -> Seq<char> {
    prefix + decimal(n)
}

pub fn numbered_string(prefix: &str, n: usize) -> (r: String)
    ensures
        r@ == numbered(prefix@, n as nat),
{
    let mut s: String = String::from_str(prefix);
    let d: String = decimal_string(n);
    s.append(d.as_str());
    s
}

/// Appends a token of the given kind and text.
pub fn push_token(out: &mut Vec<Token>, kind: TokenKind, text: String)
    ensures
        toks(final(out)@) == toks(old(out)@).push((kind, text@)),
{
    let t = Token { kind, text };
    proof {
        lemma_toks_push(out@, t);
    }
    out.push(t);
}

/// Appends a punctuation token.
pub fn push_punct(out: &mut Vec<Token>, s: &str)
    ensures
        toks(final(out)@) == toks(old(out)@).push(punct(s@)),
{
    push_token(out, TokenKind::Punct, String::from_str(s));
}

/// Appends a word token.
pub fn push_ident(out: &mut Vec<Token>, s: &str)
    ensures
        toks(final(out)@) == toks(old(out)@).push(ident(s@)),
{
    push_token(out, TokenKind::Ident, String::from_str(s));
}

/// Writes the tokens as source text, each followed by one space.
pub fn render(ts: &Vec<Token>) -> (r: String)
    ensures
        r@ == render_spec(toks(ts@)),
{
    let mut s: String = String::new();
    let mut i: usize = 0;
    while i < ts.len()
        invariant
            i <= ts@.len(),
            s@ == concat_map(i as nat, |k: int| toks(ts@)[k].1 + " "@),
        decreases ts@.len() - i,
    {
        s.append(ts[i].text.as_str());
        s.append(" ");
        i += 1;
    }
    s
}

} // verus!
