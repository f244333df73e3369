use crate::shape::Generics;
use crate::token::{
    ident,
    lifetime,
    numbered,
    numbered_string,
    punct,
    toks,
    Token,
    TokenKind,
    lemma_toks_push,
};
use vstd::prelude::*;

verus! {

/// The texts of a sequence of strings.
pub open spec fn strs(v: Seq<String>) -> Seq<Seq<char>> {
    v.map_values(|s: String| s@)
}

/// The names of the lifetime parameters, in declared order.
pub open spec fn lifetime_names(g: Generics) -> Seq<Seq<char>> {
    g.lifetimes@.map_values(|l: crate::shape::LifetimeParam| l.name@)
}

/// The names of the type parameters, in declared order.
pub open spec fn param_names(g: Generics) -> Seq<Seq<char>> {
    g.type_params@.map_values(|p: crate::shape::TypeParam| p.name@)
}

/// `i` is the first position of `x` in `names`.
pub open spec fn first_at(names: Seq<Seq<char>>, x: Seq<char>, i: int) -> bool {
    &&& 0 <= i < names.len()
    &&& names[i] == x
    &&& forall|j: int| 0 <= j < i ==> names[j] != x
}

/// `x` renamed: `prefix` and its first position in `names` where it is one of
/// them, `x` itself where it is not.
pub open spec fn rename(names: Seq<Seq<char>>, prefix: Seq<char>, x: Seq<char>) -> Seq<char> {
    if exists|i: int| first_at(names, x, i) {
        numbered(prefix, (choose|i: int| first_at(names, x, i)) as nat)
    } else {
        x
    }
}

/// A token that can follow the first segment of a path that goes on or has
/// arguments, or the name of an associated type binding.
pub open spec fn extends_path(t: (TokenKind, Seq<char>)) -> bool {
    t == punct("::"@) || t == punct("<"@) || t == punct("("@) || t == punct("="@)
}

/// The word at `k` is a whole path of one segment without arguments: no `::`
/// stands before it, and nothing after it goes on with the path.
pub open spec fn bare_at(ts: Seq<(TokenKind, Seq<char>)>, k: int) -> bool {
    &&& ts[k].0 == TokenKind::Ident
    &&& !(k > 0 && ts[k - 1] == punct("::"@))
    &&& !(k + 1 < ts.len() && extends_path(ts[k + 1]))
}

/// The token at `k` after renaming: declared lifetimes become `lp` and their
/// position, bare references to declared type parameters become `tp` and
/// their position, and every other token stays.
pub open spec fn rename_token(
    ts: Seq<(TokenKind, Seq<char>)>,
    k: int,
    g: Generics,
    lp: Seq<char>,
    tp: Seq<char>,
) -> (TokenKind, Seq<char>) {
    if ts[k].0 == TokenKind::Lifetime {
        lifetime(rename(lifetime_names(g), lp, ts[k].1))
    } else if bare_at(ts, k) {
        ident(rename(param_names(g), tp, ts[k].1))
    } else {
        ts[k]
    }
}

/// The tokens `ts` with every token renamed.
pub open spec fn renamed(ts: Seq<(TokenKind, Seq<char>)>, g: Generics, lp: Seq<char>, tp: Seq<char>) -> Seq<
    (TokenKind, Seq<char>),
> {
    Seq::new(ts.len(), |k: int| rename_token(ts, k, g, lp, tp))
}

pub proof fn lemma_first_at_unique(names: Seq<Seq<char>>, x: Seq<char>, i: int, j: int)
    requires
        first_at(names, x, i),
        first_at(names, x, j),
    ensures
        i == j,
{
}

/// Renames `x` against `names`.
pub fn rename_name(names: &Vec<String>, prefix: &str, x: &String) -> (r: String)
    ensures
        r@ == rename(strs(names@), prefix@, x@),
{
    let ghost ns = strs(names@);
    let mut i: usize = 0;
    while i < names.len()
        invariant
            i <= names@.len(),
            ns == strs(names@),
            forall|j: int| 0 <= j < i ==> ns[j] != x@,
        decreases names@.len() - i,
    {
        if names[i] == *x {
            proof {
                assert(first_at(ns, x@, i as int));
                let c = choose|c: int| first_at(ns, x@, c);
                lemma_first_at_unique(ns, x@, i as int, c);
            }
            return numbered_string(prefix, i);
        }
        i += 1;
    }
    proof {
        assert(!exists|c: int| first_at(ns, x@, c));
    }
    x.clone()
}

/// The names of the lifetime parameters.
pub fn lifetime_name_list(g: &Generics) -> (r: Vec<String>)
    ensures
        strs(r@) == lifetime_names(*g),
{
    let mut r: Vec<String> = Vec::new();
    let mut i: usize = 0;
    while i < g.lifetimes.len()
        invariant
            i <= g.lifetimes@.len(),
            r@.len() == i,
            forall|j: int| 0 <= j < i ==> #[trigger] r@[j]@ == g.lifetimes@[j].name@,
        decreases g.lifetimes@.len() - i,
    {
        r.push(g.lifetimes[i].name.clone());
        i += 1;
    }
    assert(strs(r@) =~= lifetime_names(*g));
    r
}

/// The names of the type parameters.
pub fn param_name_list(g: &Generics) -> (r: Vec<String>)
    ensures
        strs(r@) == param_names(*g),
{
    let mut r: Vec<String> = Vec::new();
    let mut i: usize = 0;
    while i < g.type_params.len()
        invariant
            i <= g.type_params@.len(),
            r@.len() == i,
            forall|j: int| 0 <= j < i ==> #[trigger] r@[j]@ == g.type_params@[j].name@,
        decreases g.type_params@.len() - i,
    {
        r.push(g.type_params[i].name.clone());
        i += 1;
    }
    assert(strs(r@) =~= param_names(*g));
    r
}

/// `t` is the punctuation `s`.
pub fn is_punct(t: &Token, s: &str) -> (b: bool)
    ensures
        b == (t@ == punct(s@)),
{
    t.kind == TokenKind::Punct && t.text == String::from_str(s)
}

/// The renaming of one generation pass: the declaration whose parameters it
/// renames, their names, and the prefixes that lifetimes and type parameters get.
pub struct Renaming<'a> {
    pub declared: &'a Generics,
    pub lifetimes: Vec<String>,
    pub params: Vec<String>,
    pub lifetime_prefix: &'static str,
    pub param_prefix: &'static str,
}

impl<'a> Renaming<'a> {
    /// The names held are those of the declared parameters, in order.
    pub open spec fn wf(&self) -> bool {
        &&& strs(self.lifetimes@) == lifetime_names(*self.declared)
        &&& strs(self.params@) == param_names(*self.declared)
    }

    /// What this renaming makes of the tokens `ts`.
    pub open spec fn spec_renamed(&self, ts: Seq<(TokenKind, Seq<char>)>) -> Seq<(TokenKind, Seq<char>)> {
        renamed(ts, *self.declared, self.lifetime_prefix@, self.param_prefix@)
    }

    pub fn new(declared: &'a Generics, lifetime_prefix: &'static str, param_prefix: &'static str) -> (r:
        Renaming<'a>)
        ensures
            r.wf(),
            r.declared == declared,
            r.lifetime_prefix == lifetime_prefix,
            r.param_prefix == param_prefix,
    {
        Renaming {
            declared,
            lifetimes: lifetime_name_list(declared),
            params: param_name_list(declared),
            lifetime_prefix,
            param_prefix,
        }
    }

    /// Renames a lifetime.
    pub fn lifetime(&self, x: &String) -> (r: String)
        requires
            self.wf(),
        ensures
            r@ == rename(lifetime_names(*self.declared), self.lifetime_prefix@, x@),
    {
        rename_name(&self.lifetimes, self.lifetime_prefix, x)
    }

    /// Renames the token at `k` of `ts`.
    pub fn token(&self, ts: &Vec<Token>, k: usize) -> (r: Token)
        requires
            self.wf(),
            k < ts@.len(),
        ensures
            r@ == rename_token(toks(ts@), k as int, *self.declared, self.lifetime_prefix@, self.param_prefix@),
    {
        let t = &ts[k];
        let n: usize = ts.len();
        let after: bool = k + 1 < n && (is_punct(&ts[k + 1], "::") || is_punct(&ts[k + 1], "<")
            || is_punct(&ts[k + 1], "(") || is_punct(&ts[k + 1], "="));
        let before: bool = k > 0 && is_punct(&ts[k - 1], "::");
        if t.kind == TokenKind::Lifetime {
            Token { kind: TokenKind::Lifetime, text: self.lifetime(&t.text) }
        } else if t.kind == TokenKind::Ident && !before && !after {
            Token {
                kind: TokenKind::Ident,
                text: rename_name(&self.params, self.param_prefix, &t.text),
            }
        } else {
            Token { kind: t.kind, text: t.text.clone() }
        }
    }

    /// Appends the tokens `ts`, renamed.
    pub fn push_renamed(&self, out: &mut Vec<Token>, ts: &Vec<Token>)
        requires
            self.wf(),
        ensures
            toks(final(out)@) == toks(old(out)@) + self.spec_renamed(toks(ts@)),
    {
        let ghost start = toks(out@);
        let ghost whole = self.spec_renamed(toks(ts@));
        let mut k: usize = 0;
        while k < ts.len()
            invariant
                self.wf(),
                k <= ts@.len(),
                whole == self.spec_renamed(toks(ts@)),
                toks(out@) == start + whole.subrange(0, k as int),
            decreases ts@.len() - k,
        {
            let t = self.token(ts, k);
            proof {
                lemma_toks_push(out@, t);
            }
            out.push(t);
            k += 1;
            assert(toks(out@) =~= start + whole.subrange(0, k as int));
        }
        assert(whole.subrange(0, k as int) =~= whole);
    }
}

} // verus!
