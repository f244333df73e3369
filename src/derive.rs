use crate::rename::{lifetime_names, rename, Renaming};
use crate::shape::{Field, Fields, Generics, Kind, TypeShape, Variant};
use crate::token::{
    concat_map,
    decimal,
    decimal_string,
    ident,
    lemma_toks_push,
    lifetime,
    literal,
    numbered,
    numbered_string,
    push_ident,
    push_punct,
    push_token,
    render,
    render_spec,
    punct,
    toks,
    Token,
    TokenKind,
};
use vstd::prelude::*;

verus! {

/// Tokens, as kinds and texts.
pub type Toks = Seq<(TokenKind, Seq<char>)>;

/// A path into this library: `::serde_roundtrip::name`.
pub open spec fn lib_path(name: Seq<char>) -> Toks {
    seq![punct("::"@), ident("serde_roundtrip"@), punct("::"@), ident(name)]
}

/// The bound that says a type can be decoded.
pub open spec fn decode_bound() -> Toks {
    seq![punct("::"@), ident("serde"@), punct("::"@), ident("de"@), punct("::"@), ident("DeserializeOwned"@)]
}

/// `.round_trip()`
pub open spec fn call_round_trip() -> Toks {
    seq![punct("."@), ident("round_trip"@), punct("("@), punct(")"@)]
}

// Parameter lists.

/// The bounds of the `i`-th lifetime, renamed, each followed by `+`.
pub open spec fn lifetime_bounds(g: Generics, i: int, lp: Seq<char>) -> Toks {
    concat_map(
        g.lifetimes@[i].bounds@.len(),
        |j: int| seq![lifetime(rename(lifetime_names(g), lp, g.lifetimes@[i].bounds@[j]@)), punct("+"@)],
    )
}

/// The `i`-th lifetime renamed, with its bounds: `'a0 : 'a1 + ,`.
pub open spec fn lifetime_def(g: Generics, i: int, lp: Seq<char>) -> Toks {
    seq![lifetime(numbered(lp, i as nat)), punct(":"@)] + lifetime_bounds(g, i, lp) + seq![punct(","@)]
}

/// Every lifetime renamed, with its bounds.
pub open spec fn lifetime_defs(g: Generics, lp: Seq<char>) -> Toks {
    concat_map(g.lifetimes@.len(), |i: int| lifetime_def(g, i, lp))
}

/// The declared bounds of the `i`-th type parameter, renamed, each followed by `+`.
pub open spec fn param_bounds(g: Generics, i: int, lp: Seq<char>, tp: Seq<char>) -> Toks {
    concat_map(
        g.type_params@[i].bounds@.len(),
        |j: int| crate::rename::renamed(toks(g.type_params@[i].bounds@[j]@), g, lp, tp) + seq![punct("+"@)],
    )
}

/// The `i`-th source parameter: its bounds and the relation to its target
/// parameter (`S0 : Clone + ::serde_roundtrip::RoundTrip<T0> ,`).
pub open spec fn source_param(g: Generics, i: int) -> Toks {
    seq![ident(numbered("S"@, i as nat)), punct(":"@)] + param_bounds(g, i, "'a"@, "S"@) + lib_path(
        "RoundTrip"@,
    ) + seq![punct("<"@), ident(numbered("T"@, i as nat)), punct(">"@), punct(","@)]
}

/// The `i`-th target parameter: its bounds and decoding (`T0 : Clone + ::serde::de::DeserializeOwned ,`).
pub open spec fn target_param(g: Generics, i: int) -> Toks {
    seq![ident(numbered("T"@, i as nat)), punct(":"@)] + param_bounds(g, i, "'b"@, "T"@) + decode_bound()
        + seq![punct(","@)]
}

pub open spec fn source_params(g: Generics) -> Toks {
    concat_map(g.type_params@.len(), |i: int| source_param(g, i))
}

pub open spec fn target_params(g: Generics) -> Toks {
    concat_map(g.type_params@.len(), |i: int| target_param(g, i))
}

/// The arguments of the renamed type: lifetimes, then type parameters.
pub open spec fn type_args(g: Generics, lp: Seq<char>, tp: Seq<char>) -> Toks {
    concat_map(g.lifetimes@.len(), |i: int| seq![lifetime(numbered(lp, i as nat)), punct(","@)])
        + concat_map(g.type_params@.len(), |i: int| seq![ident(numbered(tp, i as nat)), punct(","@)])
}

/// The declared type with renamed arguments (`Foo < 'b0 , T0 , >`), or its
/// bare name where it has no parameters.
pub open spec fn type_path(name: Seq<char>, g: Generics, lp: Seq<char>, tp: Seq<char>) -> Toks {
    if g.lifetimes@.len() + g.type_params@.len() == 0 {
        seq![ident(name)]
    } else {
        seq![ident(name), punct("<"@)] + type_args(g, lp, tp) + seq![punct(">"@)]
    }
}

/// The `where` predicates, renamed, each followed by `,`.
pub open spec fn where_preds(g: Generics, lp: Seq<char>, tp: Seq<char>) -> Toks {
    concat_map(
        g.where_clause@.len(),
        |j: int| crate::rename::renamed(toks(g.where_clause@[j]@), g, lp, tp) + seq![punct(","@)],
    )
}

// The transform.

/// `name : self . name . round_trip ( ) ,`
pub open spec fn record_field(f: Field) -> Toks {
    seq![ident(f.name@), punct(":"@), ident("self"@), punct("."@), ident(f.name@)] + call_round_trip()
        + seq![punct(","@)]
}

/// `self . j . round_trip ( ) ,`
pub open spec fn tuple_field(j: int) -> Toks {
    seq![ident("self"@), punct("."@), literal(decimal(j as nat))] + call_round_trip() + seq![punct(","@)]
}

/// The struct rebuilt with every field transformed, in declared order.
pub open spec fn struct_expr(name: Seq<char>, f: Fields) -> Toks {
    match f {
        Fields::Record(v) => seq![ident(name), punct("{"@)] + concat_map(
            v@.len(),
            |j: int| record_field(v@[j]),
        ) + seq![punct("}"@)],
        Fields::TupleLike(v) => seq![ident(name), punct("("@)] + concat_map(v@.len(), |j: int| tuple_field(j))
            + seq![punct(")"@)],
        Fields::Unit => seq![ident(name)],
    }
}

/// The name of the binder of the `j`-th positional field of a variant.
pub open spec fn binder(j: int) -> Seq<char> {
    numbered("x"@, j as nat)
}

/// `Name :: Variant`
pub open spec fn variant_path(name: Seq<char>, v: Variant) -> Toks {
    seq![ident(name), punct("::"@), ident(v.name@)]
}

/// The pattern that binds each field of the variant by reference.
pub open spec fn arm_pattern(name: Seq<char>, v: Variant) -> Toks {
    match v.fields {
        Fields::Record(fs) => variant_path(name, v) + seq![punct("{"@)] + concat_map(
            fs@.len(),
            |j: int| seq![ident("ref"@), ident(fs@[j].name@), punct(","@)],
        ) + seq![punct("}"@)],
        Fields::TupleLike(fs) => variant_path(name, v) + seq![punct("("@)] + concat_map(
            fs@.len(),
            |j: int| seq![ident("ref"@), ident(binder(j)), punct(","@)],
        ) + seq![punct(")"@)],
        Fields::Unit => variant_path(name, v),
    }
}

/// The same variant, rebuilt from its transformed fields.
pub open spec fn arm_expr(name: Seq<char>, v: Variant) -> Toks {
    match v.fields {
        Fields::Record(fs) => variant_path(name, v) + seq![punct("{"@)] + concat_map(
            fs@.len(),
            |j: int| seq![ident(fs@[j].name@), punct(":"@), ident(fs@[j].name@)] + call_round_trip() + seq![
                punct(","@),
            ],
        ) + seq![punct("}"@)],
        Fields::TupleLike(fs) => variant_path(name, v) + seq![punct("("@)] + concat_map(
            fs@.len(),
            |j: int| seq![ident(binder(j))] + call_round_trip() + seq![punct(","@)],
        ) + seq![punct(")"@)],
        Fields::Unit => variant_path(name, v),
    }
}

/// One arm of the dispatch: `pattern => expression ,`.
pub open spec fn arm(name: Seq<char>, v: Variant) -> Toks {
    arm_pattern(name, v) + seq![punct("=>"@)] + arm_expr(name, v) + seq![punct(","@)]
}

/// A dispatch with one arm for each variant, in declared order.
pub open spec fn match_expr(name: Seq<char>, vs: Seq<Variant>) -> Toks {
    seq![ident("match"@), punct("*"@), ident("self"@), punct("{"@)] + concat_map(
        vs.len(),
        |i: int| arm(name, vs[i]),
    ) + seq![punct("}"@)]
}

/// The expression that transforms `self`.
pub open spec fn transform_expr(s: TypeShape) -> Toks {
    match s.kind {
        Kind::Struct(f) => struct_expr(s.name@, f),
        Kind::Sum(vs) => match_expr(s.name@, vs@),
    }
}

// The two instances.

/// The generic parameters of the relation instance: source lifetimes, target
/// lifetimes, source parameters, target parameters, and `T`, bound to the
/// fully renamed target type.
pub open spec fn round_trip_generics(s: TypeShape) -> Toks {
    let g = s.generics;
    seq![punct("<"@)] + lifetime_defs(g, "'a"@) + lifetime_defs(g, "'b"@) + source_params(g) + target_params(g)
        + target_bound_open() + type_path(s.name@, g, "'b"@, "T"@) + seq![punct(">"@), punct(","@), punct(">"@)]
}

/// `T : ::serde_roundtrip::SameDeserialization < SameAs =`
pub open spec fn target_bound_open() -> Toks {
    seq![ident("T"@), punct(":"@)] + lib_path("SameDeserialization"@) + seq![punct("<"@), ident("SameAs"@), punct("="@)]
}

/// The `where` clause of the relation instance: the predicates on the source
/// side, then those on the target side; nothing where there are none.
pub open spec fn round_trip_where(g: Generics) -> Toks {
    if g.where_clause@.len() == 0 {
        seq![]
    } else {
        seq![ident("where"@)] + where_preds(g, "'a"@, "S"@) + where_preds(g, "'b"@, "T"@)
    }
}

/// `::serde_roundtrip::RoundTrip < T > for`
pub open spec fn relation_for() -> Toks {
    lib_path("RoundTrip"@) + seq![punct("<"@), ident("T"@), punct(">"@), ident("for"@)]
}

/// `{ fn round_trip ( & self ) -> T { T :: from (`
pub open spec fn round_trip_open() -> Toks {
    seq![
        punct("{"@),
        ident("fn"@),
        ident("round_trip"@),
        punct("("@),
        punct("&"@),
        ident("self"@),
        punct(")"@),
        punct("->"@),
        ident("T"@),
        punct("{"@),
        ident("T"@),
        punct("::"@),
        ident("from"@),
        punct("("@),
    ]
}

/// `) } }`
pub open spec fn round_trip_close() -> Toks {
    seq![punct(")"@), punct("}"@), punct("}"@)]
}

/// `impl<...> ::serde_roundtrip::RoundTrip<T> for Source where ... { fn round_trip(&self) -> T { T::from(...) } }`
pub open spec fn round_trip_impl(s: TypeShape) -> Toks {
    seq![ident("impl"@)] + round_trip_generics(s) + relation_for() + type_path(s.name@, s.generics, "'a"@, "S"@)
        + round_trip_where(s.generics) + round_trip_open() + transform_expr(s) + round_trip_close()
}

/// The `where` clause of the decoding instance: the target-side predicates.
pub open spec fn same_where(g: Generics) -> Toks {
    if g.where_clause@.len() == 0 {
        seq![]
    } else {
        seq![ident("where"@)] + where_preds(g, "'b"@, "T"@)
    }
}

/// `{ type SameAs = Self ; fn from ( data : Self ) -> Self { data } }`
pub open spec fn same_body() -> Toks {
    seq![
        punct("{"@),
        ident("type"@),
        ident("SameAs"@),
        punct("="@),
        ident("Self"@),
        punct(";"@),
        ident("fn"@),
        ident("from"@),
        punct("("@),
        ident("data"@),
        punct(":"@),
        ident("Self"@),
        punct(")"@),
        punct("->"@),
        ident("Self"@),
        punct("{"@),
        ident("data"@),
        punct("}"@),
        punct("}"@),
    ]
}

/// `impl<...> ::serde_roundtrip::SameDeserialization for Target where ... { type SameAs = Self; fn from(data: Self) -> Self { data } }`
pub open spec fn same_impl(s: TypeShape) -> Toks {
    let g = s.generics;
    seq![ident("impl"@), punct("<"@)] + lifetime_defs(g, "'b"@) + target_params(g) + seq![punct(">"@)]
        + lib_path("SameDeserialization"@) + seq![ident("for"@)] + type_path(s.name@, g, "'b"@, "T"@)
        + same_where(g) + same_body()
}

proof fn lemma_concat_map_step<A>(n: nat, f: spec_fn(int) -> Seq<A>)
    ensures
        concat_map(n + 1, f) == concat_map(n, f) + f(n as int),
{
    assert(((n + 1) as nat - 1) as nat == n);
}

/// Appends a path into this library.
fn push_lib_path(out: &mut Vec<Token>, name: &str)
    ensures
        toks(final(out)@) == toks(old(out)@) + lib_path(name@),
{
    let ghost start = toks(out@);
    push_punct(out, "::");
    push_ident(out, "serde_roundtrip");
    push_punct(out, "::");
    push_ident(out, name);
    assert(toks(out@) =~= start + lib_path(name@));
}

/// Appends the renamed lifetimes with their bounds.
fn push_lifetime_defs(out: &mut Vec<Token>, r: &Renaming)
    requires
        r.wf(),
    ensures
        toks(final(out)@) == toks(old(out)@) + lifetime_defs(*r.declared, r.lifetime_prefix@),
{
    let g = r.declared;
    let ghost lp = r.lifetime_prefix@;
    let ghost start = toks(out@);
    let mut i: usize = 0;
    while i < g.lifetimes.len()
        invariant
            r.wf(),
            g == r.declared,
            lp == r.lifetime_prefix@,
            i <= g.lifetimes@.len(),
            toks(out@) == start + concat_map(i as nat, |k: int| lifetime_def(*g, k, lp)),
        decreases g.lifetimes@.len() - i,
    {
        let ghost before = toks(out@);
        push_token(out, TokenKind::Lifetime, numbered_string(r.lifetime_prefix, i));
        push_punct(out, ":");
        let bounds = &g.lifetimes[i].bounds;
        let ghost head = toks(out@);
        let mut j: usize = 0;
        while j < bounds.len()
            invariant
                r.wf(),
                g == r.declared,
                lp == r.lifetime_prefix@,
                i < g.lifetimes@.len(),
                *bounds == g.lifetimes@[i as int].bounds,
                j <= bounds@.len(),
                toks(out@) == head + concat_map(
                    j as nat,
                    |k: int| seq![lifetime(rename(lifetime_names(*g), lp, g.lifetimes@[i as int].bounds@[k]@)), punct("+"@)],
                ),
            decreases bounds@.len() - j,
        {
            let b: String = r.lifetime(&bounds[j]);
            push_token(out, TokenKind::Lifetime, b);
            push_punct(out, "+");
            proof {
                lemma_concat_map_step(
                    j as nat,
                    |k: int| seq![lifetime(rename(lifetime_names(*g), lp, g.lifetimes@[i as int].bounds@[k]@)), punct("+"@)],
                );
            }
            j += 1;
            assert(toks(out@) =~= head + concat_map(
                j as nat,
                |k: int| seq![lifetime(rename(lifetime_names(*g), lp, g.lifetimes@[i as int].bounds@[k]@)), punct("+"@)],
            ));
        }
        push_punct(out, ",");
        proof {
            assert(toks(out@) =~= before + lifetime_def(*g, i as int, lp));
            lemma_concat_map_step(i as nat, |k: int| lifetime_def(*g, k, lp));
        }
        i += 1;
        assert(toks(out@) =~= start + concat_map(i as nat, |k: int| lifetime_def(*g, k, lp)));
    }
}

/// Appends the renamed bounds of the `i`-th type parameter.
fn push_param_bounds(out: &mut Vec<Token>, r: &Renaming, i: usize)
    requires
        r.wf(),
        i < r.declared.type_params@.len(),
    ensures
        toks(final(out)@) == toks(old(out)@) + param_bounds(*r.declared, i as int, r.lifetime_prefix@, r.param_prefix@),
{
    let g = r.declared;
    let ghost lp = r.lifetime_prefix@;
    let ghost tp = r.param_prefix@;
    let bounds = &g.type_params[i].bounds;
    let ghost start = toks(out@);
    let mut j: usize = 0;
    while j < bounds.len()
        invariant
            r.wf(),
            g == r.declared,
            lp == r.lifetime_prefix@,
            tp == r.param_prefix@,
            i < g.type_params@.len(),
            *bounds == g.type_params@[i as int].bounds,
            j <= bounds@.len(),
            toks(out@) == start + concat_map(
                j as nat,
                |k: int| crate::rename::renamed(toks(g.type_params@[i as int].bounds@[k]@), *g, lp, tp) + seq![punct("+"@)],
            ),
        decreases bounds@.len() - j,
    {
        r.push_renamed(out, &bounds[j]);
        push_punct(out, "+");
        proof {
            lemma_concat_map_step(
                j as nat,
                |k: int| crate::rename::renamed(toks(g.type_params@[i as int].bounds@[k]@), *g, lp, tp) + seq![punct("+"@)],
            );
        }
        j += 1;
        assert(toks(out@) =~= start + concat_map(
            j as nat,
            |k: int| crate::rename::renamed(toks(g.type_params@[i as int].bounds@[k]@), *g, lp, tp) + seq![punct("+"@)],
        ));
    }
}

/// Appends the source parameters, each with its bounds and its relation.
fn push_source_params(out: &mut Vec<Token>, r: &Renaming)
    requires
        r.wf(),
        r.lifetime_prefix@ == "'a"@,
        r.param_prefix@ == "S"@,
    ensures
        toks(final(out)@) == toks(old(out)@) + source_params(*r.declared),
{
    let g = r.declared;
    let ghost start = toks(out@);
    let mut i: usize = 0;
    while i < g.type_params.len()
        invariant
            r.wf(),
            g == r.declared,
            r.lifetime_prefix@ == "'a"@,
            r.param_prefix@ == "S"@,
            i <= g.type_params@.len(),
            toks(out@) == start + concat_map(i as nat, |k: int| source_param(*g, k)),
        decreases g.type_params@.len() - i,
    {
        let ghost before = toks(out@);
        push_token(out, TokenKind::Ident, numbered_string("S", i));
        push_punct(out, ":");
        let ghost mid = toks(out@);
        push_param_bounds(out, r, i);
        let ghost mid2 = toks(out@);
        push_lib_path(out, "RoundTrip");
        let ghost mid3 = toks(out@);
        push_punct(out, "<");
        push_token(out, TokenKind::Ident, numbered_string("T", i));
        push_punct(out, ">");
        push_punct(out, ",");
        proof {
            assert(toks(out@) =~= before + source_param(*g, i as int));
            lemma_concat_map_step(i as nat, |k: int| source_param(*g, k));
        }
        i += 1;
        assert(toks(out@) =~= start + concat_map(i as nat, |k: int| source_param(*g, k)));
    }
}

/// Appends the target parameters, each with its bounds and decoding.
fn push_target_params(out: &mut Vec<Token>, r: &Renaming)
    requires
        r.wf(),
        r.lifetime_prefix@ == "'b"@,
        r.param_prefix@ == "T"@,
    ensures
        toks(final(out)@) == toks(old(out)@) + target_params(*r.declared),
{
    let g = r.declared;
    let ghost start = toks(out@);
    let mut i: usize = 0;
    while i < g.type_params.len()
        invariant
            r.wf(),
            g == r.declared,
            r.lifetime_prefix@ == "'b"@,
            r.param_prefix@ == "T"@,
            i <= g.type_params@.len(),
            toks(out@) == start + concat_map(i as nat, |k: int| target_param(*g, k)),
        decreases g.type_params@.len() - i,
    {
        let ghost before = toks(out@);
        push_token(out, TokenKind::Ident, numbered_string("T", i));
        push_punct(out, ":");
        push_param_bounds(out, r, i);
        let ghost mid = toks(out@);
        push_punct(out, "::");
        push_ident(out, "serde");
        push_punct(out, "::");
        push_ident(out, "de");
        push_punct(out, "::");
        push_ident(out, "DeserializeOwned");
        push_punct(out, ",");
        proof {
            assert(toks(out@) =~= before + target_param(*g, i as int));
            lemma_concat_map_step(i as nat, |k: int| target_param(*g, k));
        }
        i += 1;
        assert(toks(out@) =~= start + concat_map(i as nat, |k: int| target_param(*g, k)));
    }
}

/// Appends the declared type with the renamed arguments.
fn push_type_path(out: &mut Vec<Token>, name: &String, r: &Renaming)
    ensures
        toks(final(out)@) == toks(old(out)@) + type_path(name@, *r.declared, r.lifetime_prefix@, r.param_prefix@),
{
    let g = r.declared;
    let ghost lp = r.lifetime_prefix@;
    let ghost tp = r.param_prefix@;
    let ghost start = toks(out@);
    push_token(out, TokenKind::Ident, name.clone());
    if g.lifetimes.len() == 0 && g.type_params.len() == 0 {
        return;
    }
    push_punct(out, "<");
    let ghost head = toks(out@);
    let mut i: usize = 0;
    while i < g.lifetimes.len()
        invariant
            g == r.declared,
            lp == r.lifetime_prefix@,
            i <= g.lifetimes@.len(),
            toks(out@) == head + concat_map(i as nat, |k: int| seq![lifetime(numbered(lp, k as nat)), punct(","@)]),
        decreases g.lifetimes@.len() - i,
    {
        push_token(out, TokenKind::Lifetime, numbered_string(r.lifetime_prefix, i));
        push_punct(out, ",");
        proof {
            lemma_concat_map_step(i as nat, |k: int| seq![lifetime(numbered(lp, k as nat)), punct(","@)]);
        }
        i += 1;
        assert(toks(out@) =~= head + concat_map(i as nat, |k: int| seq![lifetime(numbered(lp, k as nat)), punct(","@)]));
    }
    let ghost head2 = toks(out@);
    let mut i: usize = 0;
    while i < g.type_params.len()
        invariant
            g == r.declared,
            tp == r.param_prefix@,
            i <= g.type_params@.len(),
            toks(out@) == head2 + concat_map(i as nat, |k: int| seq![ident(numbered(tp, k as nat)), punct(","@)]),
        decreases g.type_params@.len() - i,
    {
        push_token(out, TokenKind::Ident, numbered_string(r.param_prefix, i));
        push_punct(out, ",");
        proof {
            lemma_concat_map_step(i as nat, |k: int| seq![ident(numbered(tp, k as nat)), punct(","@)]);
        }
        i += 1;
        assert(toks(out@) =~= head2 + concat_map(i as nat, |k: int| seq![ident(numbered(tp, k as nat)), punct(","@)]));
    }
    push_punct(out, ">");
    assert(toks(out@) =~= start + type_path(name@, *g, lp, tp));
}

/// Appends the renamed `where` predicates, each followed by `,`.
fn push_where_preds(out: &mut Vec<Token>, r: &Renaming)
    requires
        r.wf(),
    ensures
        toks(final(out)@) == toks(old(out)@) + where_preds(*r.declared, r.lifetime_prefix@, r.param_prefix@),
{
    let g = r.declared;
    let ghost lp = r.lifetime_prefix@;
    let ghost tp = r.param_prefix@;
    let ghost start = toks(out@);
    let mut j: usize = 0;
    while j < g.where_clause.len()
        invariant
            r.wf(),
            g == r.declared,
            lp == r.lifetime_prefix@,
            tp == r.param_prefix@,
            j <= g.where_clause@.len(),
            toks(out@) == start + concat_map(
                j as nat,
                |k: int| crate::rename::renamed(toks(g.where_clause@[k]@), *g, lp, tp) + seq![punct(","@)],
            ),
        decreases g.where_clause@.len() - j,
    {
        r.push_renamed(out, &g.where_clause[j]);
        push_punct(out, ",");
        proof {
            lemma_concat_map_step(
                j as nat,
                |k: int| crate::rename::renamed(toks(g.where_clause@[k]@), *g, lp, tp) + seq![punct(","@)],
            );
        }
        j += 1;
        assert(toks(out@) =~= start + concat_map(
            j as nat,
            |k: int| crate::rename::renamed(toks(g.where_clause@[k]@), *g, lp, tp) + seq![punct(","@)],
        ));
    }
}

/// Appends `.round_trip()`.
fn push_call(out: &mut Vec<Token>)
    ensures
        toks(final(out)@) == toks(old(out)@) + call_round_trip(),
{
    let ghost start = toks(out@);
    push_punct(out, ".");
    push_ident(out, "round_trip");
    push_punct(out, "(");
    push_punct(out, ")");
    assert(toks(out@) =~= start + call_round_trip());
}

/// Appends the struct rebuilt from its transformed fields.
fn push_struct_expr(out: &mut Vec<Token>, name: &String, f: &Fields)
    ensures
        toks(final(out)@) == toks(old(out)@) + struct_expr(name@, *f),
{
    let ghost start = toks(out@);
    push_token(out, TokenKind::Ident, name.clone());
    match f {
        Fields::Record(v) => {
            push_punct(out, "{");
            let ghost head = toks(out@);
            let mut j: usize = 0;
            while j < v.len()
                invariant
                    j <= v@.len(),
                    toks(out@) == head + concat_map(j as nat, |k: int| record_field(v@[k])),
                decreases v@.len() - j,
            {
                let ghost before = toks(out@);
                push_token(out, TokenKind::Ident, v[j].name.clone());
                push_punct(out, ":");
                push_ident(out, "self");
                push_punct(out, ".");
                push_token(out, TokenKind::Ident, v[j].name.clone());
                push_call(out);
                push_punct(out, ",");
                proof {
                    assert(toks(out@) =~= before + record_field(v@[j as int]));
                    lemma_concat_map_step(j as nat, |k: int| record_field(v@[k]));
                }
                j += 1;
                assert(toks(out@) =~= head + concat_map(j as nat, |k: int| record_field(v@[k])));
            }
            push_punct(out, "}");
        },
        Fields::TupleLike(v) => {
            push_punct(out, "(");
            let ghost head = toks(out@);
            let mut j: usize = 0;
            while j < v.len()
                invariant
                    j <= v@.len(),
                    toks(out@) == head + concat_map(j as nat, |k: int| tuple_field(k)),
                decreases v@.len() - j,
            {
                let ghost before = toks(out@);
                push_ident(out, "self");
                push_punct(out, ".");
                push_token(out, TokenKind::Literal, decimal_string(j));
                push_call(out);
                push_punct(out, ",");
                proof {
                    assert(toks(out@) =~= before + tuple_field(j as int));
                    lemma_concat_map_step(j as nat, |k: int| tuple_field(k));
                }
                j += 1;
                assert(toks(out@) =~= head + concat_map(j as nat, |k: int| tuple_field(k)));
            }
            push_punct(out, ")");
        },
        Fields::Unit => {},
    }
    assert(toks(out@) =~= start + struct_expr(name@, *f));
}

/// Appends `Name :: Variant`.
fn push_variant_path(out: &mut Vec<Token>, name: &String, v: &Variant)
    ensures
        toks(final(out)@) == toks(old(out)@) + variant_path(name@, *v),
{
    let ghost start = toks(out@);
    push_token(out, TokenKind::Ident, name.clone());
    push_punct(out, "::");
    push_token(out, TokenKind::Ident, v.name.clone());
    assert(toks(out@) =~= start + variant_path(name@, *v));
}

/// Appends the pattern of the arm for `v`.
fn push_arm_pattern(out: &mut Vec<Token>, name: &String, v: &Variant)
    ensures
        toks(final(out)@) == toks(old(out)@) + arm_pattern(name@, *v),
{
    let ghost start = toks(out@);
    push_variant_path(out, name, v);
    match &v.fields {
        Fields::Record(fs) => {
            push_punct(out, "{");
            let ghost head = toks(out@);
            let mut j: usize = 0;
            while j < fs.len()
                invariant
                    j <= fs@.len(),
                    toks(out@) == head + concat_map(
                        j as nat,
                        |k: int| seq![ident("ref"@), ident(fs@[k].name@), punct(","@)],
                    ),
                decreases fs@.len() - j,
            {
                push_ident(out, "ref");
                push_token(out, TokenKind::Ident, fs[j].name.clone());
                push_punct(out, ",");
                proof {
                    lemma_concat_map_step(j as nat, |k: int| seq![ident("ref"@), ident(fs@[k].name@), punct(","@)]);
                }
                j += 1;
                assert(toks(out@) =~= head + concat_map(
                    j as nat,
                    |k: int| seq![ident("ref"@), ident(fs@[k].name@), punct(","@)],
                ));
            }
            push_punct(out, "}");
        },
        Fields::TupleLike(fs) => {
            push_punct(out, "(");
            let ghost head = toks(out@);
            let mut j: usize = 0;
            while j < fs.len()
                invariant
                    j <= fs@.len(),
                    toks(out@) == head + concat_map(
                        j as nat,
                        |k: int| seq![ident("ref"@), ident(binder(k)), punct(","@)],
                    ),
                decreases fs@.len() - j,
            {
                push_ident(out, "ref");
                push_token(out, TokenKind::Ident, numbered_string("x", j));
                push_punct(out, ",");
                proof {
                    lemma_concat_map_step(j as nat, |k: int| seq![ident("ref"@), ident(binder(k)), punct(","@)]);
                }
                j += 1;
                assert(toks(out@) =~= head + concat_map(
                    j as nat,
                    |k: int| seq![ident("ref"@), ident(binder(k)), punct(","@)],
                ));
            }
            push_punct(out, ")");
        },
        Fields::Unit => {},
    }
    assert(toks(out@) =~= start + arm_pattern(name@, *v));
}

/// Appends the variant `v` rebuilt from its transformed fields.
fn push_arm_expr(out: &mut Vec<Token>, name: &String, v: &Variant)
    ensures
        toks(final(out)@) == toks(old(out)@) + arm_expr(name@, *v),
{
    let ghost start = toks(out@);
    push_variant_path(out, name, v);
    match &v.fields {
        Fields::Record(fs) => {
            push_punct(out, "{");
            let ghost head = toks(out@);
            let mut j: usize = 0;
            while j < fs.len()
                invariant
                    j <= fs@.len(),
                    toks(out@) == head + concat_map(
                        j as nat,
                        |k: int| seq![ident(fs@[k].name@), punct(":"@), ident(fs@[k].name@)] + call_round_trip() + seq![
                            punct(","@),
                        ],
                    ),
                decreases fs@.len() - j,
            {
                let ghost before = toks(out@);
                push_token(out, TokenKind::Ident, fs[j].name.clone());
                push_punct(out, ":");
                push_token(out, TokenKind::Ident, fs[j].name.clone());
                push_call(out);
                push_punct(out, ",");
                proof {
                    assert(toks(out@) =~= before + (seq![ident(fs@[j as int].name@), punct(":"@), ident(fs@[j as int].name@)] + call_round_trip() + seq![
                            punct(","@),
                        ]));
                    lemma_concat_map_step(
                        j as nat,
                        |k: int| seq![ident(fs@[k].name@), punct(":"@), ident(fs@[k].name@)] + call_round_trip() + seq![
                            punct(","@),
                        ],
                    );
                }
                j += 1;
                assert(toks(out@) =~= head + concat_map(
                    j as nat,
                    |k: int| seq![ident(fs@[k].name@), punct(":"@), ident(fs@[k].name@)] + call_round_trip() + seq![
                        punct(","@),
                    ],
                ));
            }
            push_punct(out, "}");
        },
        Fields::TupleLike(fs) => {
            push_punct(out, "(");
            let ghost head = toks(out@);
            let mut j: usize = 0;
            while j < fs.len()
                invariant
                    j <= fs@.len(),
                    toks(out@) == head + concat_map(
                        j as nat,
                        |k: int| seq![ident(binder(k))] + call_round_trip() + seq![punct(","@)],
                    ),
                decreases fs@.len() - j,
            {
                let ghost before = toks(out@);
                push_token(out, TokenKind::Ident, numbered_string("x", j));
                push_call(out);
                push_punct(out, ",");
                proof {
                    assert(toks(out@) =~= before + (seq![ident(binder(j as int))] + call_round_trip() + seq![punct(","@)]));
                    lemma_concat_map_step(j as nat, |k: int| seq![ident(binder(k))] + call_round_trip() + seq![punct(","@)]);
                }
                j += 1;
                assert(toks(out@) =~= head + concat_map(
                    j as nat,
                    |k: int| seq![ident(binder(k))] + call_round_trip() + seq![punct(","@)],
                ));
            }
            push_punct(out, ")");
        },
        Fields::Unit => {},
    }
    assert(toks(out@) =~= start + arm_expr(name@, *v));
}

/// Appends the dispatch over the variants.
fn push_match_expr(out: &mut Vec<Token>, name: &String, vs: &Vec<Variant>)
    ensures
        toks(final(out)@) == toks(old(out)@) + match_expr(name@, vs@),
{
    let ghost start = toks(out@);
    push_ident(out, "match");
    push_punct(out, "*");
    push_ident(out, "self");
    push_punct(out, "{");
    let ghost head = toks(out@);
    let mut i: usize = 0;
    while i < vs.len()
        invariant
            i <= vs@.len(),
            toks(out@) == head + concat_map(i as nat, |k: int| arm(name@, vs@[k])),
        decreases vs@.len() - i,
    {
        let ghost before = toks(out@);
        push_arm_pattern(out, name, &vs[i]);
        push_punct(out, "=>");
        push_arm_expr(out, name, &vs[i]);
        push_punct(out, ",");
        proof {
            assert(toks(out@) =~= before + arm(name@, vs@[i as int]));
            lemma_concat_map_step(i as nat, |k: int| arm(name@, vs@[k]));
        }
        i += 1;
        assert(toks(out@) =~= head + concat_map(i as nat, |k: int| arm(name@, vs@[k])));
    }
    push_punct(out, "}");
    assert(toks(out@) =~= start + match_expr(name@, vs@));
}

/// Appends the expression that transforms `self`.
fn push_transform_expr(out: &mut Vec<Token>, s: &TypeShape)
    ensures
        toks(final(out)@) == toks(old(out)@) + transform_expr(*s),
{
    match &s.kind {
        Kind::Struct(f) => push_struct_expr(out, &s.name, f),
        Kind::Sum(vs) => push_match_expr(out, &s.name, vs),
    }
}

/// Appends the `where` clause of the relation instance.
fn push_round_trip_where(out: &mut Vec<Token>, source: &Renaming, target: &Renaming)
    requires
        source.wf(),
        target.wf(),
        source.declared == target.declared,
        source.lifetime_prefix@ == "'a"@,
        source.param_prefix@ == "S"@,
        target.lifetime_prefix@ == "'b"@,
        target.param_prefix@ == "T"@,
    ensures
        toks(final(out)@) == toks(old(out)@) + round_trip_where(*source.declared),
{
    let ghost start = toks(out@);
    if source.declared.where_clause.len() > 0 {
        push_ident(out, "where");
        push_where_preds(out, source);
        push_where_preds(out, target);
    }
    assert(toks(out@) =~= start + round_trip_where(*source.declared));
}

/// Appends `T : ::serde_roundtrip::SameDeserialization < SameAs =`.
fn push_target_bound_open(out: &mut Vec<Token>)
    ensures
        toks(final(out)@) == toks(old(out)@) + target_bound_open(),
{
    let ghost start = toks(out@);
    push_ident(out, "T");
    push_punct(out, ":");
    push_lib_path(out, "SameDeserialization");
    push_punct(out, "<");
    push_ident(out, "SameAs");
    push_punct(out, "=");
    assert(toks(out@) =~= start + target_bound_open());
}

/// Appends the generic parameters of the relation instance.
fn push_round_trip_generics(out: &mut Vec<Token>, s: &TypeShape, source: &Renaming, target: &Renaming)
    requires
        source.wf(),
        target.wf(),
        source.declared == &s.generics,
        target.declared == &s.generics,
        source.lifetime_prefix@ == "'a"@,
        source.param_prefix@ == "S"@,
        target.lifetime_prefix@ == "'b"@,
        target.param_prefix@ == "T"@,
    ensures
        toks(final(out)@) == toks(old(out)@) + round_trip_generics(*s),
{
    let ghost g = s.generics;
    let ghost p0 = toks(out@);
    push_punct(out, "<");
    let ghost p1 = toks(out@);
    push_lifetime_defs(out, source);
    let ghost p2 = toks(out@);
    push_lifetime_defs(out, target);
    let ghost p3 = toks(out@);
    push_source_params(out, source);
    let ghost p4 = toks(out@);
    push_target_params(out, target);
    let ghost p5 = toks(out@);
    push_target_bound_open(out);
    let ghost p6 = toks(out@);
    push_type_path(out, &s.name, target);
    let ghost p7 = toks(out@);
    push_punct(out, ">");
    push_punct(out, ",");
    push_punct(out, ">");
    let ghost a = seq![punct("<"@)];
    let ghost b = a + lifetime_defs(g, "'a"@);
    assert(p2 =~= p0 + b);
    let ghost c = b + lifetime_defs(g, "'b"@);
    assert(p3 =~= p0 + c);
    let ghost d = c + source_params(g);
    assert(p4 =~= p0 + d);
    let ghost e = d + target_params(g);
    assert(p5 =~= p0 + e);
    let ghost f = e + target_bound_open();
    assert(p6 =~= p0 + f);
    let ghost h = f + type_path(s.name@, g, "'b"@, "T"@);
    assert(p7 =~= p0 + h);
    assert(toks(out@) =~= p0 + round_trip_generics(*s));
}

/// Appends `::serde_roundtrip::RoundTrip < T > for`.
fn push_relation_for(out: &mut Vec<Token>)
    ensures
        toks(final(out)@) == toks(old(out)@) + relation_for(),
{
    let ghost start = toks(out@);
    push_lib_path(out, "RoundTrip");
    push_punct(out, "<");
    push_ident(out, "T");
    push_punct(out, ">");
    push_ident(out, "for");
    assert(toks(out@) =~= start + relation_for());
}

/// Appends `{ fn round_trip ( & self ) -> T { T :: from (`.
fn push_round_trip_open(out: &mut Vec<Token>)
    ensures
        toks(final(out)@) == toks(old(out)@) + round_trip_open(),
{
    let ghost start = toks(out@);
    push_punct(out, "{");
    push_ident(out, "fn");
    push_ident(out, "round_trip");
    push_punct(out, "(");
    push_punct(out, "&");
    push_ident(out, "self");
    push_punct(out, ")");
    push_punct(out, "->");
    push_ident(out, "T");
    push_punct(out, "{");
    push_ident(out, "T");
    push_punct(out, "::");
    push_ident(out, "from");
    push_punct(out, "(");
    assert(toks(out@) =~= start + round_trip_open());
}

/// Appends the relation instance of the declared type.
fn push_round_trip_impl(out: &mut Vec<Token>, s: &TypeShape)
    ensures
        toks(final(out)@) == toks(old(out)@) + round_trip_impl(*s),
{
    let g = &s.generics;
    let source = Renaming::new(g, "'a", "S");
    let target = Renaming::new(g, "'b", "T");
    let ghost p0 = toks(out@);
    push_ident(out, "impl");
    let ghost p1 = toks(out@);
    push_round_trip_generics(out, s, &source, &target);
    let ghost p2 = toks(out@);
    push_relation_for(out);
    let ghost p3 = toks(out@);
    push_type_path(out, &s.name, &source);
    let ghost p4 = toks(out@);
    push_round_trip_where(out, &source, &target);
    let ghost p5 = toks(out@);
    push_round_trip_open(out);
    let ghost p6 = toks(out@);
    push_transform_expr(out, s);
    let ghost p7 = toks(out@);
    push_punct(out, ")");
    push_punct(out, "}");
    push_punct(out, "}");
    let ghost a = seq![ident("impl"@)];
    let ghost b = a + round_trip_generics(*s);
    assert(p2 =~= p0 + b);
    let ghost c = b + relation_for();
    assert(p3 =~= p0 + c);
    let ghost d = c + type_path(s.name@, s.generics, "'a"@, "S"@);
    assert(p4 =~= p0 + d);
    let ghost e = d + round_trip_where(s.generics);
    assert(p5 =~= p0 + e);
    let ghost f = e + round_trip_open();
    assert(p6 =~= p0 + f);
    let ghost h = f + transform_expr(*s);
    assert(p7 =~= p0 + h);
    assert(toks(out@) =~= p0 + round_trip_impl(*s));
}

/// Appends `{ type SameAs = Self ; fn from ( data : Self ) -> Self { data } }`.
fn push_same_body(out: &mut Vec<Token>)
    ensures
        toks(final(out)@) == toks(old(out)@) + same_body(),
{
    let ghost start = toks(out@);
    push_punct(out, "{");
    push_ident(out, "type");
    push_ident(out, "SameAs");
    push_punct(out, "=");
    push_ident(out, "Self");
    push_punct(out, ";");
    push_ident(out, "fn");
    push_ident(out, "from");
    push_punct(out, "(");
    push_ident(out, "data");
    push_punct(out, ":");
    push_ident(out, "Self");
    push_punct(out, ")");
    push_punct(out, "->");
    push_ident(out, "Self");
    push_punct(out, "{");
    push_ident(out, "data");
    push_punct(out, "}");
    push_punct(out, "}");
    assert(toks(out@) =~= start + same_body());
}

/// Appends the decoding instance of the declared type.
fn push_same_impl(out: &mut Vec<Token>, s: &TypeShape)
    ensures
        toks(final(out)@) == toks(old(out)@) + same_impl(*s),
{
    let g = &s.generics;
    let target = Renaming::new(g, "'b", "T");
    let ghost p0 = toks(out@);
    push_ident(out, "impl");
    push_punct(out, "<");
    let ghost p1 = toks(out@);
    push_lifetime_defs(out, &target);
    let ghost p2 = toks(out@);
    push_target_params(out, &target);
    let ghost p3 = toks(out@);
    push_punct(out, ">");
    let ghost p4 = toks(out@);
    push_lib_path(out, "SameDeserialization");
    let ghost p5 = toks(out@);
    push_ident(out, "for");
    let ghost p6 = toks(out@);
    push_type_path(out, &s.name, &target);
    let ghost p7 = toks(out@);
    if g.where_clause.len() > 0 {
        push_ident(out, "where");
        push_where_preds(out, &target);
    }
    assert(toks(out@) =~= p7 + same_where(*g));
    let ghost p8 = toks(out@);
    push_same_body(out);
    let ghost a = seq![ident("impl"@), punct("<"@)];
    assert(p1 =~= p0 + a);
    let ghost b = a + lifetime_defs(*g, "'b"@);
    assert(p2 =~= p0 + b);
    let ghost c = b + target_params(*g);
    assert(p3 =~= p0 + c);
    let ghost d = c + seq![punct(">"@)];
    assert(p4 =~= p0 + d);
    let ghost e = d + lib_path("SameDeserialization"@);
    assert(p5 =~= p0 + e);
    let ghost f = e + seq![ident("for"@)];
    assert(p6 =~= p0 + f);
    let ghost h = f + type_path(s.name@, *g, "'b"@, "T"@);
    assert(p7 =~= p0 + h);
    let ghost k = h + same_where(*g);
    assert(p8 =~= p0 + k);
    assert(toks(out@) =~= p0 + same_impl(*s));
}

/// The source text of the two instances for a declared type: the relation
/// from its source renaming to any `T` that decodes as its target renaming,
/// and the decoding instance of its target renaming.
pub fn impl_round_trip(s: &TypeShape) -> (r: Vec<Token>)
    ensures
        toks(r@) == round_trip_impl(*s) + same_impl(*s),
{
    let mut out: Vec<Token> = Vec::new();
    proof {
        assert(toks(out@) =~= Seq::empty());
    }
    push_round_trip_impl(&mut out, s);
    push_same_impl(&mut out, s);
    assert(toks(out@) =~= round_trip_impl(*s) + same_impl(*s));
    out
}

/// The two instances of `impl_round_trip`, as source text.
pub fn derive_source(s: &TypeShape) -> (r: String)
    ensures
        r@ == render_spec(round_trip_impl(*s) + same_impl(*s)),
{
    let ts = impl_round_trip(s);
    render(&ts)
}

} // verus!
