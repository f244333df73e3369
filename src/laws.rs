use crate::derive::{record_field, same_body, same_impl, struct_expr, tuple_field, Toks};
use crate::relation::{each_transforms_to, RoundTrip, SameDeserialization};
use crate::rename::{first_at, lemma_first_at_unique, rename};
use crate::shape::{Fields, TypeShape};
use crate::token::{concat_map, decimal, digit_char, numbered};
use std::rc::Rc;
use std::time::Duration;
use vstd::prelude::*;

verus! {

/// Decoding at a type without parameters is decoding at that type itself
/// followed by the identity: its `SameAs` is the type (each `lifts` below
/// takes a value of the type for its `SameAs`), and `from` returns its
/// argument.
pub proof fn identity_law()
    ensures
        forall|x: (), y: ()| <() as SameDeserialization>::lifts(x, y) <==> y == x,
        forall|x: bool, y: bool| <bool as SameDeserialization>::lifts(x, y) <==> y == x,
        forall|x: char, y: char| <char as SameDeserialization>::lifts(x, y) <==> y == x,
        forall|x: u8, y: u8| <u8 as SameDeserialization>::lifts(x, y) <==> y == x,
        forall|x: u16, y: u16| <u16 as SameDeserialization>::lifts(x, y) <==> y == x,
        forall|x: u32, y: u32| <u32 as SameDeserialization>::lifts(x, y) <==> y == x,
        forall|x: u64, y: u64| <u64 as SameDeserialization>::lifts(x, y) <==> y == x,
        forall|x: usize, y: usize| <usize as SameDeserialization>::lifts(x, y) <==> y == x,
        forall|x: i8, y: i8| <i8 as SameDeserialization>::lifts(x, y) <==> y == x,
        forall|x: i16, y: i16| <i16 as SameDeserialization>::lifts(x, y) <==> y == x,
        forall|x: i32, y: i32| <i32 as SameDeserialization>::lifts(x, y) <==> y == x,
        forall|x: i64, y: i64| <i64 as SameDeserialization>::lifts(x, y) <==> y == x,
        forall|x: isize, y: isize| <isize as SameDeserialization>::lifts(x, y) <==> y == x,
        forall|x: String, y: String| <String as SameDeserialization>::lifts(x, y) <==> y == x,
        forall|x: Duration, y: Duration| <Duration as SameDeserialization>::lifts(x, y) <==> y == x,
{
}

/// The decoding instance generated for any declared type ends with
/// `type SameAs = Self` and a `from` that returns its argument.
pub proof fn generated_identity_law(s: TypeShape)
    ensures
        same_impl(s).len() >= same_body().len(),
        same_impl(s).subrange(same_impl(s).len() - same_body().len(), same_impl(s).len() as int)
            == same_body(),
{
    let a = same_impl(s);
    let n = same_body().len();
    assert(a.subrange(a.len() - n, a.len() as int) =~= same_body());
}

/// A concatenation of pieces of one width `w` holds piece `i` at `i * w`.
proof fn lemma_concat_map_uniform(n: nat, f: spec_fn(int) -> Toks, w: nat)
    requires
        forall|i: int| 0 <= i < n ==> #[trigger] f(i).len() == w,
    ensures
        concat_map(n, f).len() == n * w,
        forall|i: int|
            0 <= i < n ==> concat_map(n, f).subrange(i * w, i * w + w) == #[trigger] f(i),
    decreases n,
{
    if n > 0 {
        let m = (n - 1) as nat;
        lemma_concat_map_uniform(m, f, w);
        let prev = concat_map(m, f);
        let all = concat_map(n, f);
        assert(all == prev + f(m as int));
        assert(m * w + w == n * w) by (nonlinear_arith)
            requires
                m + 1 == n,
        ;
        assert forall|i: int| 0 <= i < n implies all.subrange(i * w, i * w + w) == #[trigger] f(i) by {
            if i < m {
                assert(i * w + w <= m * w) by (nonlinear_arith)
                    requires
                        0 <= i < m,
                ;
                assert(0 <= i * w) by (nonlinear_arith)
                    requires
                        0 <= i,
                ;
                assert(all.subrange(i * w, i * w + w) =~= prev.subrange(i * w, i * w + w));
            } else {
                assert(i * w == m * w);
                assert(all.subrange(i * w, i * w + w) =~= f(i));
            }
        }
    }
}

/// The fields of a struct are transformed in their declared order, whatever
/// their number: after the name and the opening bracket, slot `j` of the
/// generated expression transforms field `j`, named or positional.
pub proof fn fields_in_declared_order(name: Seq<char>, f: Fields)
    ensures
        match f {
            Fields::Record(v) => forall|j: int|
                0 <= j < v@.len() ==> struct_expr(name, f).subrange(2 + 10 * j, 2 + 10 * j + 10)
                    == #[trigger] record_field(v@[j]),
            Fields::TupleLike(v) => forall|j: int|
                0 <= j < v@.len() ==> struct_expr(name, f).subrange(2 + 8 * j, 2 + 8 * j + 8)
                    == #[trigger] tuple_field(j),
            Fields::Unit => true,
        },
{
    match f {
        Fields::Record(v) => {
            let g = |j: int| record_field(v@[j]);
            lemma_concat_map_uniform(v@.len(), g, 10);
            let e = struct_expr(name, f);
            assert forall|j: int| 0 <= j < v@.len() implies e.subrange(2 + 10 * j, 2 + 10 * j + 10)
                == #[trigger] record_field(v@[j]) by {
                assert(concat_map(v@.len(), g).subrange(j * 10, j * 10 + 10) == g(j));
                assert(e.subrange(2 + 10 * j, 2 + 10 * j + 10) =~= concat_map(v@.len(), g).subrange(
                    j * 10,
                    j * 10 + 10,
                ));
            }
        },
        Fields::TupleLike(v) => {
            let g = |j: int| tuple_field(j);
            lemma_concat_map_uniform(v@.len(), g, 8);
            let e = struct_expr(name, f);
            assert forall|j: int| 0 <= j < v@.len() implies e.subrange(2 + 8 * j, 2 + 8 * j + 8)
                == #[trigger] tuple_field(j) by {
                assert(concat_map(v@.len(), g).subrange(j * 8, j * 8 + 8) == g(j));
                assert(e.subrange(2 + 8 * j, 2 + 8 * j + 8) =~= concat_map(v@.len(), g).subrange(
                    j * 8,
                    j * 8 + 8,
                ));
            }
        },
        Fields::Unit => {},
    }
}

/// A fixed-length sequence transforms item by item into a sequence of the
/// same length `N`; for `N` zero, into the empty one.
pub proof fn array_law<S, T, Ts, const N: usize>(s: [S; N], t: Ts)
    where
        S: RoundTrip<T>,
        Ts: SameDeserialization<SameAs = [T; N]>,
    requires
        s.transforms_to(t),
    ensures
        exists|a: [T; N]|
            {
                &&& #[trigger] Ts::lifts(a, t)
                &&& a@.len() == N
                &&& N == 0 ==> a@ == Seq::<T>::empty()
                &&& forall|i: int| 0 <= i < N ==> #[trigger] s@[i].transforms_to(a@[i])
            },
{
    let a = choose|a: [T; N]| #[trigger] Ts::lifts(a, t) && each_transforms_to(s@, a@);
    assert(a@.len() == N);
    if N == 0 {
        assert(a@ =~= Seq::<T>::empty());
    }
    assert(Ts::lifts(a, t));
}

/// Two indirections around a leaf: a value transforms to its leaf, wrapped
/// again in both indirections, and to nothing else.
pub proof fn nested_indirection_law(v: Box<Rc<u64>>, r: Box<Rc<u64>>)
    ensures
        v.transforms_to(r) <==> **r == **v,
{
}

proof fn lemma_decimal_len(n: nat)
    ensures
        decimal(n).len() >= 1,
        n >= 10 ==> decimal(n).len() >= 2,
    decreases n,
{
    if n >= 10 {
        lemma_decimal_len(n / 10);
    }
}

proof fn lemma_digit_injective(a: nat, b: nat)
    requires
        a < 10,
        b < 10,
        digit_char(a) == digit_char(b),
    ensures
        a == b,
{
    reveal_strlit("0123456789");
}

/// Different numbers are written differently.
proof fn lemma_decimal_injective(a: nat, b: nat)
    requires
        decimal(a) == decimal(b),
    ensures
        a == b,
    decreases a,
{
    lemma_decimal_len(a);
    lemma_decimal_len(b);
    if a < 10 && b < 10 {
        assert(decimal(a) == seq![digit_char(a)]);
        assert(decimal(b) == seq![digit_char(b)]);
        assert(decimal(a)[0] == digit_char(a));
        assert(decimal(b)[0] == digit_char(b));
        lemma_digit_injective(a, b);
    } else if a >= 10 && b >= 10 {
        let da = decimal(a);
        let db = decimal(b);
        assert(da.last() == digit_char(a % 10));
        assert(db.last() == digit_char(b % 10));
        lemma_digit_injective(a % 10, b % 10);
        assert(decimal(a / 10) =~= da.drop_last());
        assert(decimal(b / 10) =~= db.drop_last());
        lemma_decimal_injective(a / 10, b / 10);
    }
}

/// Renaming is a positional bijection: where the declared names are
/// distinct, the `i`-th becomes `prefix` followed by `i`, and two different
/// positions never get the same name.
pub proof fn renaming_law(names: Seq<Seq<char>>, prefix: Seq<char>, i: int, j: int)
    requires
        names.no_duplicates(),
        0 <= i < names.len(),
        0 <= j < names.len(),
    ensures
        rename(names, prefix, names[i]) == numbered(prefix, i as nat),
        i != j ==> rename(names, prefix, names[i]) != rename(names, prefix, names[j]),
{
    assert(first_at(names, names[i], i));
    let c = choose|c: int| first_at(names, names[i], c);
    lemma_first_at_unique(names, names[i], i, c);
    assert(first_at(names, names[j], j));
    let d = choose|d: int| first_at(names, names[j], d);
    lemma_first_at_unique(names, names[j], j, d);
    if i != j && numbered(prefix, i as nat) == numbered(prefix, j as nat) {
        assert(decimal(i as nat) =~= numbered(prefix, i as nat).subrange(prefix.len() as int, numbered(prefix, i as nat).len() as int));
        assert(decimal(j as nat) =~= numbered(prefix, j as nat).subrange(prefix.len() as int, numbered(prefix, j as nat).len() as int));
        lemma_decimal_injective(i as nat, j as nat);
    }
}

} // verus!
