//! The laws the list's operations obey, stated over the sequence model that
//! the operation contracts use and proved once and for all.

use core::cmp::Ordering;
use vstd::laws_eq::obeys_eq_spec_properties;
use vstd::prelude::*;
use vstd::std_specs::cmp::OrdSpec;
use vstd::std_specs::cmp::PartialEqSpec;
use vstd::std_specs::cmp::PartialOrdSpec;

use crate::order::lemma_seqs_eq_by_step;
use crate::order::seqs_eq_by;
use crate::order::seqs_lex_cmp_by;
use crate::order::seqs_lex_partial_cmp_by;

verus! {

/// Prepending a value and then dropping the head gives back exactly the
/// original element sequence: at the model level, `cons` followed by `tail`
/// is the identity, and the new head is the prepended value.
pub proof fn lemma_cons_then_tail<T>(s: Seq<T>, v: T)
    ensures
        (seq![v] + s).len() == s.len() + 1,
        (seq![v] + s)[0] == v,
        (seq![v] + s).drop_first() == s,
{
    assert((seq![v] + s).drop_first() =~= s);
}

/// List equality is reflexive wherever element equality is reflexive on the
/// elements involved.
pub proof fn lemma_eq_reflexive<T: PartialEq>(a: Seq<T>)
    requires
        forall|i: int| 0 <= i < a.len() ==> (#[trigger] a[i]).eq_spec(&a[i]),
    ensures
        seqs_eq_by(a, a),
{
}

/// List equality is symmetric whenever element equality is symmetric and
/// transitive.
pub proof fn lemma_eq_symmetric<T: PartialEq>(a: Seq<T>, b: Seq<T>)
    requires
        obeys_eq_spec_properties::<T>(),
        seqs_eq_by(a, b),
    ensures
        seqs_eq_by(b, a),
{
    reveal(vstd::laws_eq::obeys_eq_spec_properties);
    assert forall|i: int| 0 <= i < b.len() implies (#[trigger] b[i]).eq_spec(&a[i]) by {
        assert(a[i].eq_spec(&b[i]));
    }
}

/// List equality is transitive whenever element equality is symmetric and
/// transitive.
pub proof fn lemma_eq_transitive<T: PartialEq>(a: Seq<T>, b: Seq<T>, c: Seq<T>)
    requires
        obeys_eq_spec_properties::<T>(),
        seqs_eq_by(a, b),
        seqs_eq_by(b, c),
    ensures
        seqs_eq_by(a, c),
{
    reveal(vstd::laws_eq::obeys_eq_spec_properties);
    assert forall|i: int| 0 <= i < a.len() implies (#[trigger] a[i]).eq_spec(&c[i]) by {
        assert(a[i].eq_spec(&b[i]));
        assert(b[i].eq_spec(&c[i]));
    }
}

/// Lists of unequal length are never equal.
pub proof fn lemma_unequal_length_not_eq<T: PartialEq>(a: Seq<T>, b: Seq<T>)
    requires
        a.len() != b.len(),
    ensures
        !seqs_eq_by(a, b),
{
}

/// Comparing a list with itself yields `Equal`, wherever comparing an
/// element with itself does.
pub proof fn lemma_cmp_self_is_equal<T: Ord>(a: Seq<T>)
    requires
        forall|x: T| (#[trigger] x.cmp_spec(&x)) == Ordering::Equal,
    ensures
        seqs_lex_cmp_by(a, a) == Ordering::Equal,
    decreases a.len(),
{
    if a.len() > 0 {
        assert(a[0].cmp_spec(&a[0]) == Ordering::Equal);
        lemma_cmp_self_is_equal::<T>(a.drop_first());
    }
}

/// Partially comparing a list with itself yields `Equal`, wherever partially
/// comparing an element with itself does.
pub proof fn lemma_partial_cmp_self_is_equal<T: PartialOrd>(a: Seq<T>)
    requires
        forall|x: T| (#[trigger] x.partial_cmp_spec(&x)) == Some(Ordering::Equal),
    ensures
        seqs_lex_partial_cmp_by(a, a) == Some(Ordering::Equal),
    decreases a.len(),
{
    if a.len() > 0 {
        assert(a[0].partial_cmp_spec(&a[0]) == Some(Ordering::Equal));
        lemma_partial_cmp_self_is_equal::<T>(a.drop_first());
    }
}

/// A strict prefix orders strictly before the longer list, wherever
/// partially comparing an element with itself yields `Equal`.
pub proof fn lemma_strict_prefix_is_less<T: PartialOrd>(a: Seq<T>, b: Seq<T>)
    requires
        a.len() < b.len(),
        a == b.subrange(0, a.len() as int),
        forall|x: T| (#[trigger] x.partial_cmp_spec(&x)) == Some(Ordering::Equal),
    ensures
        seqs_lex_partial_cmp_by(a, b) == Some(Ordering::Less),
    decreases a.len(),
{
    if a.len() > 0 {
        assert(a[0] == b.subrange(0, a.len() as int)[0]);
        assert(a[0].partial_cmp_spec(&b[0]) == Some(Ordering::Equal));
        assert(a.drop_first() =~= b.drop_first().subrange(0, a.drop_first().len() as int));
        lemma_strict_prefix_is_less::<T>(a.drop_first(), b.drop_first());
    }
}

/// The lexicographic partial comparison agrees with pairwise equality: it
/// yields `Equal` exactly on equal lists, wherever the element order and the
/// element equality agree with each other.
pub proof fn lemma_partial_cmp_consistent_with_eq<T: PartialOrd>(a: Seq<T>, b: Seq<T>)
    requires
        forall|x: T, y: T| ((#[trigger] x.partial_cmp_spec(&y)) == Some(Ordering::Equal) <==> x.eq_spec(
            &y,
        )),
    ensures
        (seqs_lex_partial_cmp_by(a, b) == Some(Ordering::Equal)) <==> seqs_eq_by(a, b),
    decreases a.len() + b.len(),
{
    if a.len() > 0 && b.len() > 0 {
        if a[0].partial_cmp_spec(&b[0]) == Some(Ordering::Equal) {
            lemma_partial_cmp_consistent_with_eq::<T>(a.drop_first(), b.drop_first());
            if a.len() == b.len() {
                lemma_seqs_eq_by_step(a, b);
            }
        } else {
            assert(!a[0].eq_spec(&b[0]));
            if seqs_eq_by(a, b) {
                assert(a[0].eq_spec(&b[0]));
            }
        }
    }
}

} // verus!
