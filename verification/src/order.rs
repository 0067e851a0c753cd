//! Value semantics expressed through the cursor: equality and ordering.
//!
//! Both walk the two lists head to tail and stop at the first pair of
//! elements that decides the outcome, so structural sharing needs no
//! special-casing.

use core::cmp::Ordering;
use vstd::prelude::*;
use vstd::std_specs::cmp::OrdSpec;
use vstd::std_specs::cmp::PartialEqSpec;
use vstd::std_specs::cmp::PartialOrdSpec;

use crate::list::List;

verus! {

/// Pairwise equality of two sequences under the element type's own equality:
/// the lengths match and every pair of elements at the same position is equal.
pub open spec fn seqs_eq_by<T: PartialEq>(a: Seq<T>, b: Seq<T>) -> bool {
    a.len() == b.len() && (forall|i: int| 0 <= i < a.len() ==> #[trigger] a[i].eq_spec(&b[i]))
}

/// Lexicographic comparison of two sequences under the element type's own
/// partial order: the first pair that does not compare `Equal` decides the
/// result, an incomparable pair makes the whole comparison incomparable, and
/// a strict prefix orders before the longer sequence.
pub open spec fn seqs_lex_partial_cmp_by<T: PartialOrd>(a: Seq<T>, b: Seq<T>) -> Option<Ordering>
    decreases a.len() + b.len(),
{
    if a.len() == 0 && b.len() == 0 {
        Some(Ordering::Equal)
    } else if a.len() == 0 {
        Some(Ordering::Less)
    } else if b.len() == 0 {
        Some(Ordering::Greater)
    } else {
        match a[0].partial_cmp_spec(&b[0]) {
            Some(Ordering::Equal) => seqs_lex_partial_cmp_by(a.drop_first(), b.drop_first()),
            c => c,
        }
    }
}

/// Lexicographic comparison of two sequences under the element type's total
/// order.
pub open spec fn seqs_lex_cmp_by<T: Ord>(a: Seq<T>, b: Seq<T>) -> Ordering
    decreases a.len() + b.len(),
{
    if a.len() == 0 && b.len() == 0 {
        Ordering::Equal
    } else if a.len() == 0 {
        Ordering::Less
    } else if b.len() == 0 {
        Ordering::Greater
    } else {
        match a[0].cmp_spec(&b[0]) {
            Ordering::Equal => seqs_lex_cmp_by(a.drop_first(), b.drop_first()),
            c => c,
        }
    }
}

/// Removing an equal head pair does not change whether two same-length
/// sequences are pairwise equal.
pub proof fn lemma_seqs_eq_by_step<T: PartialEq>(a: Seq<T>, b: Seq<T>)
    requires
        a.len() == b.len(),
        a.len() > 0,
    ensures
        seqs_eq_by(a, b) <==> (a[0].eq_spec(&b[0]) && seqs_eq_by(a.drop_first(), b.drop_first())),
{
    if seqs_eq_by(a, b) {
        assert forall|i: int| 0 <= i < a.drop_first().len() implies #[trigger] a.drop_first()[i].eq_spec(
            &b.drop_first()[i],
        ) by {
            assert(a[i + 1].eq_spec(&b[i + 1]));
        }
    }
    if a[0].eq_spec(&b[0]) && seqs_eq_by(a.drop_first(), b.drop_first()) {
        assert forall|i: int| 0 <= i < a.len() implies #[trigger] a[i].eq_spec(&b[i]) by {
            if i > 0 {
                assert(a.drop_first()[i - 1].eq_spec(&b.drop_first()[i - 1]));
            }
        }
    }
}

impl<T: PartialEq> PartialEq for List<T> {
    /// Two lists are equal iff their lengths are equal and their element
    /// sequences are pairwise equal in head-to-tail order. The length check
    /// reads the cached lengths and short-circuits; otherwise the walk stops
    /// at the first mismatching pair.
    fn eq(&self, other: &List<T>) -> (r: bool) {
        if self.len() != other.len() {
            return false;
        }
        let mut a = self.iter();
        let mut b = other.iter();
        loop
            invariant
                a@.len() == b@.len(),
                T::obeys_eq_spec() ==> (seqs_eq_by(self@, other@) <==> seqs_eq_by(a@, b@)),
            decreases a@.len(),
        {
            let ghost (ao, bo) = (a@, b@);
            let x = a.next();
            let y = b.next();
            match (x, y) {
                (Some(xe), Some(ye)) => {
                    proof {
                        lemma_seqs_eq_by_step(ao, bo);
                    }
                    if !(xe == ye) {
                        return false;
                    }
                },
                (None, None) => {
                    return true;
                },
                _ => {
                    // one cursor cannot run out before the other: the walks
                    // started at equal lengths and step in lockstep
                    proof {
                        assert(false);
                    }
                    return true;
                },
            }
        }
    }
}

impl<T: PartialEq> vstd::std_specs::cmp::PartialEqSpecImpl for List<T> {
    open spec fn obeys_eq_spec() -> bool {
        T::obeys_eq_spec()
    }

    open spec fn eq_spec(&self, other: &List<T>) -> bool {
        seqs_eq_by(self@, other@)
    }
}

/// List equality is a full equivalence relation whenever element equality
/// is one.
impl<T: Eq> Eq for List<T> {

}

impl<T: PartialOrd> PartialOrd for List<T> {
    /// Lexicographic comparison over the head-to-tail sequences: the first
    /// element pair that does not compare `Equal` decides, even when later
    /// pairs would have differed; when one list runs out first it orders
    /// before the other.
    fn partial_cmp(&self, other: &List<T>) -> (r: Option<Ordering>) {
        let mut a = self.iter();
        let mut b = other.iter();
        loop
            invariant
                T::obeys_partial_cmp_spec() ==> seqs_lex_partial_cmp_by(self@, other@)
                    == seqs_lex_partial_cmp_by(a@, b@),
            decreases a@.len(),
        {
            let x = a.next();
            let y = b.next();
            match (x, y) {
                (Some(xe), Some(ye)) => {
                    match xe.partial_cmp(ye) {
                        Some(Ordering::Equal) => {
                        },
                        c => {
                            return c;
                        },
                    }
                },
                (None, None) => {
                    return Some(Ordering::Equal);
                },
                (None, Some(_)) => {
                    return Some(Ordering::Less);
                },
                (Some(_), None) => {
                    return Some(Ordering::Greater);
                },
            }
        }
    }
}

impl<T: PartialOrd> vstd::std_specs::cmp::PartialOrdSpecImpl for List<T> {
    open spec fn obeys_partial_cmp_spec() -> bool {
        T::obeys_partial_cmp_spec()
    }

    open spec fn partial_cmp_spec(&self, other: &List<T>) -> Option<Ordering> {
        seqs_lex_partial_cmp_by(self@, other@)
    }
}

impl<T: Ord> List<T> {
    /// Lexicographic comparison under the element type's total order: the
    /// first unequal element pair decides; a strict prefix orders before the
    /// longer list.
    pub fn cmp(&self, other: &List<T>) -> (r: Ordering)
        ensures
            T::obeys_cmp_spec() ==> r == seqs_lex_cmp_by(self@, other@),
    {
        let mut a = self.iter();
        let mut b = other.iter();
        loop
            invariant
                T::obeys_cmp_spec() ==> seqs_lex_cmp_by(self@, other@) == seqs_lex_cmp_by(a@, b@),
            decreases a@.len(),
        {
            let x = a.next();
            let y = b.next();
            match (x, y) {
                (Some(xe), Some(ye)) => {
                    match xe.cmp(ye) {
                        Ordering::Equal => {
                        },
                        c => {
                            return c;
                        },
                    }
                },
                (None, None) => {
                    return Ordering::Equal;
                },
                (None, Some(_)) => {
                    return Ordering::Less;
                },
                (Some(_), None) => {
                    return Ordering::Greater;
                },
            }
        }
    }
}

} // verus!
