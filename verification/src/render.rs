//! Textual rendering of a list: `[e0, e1, ..., en-1]`, comma-space
//! separated, head to tail; the empty list renders as `[]`.
//!
//! Each element is rendered by its own `Display` implementation, whose text
//! this crate does not model; what is pinned down is the bracket-and-comma
//! frame around whatever texts the elements produced.

use vstd::prelude::*;
use vstd::string::StringExecFns;

use crate::list::List;

verus! {

/// The given parts joined with a comma and a space between each two.
pub open spec fn joined(parts: Seq<Seq<char>>) -> Seq<char>
    decreases parts.len(),
{
    if parts.len() == 0 {
        Seq::empty()
    } else if parts.len() == 1 {
        parts[0]
    } else {
        joined(parts.drop_last()) + seq![',', ' '] + parts.last()
    }
}

/// The given parts joined with comma-space, between one opening and one
/// closing bracket.
pub open spec fn bracketed(parts: Seq<Seq<char>>) -> Seq<char> {
    seq!['['] + joined(parts) + seq![']']
}

/// `r` renders the elements `elems`: one part per element, each part a text
/// that the element's `Display` implementation can produce, and `r` exactly
/// the parts joined with comma-space inside brackets.
pub open spec fn is_rendering<T: core::fmt::Display>(
    elems: Seq<T>,
    parts: Seq<String>,
    r: Seq<char>,
) -> bool {
    &&& parts.len() == elems.len()
    &&& (forall|i: int|
        0 <= i < parts.len() ==> vstd::string::to_string_from_display_ensures::<T>(
            &elems[i],
            #[trigger] parts[i],
        ))
    &&& r == bracketed(parts.map_values(|p: String| p@))
}

impl<T: core::fmt::Display> List<T> {
    /// Renders the list as `[e0, e1, ..., en-1]` in head-to-tail order, each
    /// element rendered by its own `Display` implementation; the empty list
    /// renders as `[]`.
    pub fn to_display_string(&self) -> (r: String)
        ensures
            exists|parts: Seq<String>| is_rendering(self@, parts, r@),
            self@.len() == 0 ==> r@ == bracketed(Seq::<Seq<char>>::empty()),
    {
        let ghost mut parts: Seq<String> = Seq::empty();
        let mut out = String::new();
        out.append("[");
        proof {
            reveal_strlit("[");
            assert(out@ =~= seq!['[']);
            assert(out@ =~= seq!['['] + joined(parts.map_values(|p: String| p@)));
        }
        let n = self.len();
        let mut it = self.iter();
        let mut i: usize = 0;
        while i < n
            invariant
                n == self@.len(),
                i <= n,
                it@ =~= self@.subrange(i as int, n as int),
                parts.len() == i,
                forall|j: int|
                    0 <= j < parts.len() ==> vstd::string::to_string_from_display_ensures::<T>(
                        &self@[j],
                        #[trigger] parts[j],
                    ),
                out@ == seq!['['] + joined(parts.map_values(|p: String| p@)),
            decreases n - i,
        {
            let ghost prev = parts;
            let v = it.next().unwrap();
            if i != 0 {
                out.append(", ");
            }
            let s = v.to_string();
            out.append(s.as_str());
            proof {
                reveal_strlit(", ");
                assert(*v == self@[i as int]);
                parts = parts.push(s);
                let m = |p: String| p@;
                assert(parts.map_values(m).drop_last() =~= prev.map_values(m));
                assert(parts.map_values(m).last() == s@);
                if prev.len() == 0 {
                    assert(joined(parts.map_values(m)) == s@);
                } else {
                    assert(", "@ =~= seq![',', ' ']);
                    assert(joined(parts.map_values(m)) == joined(prev.map_values(m)) + seq![
                        ',',
                        ' ',
                    ] + s@);
                }
                assert(out@ == seq!['['] + joined(parts.map_values(m)));
            }
            i = i + 1;
        }
        out.append("]");
        proof {
            reveal_strlit("]");
            assert("]"@ =~= seq![']']);
            assert(out@ == bracketed(parts.map_values(|p: String| p@)));
            assert(is_rendering(self@, parts, out@));
        }
        out
    }
}

} // verus!
