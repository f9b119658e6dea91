//! Collections of string keys held in vectors, read as sets of keys.

use vstd::prelude::*;

verus! {

/// Whether some element of `v` holds the characters `k`.
pub open spec fn holds_key(v: Seq<String>, k: Seq<char>) -> bool {
    exists|i: int| 0 <= i < v.len() && (#[trigger] v[i])@ == k
}

/// Whether some element of `v` holds the characters of `k`.
pub fn vec_has(v: &Vec<String>, k: &str) -> (r: bool)
    ensures
        r == holds_key(v@, k@),
{
    let mut i: usize = 0;
    while i < v.len()
        invariant
            i <= v.len(),
            forall|j: int| 0 <= j < i ==> (#[trigger] v@[j])@ != k@,
        decreases v.len() - i,
    {
        if crate::text::str_eq(v[i].as_str(), k) {
            assert(v@[i as int]@ == k@);
            return true;
        }
        i = i + 1;
    }
    false
}

/// Removes every element holding the characters of `k`, keeping the others in order.
pub fn vec_remove_all(v: &mut Vec<String>, k: &str)
    ensures
        forall|x: Seq<char>| holds_key(final(v)@, x) <==> (holds_key(old(v)@, x) && x != k@),
        final(v)@.len() <= old(v)@.len(),
{
    let ghost s = v@;
    let mut i: usize = 0;
    let ghost mut j: int = 0;
    while i < v.len()
        invariant
            0 <= i <= j <= s.len(),
            v@.len() - i == s.len() - j,
            v@.skip(i as int) == s.skip(j),
            forall|x: Seq<char>| holds_key(v@.take(i as int), x) <==> (holds_key(s.take(j), x) && x != k@),
        decreases v.len() - i,
    {
        assert(v@[i as int] == s.skip(j)[0]);
        assert(s.skip(j)[0] == s[j]);
        let ghost before = v@;
        if crate::text::str_eq(v[i].as_str(), k) {
            v.remove(i);
            assert(v@.take(i as int) =~= before.take(i as int));
            assert(v@.skip(i as int) =~= before.skip(i + 1));
            assert(before.skip(i + 1) =~= before.skip(i as int).drop_first());
            assert(s.skip(j + 1) =~= s.skip(j).drop_first());
            let ghost a = v@.take(i as int);
            let ghost b = s.take(j + 1);
            assert forall|x: Seq<char>| #[trigger] holds_key(a, x) <==> (holds_key(b, x) && x != k@) by {
                if holds_key(s.take(j + 1), x) && x != k@ {
                    let m = choose|m: int| 0 <= m < j + 1 && (#[trigger] s.take(j + 1)[m])@ == x;
                    assert(m < j);
                    assert(s.take(j)[m] == s.take(j + 1)[m]);
                }
                if holds_key(s.take(j), x) {
                    let m = choose|m: int| 0 <= m < j && (#[trigger] s.take(j)[m])@ == x;
                    assert(s.take(j + 1)[m] == s.take(j)[m]);
                }
            }
        } else {
            assert(s.take(j + 1) =~= s.take(j).push(s[j]));
            assert(v@.take(i + 1) =~= v@.take(i as int).push(s[j]));
            assert(v@.skip(i + 1) =~= v@.skip(i as int).drop_first());
            assert(s.skip(j + 1) =~= s.skip(j).drop_first());
            let ghost a = v@.take(i + 1);
            let ghost b = s.take(j + 1);
            assert forall|x: Seq<char>| #[trigger] holds_key(a, x) <==> (holds_key(b, x) && x != k@) by {
                assert(holds_key(v@.take(i as int), x) <==> (holds_key(s.take(j), x) && x != k@));
                if holds_key(v@.take(i + 1), x) {
                    let m = choose|m: int| 0 <= m < i + 1 && (#[trigger] v@.take(i + 1)[m])@ == x;
                    if m < i {
                        assert(v@.take(i + 1)[m] == v@.take(i as int)[m]);
                        assert(holds_key(v@.take(i as int), x));
                        let m2 = choose|m2: int| 0 <= m2 < j && (#[trigger] s.take(j)[m2])@ == x;
                        assert(s.take(j + 1)[m2] == s.take(j)[m2]);
                    } else {
                        assert(s.take(j + 1)[j] == s[j]);
                    }
                }
                if holds_key(s.take(j + 1), x) && x != k@ {
                    let m = choose|m: int| 0 <= m < j + 1 && (#[trigger] s.take(j + 1)[m])@ == x;
                    if m < j {
                        assert(s.take(j)[m] == s.take(j + 1)[m]);
                        assert(holds_key(s.take(j), x));
                        let m2 = choose|m2: int| 0 <= m2 < i && (#[trigger] v@.take(i as int)[m2])@ == x;
                        assert(v@.take(i + 1)[m2] == v@.take(i as int)[m2]);
                    } else {
                        assert(v@.take(i + 1)[i as int] == s[j]);
                    }
                }
            }
            i = i + 1;
        }
        proof {
            j = j + 1;
        }
    }
    assert(s.take(j) =~= s);
    assert(v@.take(i as int) =~= v@);
}

} // verus!
