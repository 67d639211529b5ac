use vstd::prelude::*;

verus! {

/// A character code with ASCII capitals taken to lower case, as the store's
/// `LIKE` compares.
pub open spec fn folded(c: char) -> u32 {
    if 65 <= (c as u32) <= 90 {
        (c as u32 + 32) as u32
    } else {
        c as u32
    }
}

/// The pattern occurs in the text at a position, ignoring ASCII case.
pub open spec fn occurs_at(text: Seq<char>, pat: Seq<char>, i: int) -> bool {
    &&& 0 <= i
    &&& i + pat.len() <= text.len()
    &&& forall|j: int| 0 <= j < pat.len() ==> folded(#[trigger] text[i + j]) == folded(pat[j])
}

/// The pattern occurs somewhere in the text, ignoring ASCII case.
pub open spec fn contains_folded(text: Seq<char>, pat: Seq<char>) -> bool {
    exists|i: int| occurs_at(text, pat, i)
}

fn fold_char(c: char) -> (r: u32)
    ensures
        r == folded(c),
{
    let v = c as u32;
    if 65 <= v && v <= 90 {
        v + 32
    } else {
        v
    }
}

/// Whether the pattern occurs in the text, ignoring ASCII case.
pub fn contains_ignoring_case(text: &str, pat: &str) -> (r: bool)
    ensures
        r == contains_folded(text@, pat@),
{
    let n = text.unicode_len();
    let m = pat.unicode_len();
    if m > n {
        assert forall|i: int| !occurs_at(text@, pat@, i) by {}
        return false;
    }
    let mut i: usize = 0;
    while i <= n - m
        invariant
            n == text@.len(),
            m == pat@.len(),
            m <= n,
            forall|k: int| 0 <= k < i ==> !occurs_at(text@, pat@, k),
        decreases n - m + 1 - i,
    {
        let mut j: usize = 0;
        let mut same = true;
        while j < m && same
            invariant
                n == text@.len(),
                m == pat@.len(),
                i + m <= n,
                j <= m,
                same ==> forall|t: int| 0 <= t < j ==> folded(#[trigger] text@[i + t]) == folded(
                    pat@[t],
                ),
                !same ==> !occurs_at(text@, pat@, i as int),
            decreases m - j + (if same { 1int } else { 0int }),
        {
            if fold_char(text.get_char(i + j)) != fold_char(pat.get_char(j)) {
                same = false;
            } else {
                j = j + 1;
            }
        }
        if same {
            assert(occurs_at(text@, pat@, i as int));
            return true;
        }
        i = i + 1;
    }
    assert forall|k: int| !occurs_at(text@, pat@, k) by {}
    false
}

} // verus!
