//! The slash rule shared by both reference grammars: a reference must not
//! start or end with `/` and must not contain `//`.

use vstd::prelude::*;

verus! {

/// Whether trimmed reference text violates the slash rule.
pub open spec fn slash_misuse(t: Seq<char>) -> bool {
    ||| t.len() > 0 && t[0] == '/'
    ||| t.len() > 0 && t[t.len() - 1] == '/'
    ||| exists|i: int| 0 <= i < t.len() - 1 && #[trigger] t[i] == '/' && t[i + 1] == '/'
}

pub fn has_slash_misuse(t: &str) -> (r: bool)
    ensures
        r == slash_misuse(t@),
{
    let n = t.unicode_len();
    if n == 0 {
        return false;
    }
    if t.get_char(0) == '/' {
        return true;
    }
    if t.get_char(n - 1) == '/' {
        return true;
    }
    let mut i: usize = 0;
    while i < n - 1
        invariant
            n == t@.len(),
            n > 0,
            0 <= i <= n,
            t@[0] != '/',
            t@[n - 1] != '/',
            forall|j: int| 0 <= j < i ==> !(#[trigger] t@[j] == '/' && t@[j + 1] == '/'),
        decreases n - i,
    {
        if t.get_char(i) == '/' && t.get_char(i + 1) == '/' {
            proof {
                assert(slash_misuse(t@)) by {
                    assert(t@[i as int] == '/' && t@[i as int + 1] == '/');
                }
            }
            return true;
        }
        i = i + 1;
    }
    proof {
        assert(forall|j: int| 0 <= j < t@.len() - 1 ==> !(#[trigger] t@[j] == '/' && t@[j + 1] == '/'));
    }
    false
}

} // verus!
