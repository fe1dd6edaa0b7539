use vstd::prelude::*;
use vstd::string::StrSliceExecFns;

verus! {

/// The syntactic screen a session applies to a refspec before queueing it:
/// the string must be non-empty, must hold no NUL character (it has to cross
/// a C-string boundary intact), and may hold at most one `:` separating the
/// source side from the destination side.
pub open spec fn valid_refspec(s: Seq<char>) -> bool {
    &&& s.len() > 0
    &&& forall|i: int| 0 <= i < s.len() ==> s[i] != '\0'
    &&& forall|i: int, j: int| 0 <= i < j < s.len() ==> !(s[i] == ':' && s[j] == ':')
}

/// Decide whether a refspec passes the session's syntactic screen.
pub fn is_valid_refspec(s: &str) -> (b: bool)
    ensures
        b == valid_refspec(s@),
{
    let n: usize = s.unicode_len();
    if n == 0 {
        return false;
    }
    let mut seen_colon = false;
    let mut i: usize = 0;
    while i < n
        invariant
            n == s@.len(),
            0 <= i <= n,
            forall|k: int| 0 <= k < i ==> s@[k] != '\0',
            seen_colon <==> exists|k: int| 0 <= k < i && s@[k] == ':',
            forall|p: int, q: int| 0 <= p < q < i ==> !(s@[p] == ':' && s@[q] == ':'),
        decreases n - i,
    {
        let c = s.get_char(i);
        if c == '\0' {
            return false;
        }
        if c == ':' {
            if seen_colon {
                proof {
                    let k = choose|k: int| 0 <= k < i && s@[k] == ':';
                    assert(s@[k] == ':' && s@[i as int] == ':');
                }
                return false;
            }
            seen_colon = true;
        }
        i += 1;
    }
    true
}

} // verus!
