use vstd::prelude::*;

verus! {

/// Does `lit` occur in `s` exactly at character position `pos`?
pub fn lit_at(s: &str, pos: usize, lit: &str) -> (r: bool)
    requires
        pos <= s@.len(),
    ensures
        r <==> (pos + lit@.len() <= s@.len() && s@.subrange(
            pos as int,
            pos + lit@.len(),
        ) == lit@),
{
    let sn = s.unicode_len();
    let ln = lit.unicode_len();
    if ln > sn - pos {
        return false;
    }
    let mut i: usize = 0;
    while i < ln
        invariant
            i <= ln,
            pos + ln <= sn,
            sn == s@.len(),
            ln == lit@.len(),
            forall|j: int| 0 <= j < i ==> s@[pos + j] == lit@[j],
        decreases ln - i,
    {
        if s.get_char(pos + i) != lit.get_char(i) {
            proof {
                let sub = s@.subrange(pos as int, pos + lit@.len());
                assert(sub[i as int] == s@[pos + i]);
            }
            return false;
        }
        i += 1;
    }
    proof {
        assert(s@.subrange(pos as int, pos + lit@.len()) =~= lit@);
    }
    true
}

/// Character-for-character string equality.
pub fn str_eq(a: &str, b: &str) -> (r: bool)
    ensures
        r <==> a@ == b@,
{
    let an = a.unicode_len();
    let bn = b.unicode_len();
    if an != bn {
        return false;
    }
    let r = lit_at(a, 0, b);
    proof {
        assert(a@.subrange(0, b@.len() as int) =~= a@);
    }
    r
}

} // verus!
