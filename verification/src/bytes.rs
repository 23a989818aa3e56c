//! Byte-string helpers shared by the codecs.

use vstd::prelude::*;

verus! {

/// Whether two byte strings hold the same bytes.
pub fn bytes_eq(a: &[u8], b: &[u8]) -> (r: bool)
    ensures
        r == (a@ == b@),
{
    if a.len() != b.len() {
        proof {
            assert(a@ != b@);
        }
        return false;
    }
    let mut i: usize = 0;
    while i < a.len()
        invariant
            a@.len() == b@.len(),
            0 <= i <= a@.len(),
            forall|j: int| 0 <= j < i ==> a@[j] == b@[j],
        decreases a@.len() - i,
    {
        if a[i] != b[i] {
            proof {
                assert(a@ != b@);
            }
            return false;
        }
        i = i + 1;
    }
    proof {
        assert(a@ =~= b@);
    }
    true
}

/// ASCII letters raised to upper case, the rest untouched.
pub open spec fn ascii_upper(s: Seq<u8>) -> Seq<u8> {
    s.map_values(
        |c: u8|
            if 0x61 <= c && c <= 0x7A {
                (c - 0x20) as u8
            } else {
                c
            },
    )
}

/// Raises ASCII letters to upper case.
pub fn to_ascii_upper(s: &[u8]) -> (r: Vec<u8>)
    ensures
        r@ == ascii_upper(s@),
{
    let mut out: Vec<u8> = Vec::new();
    let mut i: usize = 0;
    while i < s.len()
        invariant
            0 <= i <= s@.len(),
            out@.len() == i,
            forall|j: int| 0 <= j < i ==> out@[j] == ascii_upper(s@)[j],
        decreases s@.len() - i,
    {
        let c = s[i];
        if 0x61 <= c && c <= 0x7A {
            out.push(c - 0x20);
        } else {
            out.push(c);
        }
        i = i + 1;
    }
    proof {
        assert(out@ =~= ascii_upper(s@));
    }
    out
}

} // verus!
