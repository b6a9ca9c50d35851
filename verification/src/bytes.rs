//! Small byte-sequence helpers shared by the key deriver and the event
//! serializer.

use vstd::prelude::*;

verus! {

/// The bytes of an ASCII character sequence, one byte per character.
pub open spec fn ascii_bytes(s: Seq<char>) -> Seq<u8> {
    Seq::new(s.len(), |i: int| s[i] as u8)
}

/// Appends every byte of `component` to `out`, in order.
pub fn push_bytes(out: &mut Vec<u8>, component: &[u8])
    ensures
        final(out)@ == old(out)@ + component@,
{
    let n: usize = component.len();
    let mut i: usize = 0;
    while i < n
        invariant
            i <= n,
            n == component@.len(),
            out@ == old(out)@ + component@.subrange(0, i as int),
        decreases n - i,
    {
        out.push(component[i]);
        proof {
            assert(out@ =~= old(out)@ + component@.subrange(0, i + 1));
        }
        i = i + 1;
    }
    proof {
        assert(component@.subrange(0, n as int) =~= component@);
    }
}

} // verus!
