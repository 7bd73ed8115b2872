//! The output side of the fixed-buffer entry point.

use vstd::prelude::*;

verus! {

/// The status the entry point returns when it produced effects.
pub const STATUS_SUCCESS: i32 = 1;

/// The status the entry point returns when it did not.
pub const STATUS_FAILURE: i32 = 0;

/// Writes encoded effects into a caller's buffer of `out.len()` bytes. Where
/// they fit, they fill the front of the buffer, their length is written to
/// `out_len` and the status is success; where they do not, neither the
/// buffer nor `out_len` changes and the status is failure.
pub fn write_output(out: &mut [u8], out_len: &mut u64, encoded: &[u8]) -> (r: i32)
    ensures
        encoded@.len() > old(out)@.len() ==> r == STATUS_FAILURE && final(out)@ == old(out)@
            && *final(out_len) == *old(out_len),
        encoded@.len() <= old(out)@.len() ==> r == STATUS_SUCCESS && final(out)@ == encoded@
            + old(out)@.skip(encoded@.len() as int) && *final(out_len) == encoded@.len(),
{
    if encoded.len() > out.len() {
        return STATUS_FAILURE;
    }
    let ghost before = out@;
    let mut i: usize = 0;
    while i < encoded.len()
        invariant
            0 <= i <= encoded@.len(),
            encoded@.len() <= before.len(),
            out@.len() == before.len(),
            out@ == encoded@.subrange(0, i as int) + before.skip(i as int),
        decreases encoded@.len() - i,
    {
        out[i] = encoded[i];
        i = i + 1;
        assert(out@ =~= encoded@.subrange(0, i as int) + before.skip(i as int));
    }
    assert(encoded@.subrange(0, i as int) =~= encoded@);
    *out_len = encoded.len() as u64;
    STATUS_SUCCESS
}

} // verus!
