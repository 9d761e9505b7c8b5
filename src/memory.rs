//! The memory load: a large buffer that is rewritten again and again.

use vstd::prelude::*;

verus! {

/// Size in bytes of the buffer that the memory load rewrites.
pub const RAM_BUFFER_BYTES: usize = 512 * 1024 * 1024;

/// The byte that one rewriting pass stores at index `i`.
pub open spec fn pattern_byte(i: int) -> u8 {
    (i % 256) as u8
}

/// Whether `s` holds the pattern byte at every index.
pub open spec fn holds_pattern(s: Seq<u8>) -> bool {
    forall|i: int| 0 <= i < s.len() ==> #[trigger] s[i] == pattern_byte(i)
}

/// A zeroed buffer of `RAM_BUFFER_BYTES` bytes for the memory load.
pub fn new_ram_buffer() -> (buf: Vec<u8>)
    ensures
        buf@.len() == RAM_BUFFER_BYTES,
        forall|i: int| 0 <= i < buf@.len() ==> #[trigger] buf@[i] == 0u8,
{
    vec![0u8; RAM_BUFFER_BYTES]
}

/// One pass of the memory load: stores `i % 256` at every index `i` of `buf`,
/// keeping its length.
pub fn fill_pattern(buf: &mut Vec<u8>)
    ensures
        final(buf)@.len() == old(buf)@.len(),
        holds_pattern(final(buf)@),
{
    let n = buf.len();
    let mut i: usize = 0;
    while i < n
        invariant
            buf@.len() == n,
            i <= n,
            forall|j: int| 0 <= j < i ==> #[trigger] buf@[j] == pattern_byte(j),
        decreases n - i,
    {
        buf[i] = (i % 256) as u8;
        i = i + 1;
    }
}

/// One round of the memory load, given the stop signal as just read: when
/// the signal is raised, leaves `buf` alone and reports that the load is
/// over; otherwise makes one pass over `buf` and reports that it goes on.
pub fn ram_stress_step(stop_raised: bool, buf: &mut Vec<u8>) -> (more: bool)
    ensures
        more == !stop_raised,
        stop_raised ==> final(buf)@ == old(buf)@,
        !stop_raised ==> final(buf)@.len() == old(buf)@.len() && holds_pattern(final(buf)@),
{
    if stop_raised {
        false
    } else {
        fill_pattern(buf);
        true
    }
}

} // verus!
