//! Filling one frame of an interleaved device buffer.

use vstd::prelude::*;

verus! {

/// Writes one interleaved device frame: the left value goes to the first
/// slot and, on a device with more than one channel, the right value to the
/// second. Any further slots are left as they were.
pub fn write_frame<T: Copy>(frame: &mut [T], left: T, right: T)
    requires
        old(frame)@.len() >= 1,
    ensures
        final(frame)@ == if old(frame)@.len() > 1 {
            old(frame)@.update(0, left).update(1, right)
        } else {
            old(frame)@.update(0, left)
        },
{
    frame[0] = left;
    if frame.len() > 1 {
        frame[1] = right;
    }
}

} // verus!
