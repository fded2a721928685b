use vstd::prelude::*;

verus! {

/// The unsigned value of a big-endian byte sequence.
pub open spec fn be_value(s: Seq<u8>) -> int
    decreases s.len(),
{
    if s.len() == 0 {
        0
    } else {
        be_value(s.drop_last()) * 256 + s.last()
    }
}

/// Decodes a raw 8-byte frame into an event code.
///
/// The four most significant bytes hold the event's time and are discarded;
/// the remaining four bytes are read as a big-endian integer.
pub fn decode_frame(frame: [u8; 8]) -> (r: i64)
    ensures
        r == be_value(frame@.subrange(4, 8)),
        0 <= r < 0x1_0000_0000,
{
    let r: i64 = (frame[4] as i64) * 0x100_0000 + (frame[5] as i64) * 0x1_0000
        + (frame[6] as i64) * 0x100 + (frame[7] as i64);
    proof {
        let s = frame@.subrange(4, 8);
        reveal_with_fuel(be_value, 5);
        assert(s.drop_last().drop_last().drop_last().drop_last() =~= Seq::<u8>::empty());
        assert(s.drop_last().drop_last().drop_last() =~= seq![frame[4]]);
        assert(s.drop_last().drop_last() =~= seq![frame[4], frame[5]]);
        assert(s.drop_last() =~= seq![frame[4], frame[5], frame[6]]);
    }
    r
}

} // verus!
