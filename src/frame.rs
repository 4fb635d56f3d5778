use vstd::prelude::*;

verus! {

/// First byte of every frame.
pub const FRAME_HEADER: u8 = 0x5A;

/// The checksum of a frame: the sum of its first five bytes modulo 256.
pub open spec fn frame_checksum(payload: Seq<u8>) -> u8 {
    ((FRAME_HEADER as int + payload[0] as int + payload[1] as int + payload[2] as int
        + payload[3] as int) % 256) as u8
}

/// Frames four payload bytes: header, payload, checksum.
pub fn build_frame(custom_bytes: [u8; 4]) -> (r: [u8; 6])
    ensures
        r@ == seq![
            FRAME_HEADER,
            custom_bytes@[0],
            custom_bytes@[1],
            custom_bytes@[2],
            custom_bytes@[3],
            frame_checksum(custom_bytes@),
        ],
{
    let sum: u32 = FRAME_HEADER as u32 + custom_bytes[0] as u32 + custom_bytes[1] as u32
        + custom_bytes[2] as u32 + custom_bytes[3] as u32;
    let check = (sum % 256) as u8;
    let r = [FRAME_HEADER, custom_bytes[0], custom_bytes[1], custom_bytes[2], custom_bytes[3], check];
    assert(r@ =~= seq![
        FRAME_HEADER,
        custom_bytes@[0],
        custom_bytes@[1],
        custom_bytes@[2],
        custom_bytes@[3],
        frame_checksum(custom_bytes@),
    ]);
    r
}

} // verus!
