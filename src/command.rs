//! The ping command frame.

use vstd::prelude::*;
use crate::numeric::{hex_digits, push_hex};

verus! {

/// The identifier as the 32-bit pattern that hexadecimal formatting prints.
pub open spec fn id_bits(id: i32) -> nat {
    if id >= 0 {
        id as nat
    } else {
        (id + 0x1_0000_0000) as nat
    }
}

/// `>>p:<lowercase hex of id>:4\n`.
pub open spec fn ping_frame(id: i32) -> Seq<u8> {
    seq![62u8, 62, 112, 58] + hex_digits(id_bits(id)) + seq![58u8, 52, 10]
}

/// The frame that asks a master to ping the board `id`.
pub fn build_ping(id: i32) -> (r: Vec<u8>)
    ensures
        r@ == ping_frame(id),
{
    let mut out: Vec<u8> = Vec::new();
    out.push(62);
    out.push(62);
    out.push(112);
    out.push(58);
    let bits: u32 = if id >= 0 {
        id as u32
    } else {
        (id as i64 + 0x1_0000_0000i64) as u32
    };
    push_hex(&mut out, bits);
    out.push(58);
    out.push(52);
    out.push(10);
    assert(out@ =~= ping_frame(id));
    out
}

} // verus!
