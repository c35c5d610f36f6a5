//! Decoding of revealed computation results.
//!
//! Once a result variable is opened, its value arrives as an encoded byte
//! string: every integer is little-endian, and a boolean is one byte that
//! is nonzero exactly when true.  The decoders are verified against that
//! byte-level statement.

use vstd::prelude::*;

use crate::zk::ZkVariable;
use crate::zk_compute::ComputationResultPub;
use crate::zk_compute::DrawResultPub;

verus! {

/// The value of a little-endian byte sequence.
pub open spec fn le_bytes(s: Seq<u8>) -> int
    decreases s.len(),
{
    if s.len() == 0 {
        0
    } else {
        s[0] + 256 * le_bytes(s.drop_first())
    }
}

/// `256^n`.
pub open spec fn pow256(n: nat) -> int
    decreases n,
{
    if n == 0 {
        1
    } else {
        256 * pow256((n - 1) as nat)
    }
}

/// A little-endian value is bounded by `256` to the number of its bytes.
pub proof fn lemma_le_bytes_bound(s: Seq<u8>)
    ensures
        0 <= le_bytes(s) < pow256(s.len()),
    decreases s.len(),
{
    if s.len() > 0 {
        lemma_le_bytes_bound(s.drop_first());
    }
}

/// `256^16` is one beyond the largest `u128`.
proof fn lemma_pow256_16()
    ensures
        pow256(16) == 0x100000000000000000000000000000000,
{
    reveal_with_fuel(pow256, 17);
}

/// Read a little-endian `u128` from the 16 bytes of `data` that start at
/// `offset`.
fn read_u128_le(data: &Vec<u8>, offset: usize) -> (r: u128)
    requires
        offset + 16 <= data@.len(),
    ensures
        r == le_bytes(data@.subrange(offset as int, offset as int + 16)),
{
    proof {
        lemma_pow256_16();
    }
    let dlen = data.len();
    let mut acc: u128 = 0;
    let mut i: usize = 16;
    while i > 0
        invariant
            0 <= i <= 16,
            acc == le_bytes(data@.subrange(offset + i, offset as int + 16)),
            acc < pow256((16 - i) as nat),
        decreases i,
    {
        i = i - 1;
        let ghost tail = data@.subrange(offset + i + 1, offset as int + 16);
        let ghost whole = data@.subrange(offset + i, offset as int + 16);
        proof {
            assert(whole.drop_first() =~= tail);
            assert(whole[0] == data@[offset + i]);
            assert(pow256((16 - i) as nat) == 256 * pow256((15 - i) as nat));
            lemma_pow256_mono((16 - i) as nat, 16);
        }
        acc = acc * 256 + (data[offset + i] as u128);
    }
    proof {
        assert(data@.subrange(offset as int, offset as int + 16) =~= data@.subrange(
            offset + 0,
            offset as int + 16,
        ));
    }
    acc
}

/// `256^m <= 256^n` when `m <= n`.
proof fn lemma_pow256_mono(m: nat, n: nat)
    requires
        m <= n,
    ensures
        pow256(m) <= pow256(n),
    decreases n,
{
    if m < n {
        lemma_pow256_mono(m, (n - 1) as nat);
        lemma_pow256_pos((n - 1) as nat);
    }
}

/// `256^n` is positive.
proof fn lemma_pow256_pos(n: nat)
    ensures
        pow256(n) >= 1,
    decreases n,
{
    if n > 0 {
        lemma_pow256_pos((n - 1) as nat);
    }
}

/// Whether `bytes` is a well-formed encoded credit/account result.
pub open spec fn is_computation_result(bytes: Seq<u8>) -> bool {
    bytes.len() == 17
}

/// The credit/account result encoded in `bytes`: 16 bytes of amount, then
/// one success byte.
pub open spec fn spec_computation_result(bytes: Seq<u8>) -> ComputationResultPub {
    ComputationResultPub {
        amount: le_bytes(bytes.subrange(0, 16)) as u128,
        successful: bytes[16] != 0,
    }
}

/// Whether `bytes` is a well-formed encoded draw result.
pub open spec fn is_draw_result(bytes: Seq<u8>) -> bool {
    bytes.len() == 33
}

/// The draw result encoded in `bytes`: 16 bytes of lottery key, 16 bytes of
/// winner key, then one success byte.
pub open spec fn spec_draw_result(bytes: Seq<u8>) -> DrawResultPub {
    DrawResultPub {
        lottery_id: le_bytes(bytes.subrange(0, 16)) as u128,
        winner_id: le_bytes(bytes.subrange(16, 32)) as u128,
        successful: bytes[32] != 0,
    }
}

/// Decode the revealed value of a credit or account result variable.
pub fn read_result(result_variable: &ZkVariable) -> (r: ComputationResultPub)
    requires
        result_variable.data matches Some(d) && is_computation_result(d@),
    ensures
        r == spec_computation_result(result_variable.data.unwrap()@),
{
    let data = match &result_variable.data {
        Some(d) => d,
        None => unreached(),
    };
    let amount = read_u128_le(data, 0);
    let successful = data[16] != 0;
    proof {
        lemma_le_bytes_bound(data@.subrange(0, 16));
        lemma_pow256_16();
    }
    ComputationResultPub { amount, successful }
}

/// Decode the revealed value of a winner-draw result variable.
pub fn read_draw_result(result_variable: &ZkVariable) -> (r: DrawResultPub)
    requires
        result_variable.data matches Some(d) && is_draw_result(d@),
    ensures
        r == spec_draw_result(result_variable.data.unwrap()@),
{
    let data = match &result_variable.data {
        Some(d) => d,
        None => unreached(),
    };
    let lottery_id = read_u128_le(data, 0);
    let winner_id = read_u128_le(data, 16);
    let successful = data[32] != 0;
    proof {
        lemma_le_bytes_bound(data@.subrange(0, 16));
        lemma_le_bytes_bound(data@.subrange(16, 32));
        lemma_pow256_16();
    }
    DrawResultPub { lottery_id, winner_id, successful }
}

} // verus!
