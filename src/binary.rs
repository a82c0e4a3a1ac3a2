//! The persisted form: 64 bytes, little-endian two's complement, revision 1.
use vstd::prelude::*;
use crate::value::BiggerInt;

verus! {

/// The revision number of the persisted form.
pub const REVISION: u16 = 1;

/// Byte `k` (0 is least significant) of a limb.
pub open spec fn limb_byte(x: u64, k: int) -> u8 {
    (x >> (8 * k) as u64) as u8
}

/// The 64 bytes of eight limbs: byte `j` is byte `j % 8` of limb `j / 8`.
pub open spec fn le_bytes(limbs: Seq<u64>) -> Seq<u8> {
    Seq::new(64, |j: int| limb_byte(limbs[j / 8], j % 8))
}

/// The limb spelt by eight bytes, least significant first.
pub open spec fn limb_of_bytes(
    b0: u8,
    b1: u8,
    b2: u8,
    b3: u8,
    b4: u8,
    b5: u8,
    b6: u8,
    b7: u8,
) -> u64 {
    b0 as u64 | (b1 as u64) << 8u64 | (b2 as u64) << 16u64 | (b3 as u64) << 24u64 | (b4 as u64)
        << 32u64 | (b5 as u64) << 40u64 | (b6 as u64) << 48u64 | (b7 as u64) << 56u64
}

/// Limb `i` of a 64-byte buffer.
pub open spec fn limb_at(b: Seq<u8>, i: int) -> u64 {
    limb_of_bytes(
        b[8 * i],
        b[8 * i + 1],
        b[8 * i + 2],
        b[8 * i + 3],
        b[8 * i + 4],
        b[8 * i + 5],
        b[8 * i + 6],
        b[8 * i + 7],
    )
}

/// The limbs that a 64-byte buffer holds.
pub open spec fn limbs_of_bytes(b: Seq<u8>) -> Seq<u64> {
    Seq::new(8, |i: int| limb_at(b, i))
}

fn read_limb(b: &[u8; 64], i: usize) -> (r: u64)
    requires
        i < 8,
    ensures
        r == limb_at(b@, i as int),
{
    let k = 8 * i;
    b[k] as u64 | (b[k + 1] as u64) << 8u64 | (b[k + 2] as u64) << 16u64 | (b[k + 3] as u64)
        << 24u64 | (b[k + 4] as u64) << 32u64 | (b[k + 5] as u64) << 40u64 | (b[k + 6] as u64)
        << 48u64 | (b[k + 7] as u64) << 56u64
}

proof fn lemma_limb_bytes(x: u64)
    ensures
        limb_of_bytes(
            limb_byte(x, 0),
            limb_byte(x, 1),
            limb_byte(x, 2),
            limb_byte(x, 3),
            limb_byte(x, 4),
            limb_byte(x, 5),
            limb_byte(x, 6),
            limb_byte(x, 7),
        ) == x,
{
    assert(((x >> 0u64) as u8) as u64 | (((x >> 8u64) as u8) as u64) << 8u64 | (((x
        >> 16u64) as u8) as u64) << 16u64 | (((x >> 24u64) as u8) as u64) << 24u64 | (((x
        >> 32u64) as u8) as u64) << 32u64 | (((x >> 40u64) as u8) as u64) << 40u64 | (((x
        >> 48u64) as u8) as u64) << 48u64 | (((x >> 56u64) as u8) as u64) << 56u64 == x)
        by (bit_vector);
}

impl BiggerInt {
    /// The persisted form: the eight limbs, least significant first, each as
    /// eight little-endian bytes.
    pub fn to_le_bytes(&self) -> (r: Vec<u8>)
        ensures
            r@ == le_bytes(self.limbs@),
    {
        let mut out: Vec<u8> = Vec::new();
        let mut i: usize = 0;
        while i < 8
            invariant
                i <= 8,
                out@.len() == 8 * i,
                forall|j: int| 0 <= j < 8 * i ==> out@[j] == #[trigger] le_bytes(self.limbs@)[j],
            decreases 8 - i,
        {
            let x = self.limbs[i];
            out.push((x >> 0u64) as u8);
            out.push((x >> 8u64) as u8);
            out.push((x >> 16u64) as u8);
            out.push((x >> 24u64) as u8);
            out.push((x >> 32u64) as u8);
            out.push((x >> 40u64) as u8);
            out.push((x >> 48u64) as u8);
            out.push((x >> 56u64) as u8);
            assert forall|j: int| 0 <= j < 8 * (i + 1) implies out@[j] == #[trigger] le_bytes(
                self.limbs@,
            )[j] by {
                if j >= 8 * i {
                    let k = j - 8 * i;
                    assert(j / 8 == i as int && j % 8 == k);
                    assert(out@[j] == ((x >> (8 * k) as u64) as u8));
                }
            }
            i = i + 1;
        }
        assert(out@ =~= le_bytes(self.limbs@));
        out
    }

    /// Reads the persisted form. Every 64-byte pattern is a valid value, so
    /// no input is refused.
    pub fn from_le_bytes(b: &[u8; 64]) -> (r: BiggerInt)
        ensures
            r.limbs@ == limbs_of_bytes(b@),
    {
        let limbs: [u64; 8] = [
            read_limb(b, 0),
            read_limb(b, 1),
            read_limb(b, 2),
            read_limb(b, 3),
            read_limb(b, 4),
            read_limb(b, 5),
            read_limb(b, 6),
            read_limb(b, 7),
        ];
        let r = BiggerInt { limbs };
        assert(r.limbs@ =~= limbs_of_bytes(b@));
        r
    }

    pub fn revision() -> (r: u16)
        ensures
            r == REVISION,
    {
        REVISION
    }
}

/// Writing a value's 64 bytes and reading them back gives the same limbs,
/// hence the same value.
pub proof fn lemma_binary_round_trip(v: BiggerInt)
    ensures
        le_bytes(v.limbs@).len() == 64,
        limbs_of_bytes(le_bytes(v.limbs@)) == v.limbs@,
        crate::model::limbs_value(limbs_of_bytes(le_bytes(v.limbs@))) == v@,
{
    let b = le_bytes(v.limbs@);
    assert forall|i: int| 0 <= i < 8 implies #[trigger] limbs_of_bytes(b)[i] == v.limbs@[i] by {
        let x = v.limbs@[i];
        lemma_limb_bytes(x);
        assert((8 * i) / 8 == i && (8 * i) % 8 == 0);
        assert((8 * i + 1) / 8 == i && (8 * i + 1) % 8 == 1);
        assert((8 * i + 2) / 8 == i && (8 * i + 2) % 8 == 2);
        assert((8 * i + 3) / 8 == i && (8 * i + 3) % 8 == 3);
        assert((8 * i + 4) / 8 == i && (8 * i + 4) % 8 == 4);
        assert((8 * i + 5) / 8 == i && (8 * i + 5) % 8 == 5);
        assert((8 * i + 6) / 8 == i && (8 * i + 6) % 8 == 6);
        assert((8 * i + 7) / 8 == i && (8 * i + 7) % 8 == 7);
    }
    assert(limbs_of_bytes(b) =~= v.limbs@);
}

} // verus!
