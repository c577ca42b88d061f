//! The shared per-port registers, modeled as packed 32-bit words: two bits
//! per pin for mode-select and pull-configuration, one bit per pin for
//! output-type, output-data and input-data. Every update function proves
//! that it rewrites only the field of the addressed pin and reads every
//! other pin's field back unchanged bit-for-bit.

use vstd::prelude::*;

verus! {

/// The two-bit field of pin `i` within a packed register word.
pub open spec fn field2(word: u32, i: u32) -> u32
    recommends
        i < 16,
{
    (word >> (2 * i)) & 3u32
}

/// The one-bit field of pin `i` within a packed register word.
pub open spec fn bit1(word: u32, i: u32) -> u32
    recommends
        i < 16,
{
    (word >> i) & 1u32
}

/// The register word after the two-bit field of pin `i` is rewritten to
/// `v`, all other bits kept.
pub open spec fn set_field2(word: u32, i: u32, v: u32) -> u32
    recommends
        i < 16,
        v < 4,
{
    (word & !(3u32 << (2 * i))) | ((v & 3u32) << (2 * i))
}

/// The register word after the one-bit field of pin `i` is rewritten to
/// `v`, all other bits kept.
pub open spec fn set_bit1(word: u32, i: u32, v: u32) -> u32
    recommends
        i < 16,
        v < 2,
{
    (word & !(1u32 << i)) | ((v & 1u32) << i)
}

/// Read-modify-write of the two-bit field of pin `i`: the result holds `v`
/// in that field and every other pin's field unchanged.
pub fn write_field2(word: u32, i: u8, v: u32) -> (r: u32)
    requires
        i < 16,
        v < 4,
    ensures
        r == set_field2(word, i as u32, v),
        field2(r, i as u32) == v,
        forall|j: u32| j < 16 && j != i as u32 ==> field2(r, j) == field2(word, j),
{
    let sh: u32 = 2 * (i as u32);
    let mask: u32 = 3u32 << sh;
    let r: u32 = (word & !mask) | (v << sh);
    proof {
        assert(r == set_field2(word, i as u32, v) && field2(r, i as u32) == v && (forall|j: u32|
            j < 16 && j != i as u32 ==> field2(r, j) == field2(word, j))) by (bit_vector)
            requires
                i < 16,
                v < 4u32,
                sh == 2 * (i as u32),
                mask == 3u32 << sh,
                r == (word & !mask) | (v << sh),
        ;
    }
    r
}

/// Read-modify-write of the one-bit field of pin `i`: the result holds `v`
/// in that field and every other pin's field unchanged.
pub fn write_bit1(word: u32, i: u8, v: u32) -> (r: u32)
    requires
        i < 16,
        v < 2,
    ensures
        r == set_bit1(word, i as u32, v),
        bit1(r, i as u32) == v,
        forall|j: u32| j < 16 && j != i as u32 ==> bit1(r, j) == bit1(word, j),
{
    let sh: u32 = i as u32;
    let mask: u32 = 1u32 << sh;
    let r: u32 = (word & !mask) | (v << sh);
    proof {
        assert(r == set_bit1(word, i as u32, v) && bit1(r, i as u32) == v && (forall|j: u32|
            j < 16 && j != i as u32 ==> bit1(r, j) == bit1(word, j))) by (bit_vector)
            requires
                i < 16,
                v < 2u32,
                sh == i as u32,
                mask == 1u32 << sh,
                r == (word & !mask) | (v << sh),
        ;
    }
    r
}

/// The one-bit field of pin `i`, read out of a register word.
pub fn read_bit1(word: u32, i: u8) -> (r: u32)
    requires
        i < 16,
    ensures
        r == bit1(word, i as u32),
        r < 2,
{
    let sh: u32 = i as u32;
    let r: u32 = (word >> sh) & 1;
    proof {
        assert(r == bit1(word, i as u32) && r < 2u32) by (bit_vector)
            requires
                sh == i as u32,
                r == (word >> sh) & 1u32,
        ;
    }
    r
}

/// Rewrites of the two-bit fields of two distinct pins commute: after an
/// interleaving of two transitions on the same port word, each pin's field
/// holds its own value and every other pin's field is unchanged, exactly as
/// a serial execution in either order would have left them.
pub proof fn lemma_distinct_field_writes_commute(word: u32, i: u32, vi: u32, j: u32, vj: u32)
    requires
        i < 16,
        j < 16,
        i != j,
        vi < 4,
        vj < 4,
    ensures
        set_field2(set_field2(word, i, vi), j, vj) == set_field2(set_field2(word, j, vj), i, vi),
        field2(set_field2(set_field2(word, i, vi), j, vj), i) == vi,
        field2(set_field2(set_field2(word, i, vi), j, vj), j) == vj,
        forall|k: u32|
            k < 16 && k != i && k != j ==> field2(set_field2(set_field2(word, i, vi), j, vj), k)
                == field2(word, k),
{
    assert(set_field2(set_field2(word, i, vi), j, vj) == set_field2(
        set_field2(word, j, vj),
        i,
        vi,
    ) && field2(set_field2(set_field2(word, i, vi), j, vj), i) == vi && field2(
        set_field2(set_field2(word, i, vi), j, vj),
        j,
    ) == vj && (forall|k: u32|
        k < 16 && k != i && k != j ==> field2(set_field2(set_field2(word, i, vi), j, vj), k)
            == field2(word, k))) by (bit_vector)
        requires
            i < 16u32,
            j < 16u32,
            i != j,
            vi < 4u32,
            vj < 4u32,
    ;
}

/// Per-port mode-select register: two bits per pin choosing input (`00`)
/// or output (`01`) behavior.
pub struct ModeSelectReg {
    /// Port letter this register word belongs to.
    pub port: char,
    /// The packed register word.
    pub bits: u32,
}

/// Per-port output-type register: one bit per pin choosing push-pull (`0`)
/// or open-drain (`1`) output behavior.
pub struct OutputTypeReg {
    /// Port letter this register word belongs to.
    pub port: char,
    /// The packed register word.
    pub bits: u32,
}

/// Per-port pull-configuration register: two bits per pin selecting no
/// pull (`00`), pull-up (`01`) or pull-down (`10`).
pub struct PullConfigReg {
    /// Port letter this register word belongs to.
    pub port: char,
    /// The packed register word.
    pub bits: u32,
}

/// Per-port output-data register: one bit per pin holding the driven level.
pub struct OutputDataReg {
    /// Port letter this register word belongs to.
    pub port: char,
    /// The packed register word.
    pub bits: u32,
}

/// Per-port input-data register: one bit per pin holding the sensed level.
pub struct InputDataReg {
    /// Port letter this register word belongs to.
    pub port: char,
    /// The packed register word.
    pub bits: u32,
}

} // verus!
