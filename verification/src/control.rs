//! Codec for the 16-bit conversion-control register.
//!
//! Layout, most significant bit first: the four hardware-set done flags in
//! bits 15..=12 (slot 4 down to slot 1), the four measure trigger flags in
//! bits 11..=8 (slot 4 down to slot 1), `repeat` in bit 7, a reserved bit,
//! the 2-bit rate code in bits 5..=4, three reserved bits, and `reset` as the
//! least significant bit.
//!
//! The done flags are read-only: hardware sets them and the driver must never
//! write them back. The encoder therefore forces their four bit positions to
//! zero whatever value it is handed, so the read-only contract is enforced at
//! the codec boundary rather than by caller discipline.

use vstd::prelude::*;

verus! {

/// The fields of the conversion-control register.
#[derive(Clone, Copy, Debug, PartialEq, Eq, Structural)]
pub struct FDCConfiguration {
    /// Hardware-set completion flag of slot 4 (read-only).
    pub done_4: bool,
    /// Hardware-set completion flag of slot 3 (read-only).
    pub done_3: bool,
    /// Hardware-set completion flag of slot 2 (read-only).
    pub done_2: bool,
    /// Hardware-set completion flag of slot 1 (read-only).
    pub done_1: bool,
    /// Trigger flag of slot 4: true requests activation of the slot.
    pub meas_4: bool,
    /// Trigger flag of slot 3.
    pub meas_3: bool,
    /// Trigger flag of slot 2.
    pub meas_2: bool,
    /// Trigger flag of slot 1.
    pub meas_1: bool,
    /// Continuous (true) versus single-shot (false) conversion.
    pub repeat: bool,
    /// 2-bit sample-rate code: 1 = 100 SPS, 2 = 200 SPS, 3 = 400 SPS;
    /// 0 is reserved.
    pub rate: u8,
    /// Soft-reset trigger.
    pub reset: bool,
}

/// 1 when the flag is set, 0 otherwise.
pub open spec fn spec_bit(b: bool) -> u16 {
    if b {
        1
    } else {
        0
    }
}

impl FDCConfiguration {
    /// A configuration is valid when its rate code fits the register's 2-bit
    /// field.
    pub open spec fn wf(self) -> bool {
        self.rate < 4
    }

    /// The register value the driver writes for this configuration. The done
    /// flags do not appear: their bit positions are always zero.
    pub open spec fn spec_bits(self) -> u16 {
        (spec_bit(self.meas_4) << 11u16) | (spec_bit(self.meas_3) << 10u16) | (spec_bit(self.meas_2)
            << 9u16) | (spec_bit(self.meas_1) << 8u16) | (spec_bit(self.repeat) << 7u16) | ((
        self.rate as u16) << 4u16) | spec_bit(self.reset)
    }

    /// The configuration a raw register value denotes. Total: this register
    /// has no channel fields, so decoding cannot fail.
    pub open spec fn spec_from_bits(value: u16) -> FDCConfiguration {
        FDCConfiguration {
            done_4: (value >> 15u16) & 1 == 1,
            done_3: (value >> 14u16) & 1 == 1,
            done_2: (value >> 13u16) & 1 == 1,
            done_1: (value >> 12u16) & 1 == 1,
            meas_4: (value >> 11u16) & 1 == 1,
            meas_3: (value >> 10u16) & 1 == 1,
            meas_2: (value >> 9u16) & 1 == 1,
            meas_1: (value >> 8u16) & 1 == 1,
            repeat: (value >> 7u16) & 1 == 1,
            rate: ((value >> 4u16) & 3) as u8,
            reset: value & 1 == 1,
        }
    }

    /// Pack the configuration into the value written to the device. The four
    /// done-flag positions (the four most significant bits) come out zero
    /// regardless of the input's done fields.
    pub fn into_bits(self) -> (r: u16)
        requires
            self.wf(),
        ensures
            r == self.spec_bits(),
            r & 0xF000 == 0,
    {
        let m4: u16 = if self.meas_4 { 1 } else { 0 };
        let m3: u16 = if self.meas_3 { 1 } else { 0 };
        let m2: u16 = if self.meas_2 { 1 } else { 0 };
        let m1: u16 = if self.meas_1 { 1 } else { 0 };
        let rp: u16 = if self.repeat { 1 } else { 0 };
        let rate: u16 = self.rate as u16;
        let rs: u16 = if self.reset { 1 } else { 0 };
        let r: u16 = (m4 << 11u16) | (m3 << 10u16) | (m2 << 9u16) | (m1 << 8u16) | (rp << 7u16) | (
        rate << 4u16) | rs;
        proof {
            lemma_control_fields_pack(m4, m3, m2, m1, rp, rate, rs);
        }
        r
    }

    /// Unpack a raw register value as read from the device, done flags
    /// included. Total, infallible.
    pub fn from_bits(value: u16) -> (r: FDCConfiguration)
        ensures
            r == Self::spec_from_bits(value),
            r.wf(),
    {
        proof {
            assert((value >> 4u16) & 3 < 4) by (bit_vector);
        }
        FDCConfiguration {
            done_4: (value >> 15u16) & 1 == 1,
            done_3: (value >> 14u16) & 1 == 1,
            done_2: (value >> 13u16) & 1 == 1,
            done_1: (value >> 12u16) & 1 == 1,
            meas_4: (value >> 11u16) & 1 == 1,
            meas_3: (value >> 10u16) & 1 == 1,
            meas_2: (value >> 9u16) & 1 == 1,
            meas_1: (value >> 8u16) & 1 == 1,
            repeat: (value >> 7u16) & 1 == 1,
            rate: ((value >> 4u16) & 3) as u8,
            reset: value & 1 == 1,
        }
    }
}

/// Packing the writable fields at their bit positions and extracting each
/// again gives the fields back; the four most significant bits of the packed
/// value are zero.
pub proof fn lemma_control_fields_pack(
    m4: u16,
    m3: u16,
    m2: u16,
    m1: u16,
    rp: u16,
    rate: u16,
    rs: u16,
)
    requires
        m4 < 2,
        m3 < 2,
        m2 < 2,
        m1 < 2,
        rp < 2,
        rate < 4,
        rs < 2,
    ensures
        ((m4 << 11u16) | (m3 << 10u16) | (m2 << 9u16) | (m1 << 8u16) | (rp << 7u16) | (rate
            << 4u16) | rs) & 0xF000 == 0,
        (((m4 << 11u16) | (m3 << 10u16) | (m2 << 9u16) | (m1 << 8u16) | (rp << 7u16) | (rate
            << 4u16) | rs) >> 11u16) & 1 == m4,
        (((m4 << 11u16) | (m3 << 10u16) | (m2 << 9u16) | (m1 << 8u16) | (rp << 7u16) | (rate
            << 4u16) | rs) >> 10u16) & 1 == m3,
        (((m4 << 11u16) | (m3 << 10u16) | (m2 << 9u16) | (m1 << 8u16) | (rp << 7u16) | (rate
            << 4u16) | rs) >> 9u16) & 1 == m2,
        (((m4 << 11u16) | (m3 << 10u16) | (m2 << 9u16) | (m1 << 8u16) | (rp << 7u16) | (rate
            << 4u16) | rs) >> 8u16) & 1 == m1,
        (((m4 << 11u16) | (m3 << 10u16) | (m2 << 9u16) | (m1 << 8u16) | (rp << 7u16) | (rate
            << 4u16) | rs) >> 7u16) & 1 == rp,
        (((m4 << 11u16) | (m3 << 10u16) | (m2 << 9u16) | (m1 << 8u16) | (rp << 7u16) | (rate
            << 4u16) | rs) >> 4u16) & 3 == rate,
        ((m4 << 11u16) | (m3 << 10u16) | (m2 << 9u16) | (m1 << 8u16) | (rp << 7u16) | (rate
            << 4u16) | rs) & 1 == rs,
{
    assert({
        let v = (m4 << 11u16) | (m3 << 10u16) | (m2 << 9u16) | (m1 << 8u16) | (rp << 7u16) | (rate
            << 4u16) | rs;
        v & 0xF000 == 0 && (v >> 11u16) & 1 == m4 && (v >> 10u16) & 1 == m3 && (v >> 9u16) & 1 == m2
            && (v >> 8u16) & 1 == m1 && (v >> 7u16) & 1 == rp && (v >> 4u16) & 3 == rate && v & 1
            == rs
    }) by (bit_vector)
        requires
            m4 < 2,
            m3 < 2,
            m2 < 2,
            m1 < 2,
            rp < 2,
            rate < 4,
            rs < 2,
    ;
}

/// Read-only enforcement: the encoding of any conversion-control value has
/// its four most significant bits — the done-flag positions — equal to zero,
/// whatever the input's done flags hold.
pub proof fn lemma_control_encode_done_flags_zero(c: FDCConfiguration)
    requires
        c.wf(),
    ensures
        c.spec_bits() & 0xF000 == 0,
{
    lemma_control_fields_pack(
        spec_bit(c.meas_4),
        spec_bit(c.meas_3),
        spec_bit(c.meas_2),
        spec_bit(c.meas_1),
        spec_bit(c.repeat),
        c.rate as u16,
        spec_bit(c.reset),
    );
}

/// Round trip: for every valid conversion-control value, decoding the encoded
/// register value reproduces every writable field exactly, and the four done
/// flags read back as false — also when the input had them set.
pub proof fn lemma_control_round_trip(c: FDCConfiguration)
    requires
        c.wf(),
    ensures
        FDCConfiguration::spec_from_bits(c.spec_bits()) == (FDCConfiguration {
            done_4: false,
            done_3: false,
            done_2: false,
            done_1: false,
            meas_4: c.meas_4,
            meas_3: c.meas_3,
            meas_2: c.meas_2,
            meas_1: c.meas_1,
            repeat: c.repeat,
            rate: c.rate,
            reset: c.reset,
        }),
{
    lemma_control_fields_pack(
        spec_bit(c.meas_4),
        spec_bit(c.meas_3),
        spec_bit(c.meas_2),
        spec_bit(c.meas_1),
        spec_bit(c.repeat),
        c.rate as u16,
        spec_bit(c.reset),
    );
    let v = c.spec_bits();
    assert(v & 0xF000 == 0 ==> (v >> 15u16) & 1 == 0 && (v >> 14u16) & 1 == 0 && (v >> 13u16) & 1
        == 0 && (v >> 12u16) & 1 == 0) by (bit_vector);
}

} // verus!
