//! Codec for the 16-bit measurement-configuration register.
//!
//! The register selects the channel pair and calibration offset of one
//! measurement slot. Layout: the positive channel's code in bits 10..=8, the
//! negative channel's code in bits 7..=5, the 5-bit offset in bits 4..=0; the
//! five high bits are unused, always written as zero and ignored on decode.

use vstd::prelude::*;

use crate::channel::CHANNEL;
use crate::errors::InvalidChannelCode;

verus! {

/// The three semantic fields of a measurement-configuration register.
#[derive(Clone, Copy, Debug, PartialEq, Eq, Structural)]
pub struct MeasurementConfiguration {
    /// Channel connected to the positive input of the slot.
    pub channel_positive: CHANNEL,
    /// Channel connected to the negative input of the slot.
    pub channel_negative: CHANNEL,
    /// 5-bit calibration offset code.
    pub offset_capacitance: u8,
}

impl MeasurementConfiguration {
    /// A configuration is valid when its offset fits the register's 5-bit
    /// field.
    pub open spec fn wf(self) -> bool {
        self.offset_capacitance < 32
    }

    /// The packed register value of a valid configuration.
    pub open spec fn spec_bits(self) -> u16 {
        (self.channel_positive.spec_code() << 8u16) | (self.channel_negative.spec_code() << 5u16)
            | (self.offset_capacitance as u16)
    }

    /// The positive-channel field of a raw register value.
    pub open spec fn spec_positive_field(value: u16) -> u16 {
        (value >> 8u16) & 7
    }

    /// The negative-channel field of a raw register value.
    pub open spec fn spec_negative_field(value: u16) -> u16 {
        (value >> 5u16) & 7
    }

    /// The offset field of a raw register value.
    pub open spec fn spec_offset_field(value: u16) -> u16 {
        value & 31
    }

    /// The configuration a raw register value denotes; `None` when either
    /// 3-bit channel field holds an invalid channel code. The five high bits
    /// are ignored.
    pub open spec fn spec_from_bits(value: u16) -> Option<MeasurementConfiguration> {
        match (
            CHANNEL::spec_from_code(Self::spec_positive_field(value)),
            CHANNEL::spec_from_code(Self::spec_negative_field(value)),
        ) {
            (Some(cp), Some(cn)) => Some(
                MeasurementConfiguration {
                    channel_positive: cp,
                    channel_negative: cn,
                    offset_capacitance: Self::spec_offset_field(value) as u8,
                },
            ),
            _ => None,
        }
    }

    /// Pack the configuration into its register value: the positive channel
    /// in bits 10..=8, the negative channel in bits 7..=5, the offset in bits
    /// 4..=0, zero elsewhere.
    pub fn into_bits(self) -> (r: u16)
        requires
            self.wf(),
        ensures
            r == self.spec_bits(),
            r & 0xF800 == 0,
    {
        let cp: u16 = self.channel_positive.into_bits();
        let cn: u16 = self.channel_negative.into_bits();
        let off: u16 = self.offset_capacitance as u16;
        let r: u16 = (cp << 8u16) | (cn << 5u16) | off;
        proof {
            lemma_measurement_fields_pack(cp, cn, off);
        }
        r
    }

    /// Unpack a raw register value. Each channel field goes through the
    /// channel decoder and propagates its failure; the high bits are ignored.
    pub fn from_bits(value: u16) -> (r: Result<MeasurementConfiguration, InvalidChannelCode>)
        ensures
            r matches Ok(mc) ==> Self::spec_from_bits(value) == Some(mc) && mc.wf(),
            r is Err <==> Self::spec_from_bits(value) is None,
    {
        let cp = match CHANNEL::from_bits((value >> 8u16) & 7) {
            Ok(c) => c,
            Err(e) => {
                return Err(e);
            },
        };
        let cn = match CHANNEL::from_bits((value >> 5u16) & 7) {
            Ok(c) => c,
            Err(e) => {
                return Err(e);
            },
        };
        let off: u8 = (value & 31) as u8;
        proof {
            assert(value & 31 < 32) by (bit_vector);
        }
        Ok(
            MeasurementConfiguration {
                channel_positive: cp,
                channel_negative: cn,
                offset_capacitance: off,
            },
        )
    }
}

/// Packing three in-range fields at their bit positions and extracting them
/// again gives the fields back, and the five unused high bits of the packed
/// value are zero.
pub proof fn lemma_measurement_fields_pack(cp: u16, cn: u16, off: u16)
    requires
        cp < 4,
        cn < 4,
        off < 32,
    ensures
        (((cp << 8u16) | (cn << 5u16) | off) >> 8u16) & 7 == cp,
        (((cp << 8u16) | (cn << 5u16) | off) >> 5u16) & 7 == cn,
        ((cp << 8u16) | (cn << 5u16) | off) & 31 == off,
        ((cp << 8u16) | (cn << 5u16) | off) & 0xF800 == 0,
{
    assert((((cp << 8u16) | (cn << 5u16) | off) >> 8u16) & 7 == cp && (((cp << 8u16) | (cn
        << 5u16) | off) >> 5u16) & 7 == cn && ((cp << 8u16) | (cn << 5u16) | off) & 31 == off && ((
    cp << 8u16) | (cn << 5u16) | off) & 0xF800 == 0) by (bit_vector)
        requires
            cp < 4,
            cn < 4,
            off < 32,
    ;
}

/// Round trip: for every valid configuration (any channel pair, offset below
/// 32), decoding the encoded register value reproduces the configuration
/// exactly.
pub proof fn lemma_measurement_configuration_round_trip(mc: MeasurementConfiguration)
    requires
        mc.wf(),
    ensures
        MeasurementConfiguration::spec_from_bits(mc.spec_bits()) == Some(mc),
{
    lemma_measurement_fields_pack(
        mc.channel_positive.spec_code(),
        mc.channel_negative.spec_code(),
        mc.offset_capacitance as u16,
    );
    crate::channel::lemma_channel_code_bijective();
}

} // verus!
