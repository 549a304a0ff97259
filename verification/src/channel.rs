//! The four analog input channels and their 2-bit wire encoding.

use vstd::prelude::*;

use crate::errors::InvalidChannelCode;

verus! {

/// One of the device's four capacitive input channels.
///
/// On the wire a channel is a 2-bit unsigned code: the four channels map
/// bijectively onto the codes 0 through 3, and the codes 4 through 7 are
/// invalid and are never produced by the encoder.
#[derive(Clone, Copy, Debug, PartialEq, Eq, Structural)]
pub enum CHANNEL {
    CIN1,
    CIN2,
    CIN3,
    CIN4,
}

impl CHANNEL {
    /// The 2-bit wire code of this channel.
    pub open spec fn spec_code(self) -> u16 {
        match self {
            CHANNEL::CIN1 => 0,
            CHANNEL::CIN2 => 1,
            CHANNEL::CIN3 => 2,
            CHANNEL::CIN4 => 3,
        }
    }

    /// The channel a wire code denotes; `None` for the invalid codes 4..=7
    /// (and anything larger).
    pub open spec fn spec_from_code(code: u16) -> Option<CHANNEL> {
        if code == 0 {
            Some(CHANNEL::CIN1)
        } else if code == 1 {
            Some(CHANNEL::CIN2)
        } else if code == 2 {
            Some(CHANNEL::CIN3)
        } else if code == 3 {
            Some(CHANNEL::CIN4)
        } else {
            None
        }
    }

    /// Encode this channel as its wire code. Total, infallible, bijective
    /// onto {0, 1, 2, 3}.
    pub fn into_bits(self) -> (r: u16)
        ensures
            r == self.spec_code(),
            r < 4,
    {
        match self {
            CHANNEL::CIN1 => 0,
            CHANNEL::CIN2 => 1,
            CHANNEL::CIN3 => 2,
            CHANNEL::CIN4 => 3,
        }
    }

    /// Decode a wire code. Fails with `InvalidChannelCode` for every code
    /// outside {0, 1, 2, 3}; such a code can only come from the hardware or
    /// from corrupted data, so the failure is a recoverable result, never a
    /// process abort.
    pub fn from_bits(value: u16) -> (r: Result<CHANNEL, InvalidChannelCode>)
        ensures
            r matches Ok(c) ==> Self::spec_from_code(value) == Some(c),
            r is Err <==> value >= 4,
    {
        match value {
            0 => Ok(CHANNEL::CIN1),
            1 => Ok(CHANNEL::CIN2),
            2 => Ok(CHANNEL::CIN3),
            3 => Ok(CHANNEL::CIN4),
            _ => Err(InvalidChannelCode),
        }
    }
}

/// The wire encoding of channels is a bijection between the four channels and
/// the codes 0 through 3: decoding a channel's code gives the channel back,
/// and every code below 4 decodes to the one channel that encodes to it.
pub proof fn lemma_channel_code_bijective()
    ensures
        forall|c: CHANNEL| #[trigger] CHANNEL::spec_from_code(c.spec_code()) == Some(c),
        forall|code: u16|
            code < 4 ==> match #[trigger] CHANNEL::spec_from_code(code) {
                Some(c) => c.spec_code() == code,
                None => false,
            },
        forall|code: u16| code >= 4 ==> #[trigger] CHANNEL::spec_from_code(code) is None,
{
    assert forall|c: CHANNEL| #[trigger] CHANNEL::spec_from_code(c.spec_code()) == Some(c) by {
        match c {
            CHANNEL::CIN1 => assert(CHANNEL::spec_from_code(0) == Some(CHANNEL::CIN1)),
            CHANNEL::CIN2 => assert(CHANNEL::spec_from_code(1) == Some(CHANNEL::CIN2)),
            CHANNEL::CIN3 => assert(CHANNEL::spec_from_code(2) == Some(CHANNEL::CIN3)),
            CHANNEL::CIN4 => assert(CHANNEL::spec_from_code(3) == Some(CHANNEL::CIN4)),
        }
    }
}

} // verus!
