//! Where a sensor lives: its owner's address and channel.

use vstd::prelude::*;

verus! {

/// The address of a sensor's owner.
#[derive(Clone, Copy, Debug, PartialEq, Eq, Structural)]
pub struct Address(pub u8);

/// The number of a numbered channel: 1 to 0xB.
#[derive(Clone, Copy, Debug, PartialEq, Eq, Structural)]
pub struct ChannelNumber(u8);

impl ChannelNumber {
    #[verifier::type_invariant]
    spec fn inv(&self) -> bool {
        1 <= self.0 <= 0xB
    }

    /// The number as a mathematical value.
    pub closed spec fn spec_value(&self) -> u8 {
        self.0
    }

    /// The channel number `value`; there is none for 0 or above 0xB.
    pub fn new(value: u8) -> (number: Option<ChannelNumber>)
        ensures
            number is Some <==> 1 <= value <= 0xB,
            number matches Some(n) ==> n.spec_value() == value,
    {
        if 1 <= value && value <= 0xB {
            Some(ChannelNumber(value))
        } else {
            None
        }
    }

    /// The number, which is between 1 and 0xB.
    pub fn value(&self) -> (value: u8)
        ensures
            value == self.spec_value(),
            1 <= value <= 0xB,
    {
        proof {
            use_type_invariant(self);
        }
        self.0
    }
}

/// A channel of a BMC.
#[derive(Clone, Copy, Debug, PartialEq, Eq, Structural)]
pub enum Channel {
    Primary,
    Numbered(ChannelNumber),
    System,
    Current,
}

impl Channel {
    pub open spec fn spec_value(&self) -> u8 {
        match *self {
            Channel::Primary => 0x0,
            Channel::Numbered(n) => n.spec_value(),
            Channel::Current => 0xE,
            Channel::System => 0xF,
        }
    }

    /// The channel with number `value`; there is none for 0xC, for 0xD or
    /// above 0xF.
    pub fn new(value: u8) -> (channel: Option<Channel>)
        ensures
            channel is Some <==> (value <= 0xB || value == 0xE || value == 0xF),
            channel matches Some(c) ==> c.spec_value() == value,
            value == 0 ==> channel == Some(Channel::Primary),
            value == 0xE ==> channel == Some(Channel::Current),
            value == 0xF ==> channel == Some(Channel::System),
            1 <= value <= 0xB ==> channel matches Some(Channel::Numbered(_)),
    {
        if value == 0 {
            Some(Channel::Primary)
        } else if value == 0xE {
            Some(Channel::Current)
        } else if value == 0xF {
            Some(Channel::System)
        } else {
            match ChannelNumber::new(value) {
                Some(n) => Some(Channel::Numbered(n)),
                None => None,
            }
        }
    }

    /// The number of this channel, which is at most 0xF; 0xE for the current
    /// channel.
    pub fn value(&self) -> (value: u8)
        ensures
            value == self.spec_value(),
            value <= 0xF,
            value != 0xC,
            value != 0xD,
    {
        match self {
            Channel::Primary => 0x0,
            Channel::Numbered(v) => v.value(),
            Channel::Current => 0xE,
            Channel::System => 0xF,
        }
    }
}

} // verus!
