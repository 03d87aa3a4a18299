//! What identifies a sensor: its name, its number and its owner.

use crate::err::{ECommand, EIpmiPayload, EPacket, EParse, Error};
use crate::helpers::copy_range;
use crate::rmcp::ipmi::payload::lun::Lun;
use crate::rmcp::ipmi::storage::sdr::address::Channel;
use vstd::prelude::*;

verus! {

/// The name of a sensor, as the bytes the record holds, in one of four
/// encodings.
#[derive(Clone, Debug, PartialEq, Eq)]
pub enum SensorId {
    Unicode(Vec<u8>),
    BCDPlus(Vec<u8>),
    Ascii6BPacked(Vec<u8>),
    Ascii8BAndLatin1(Vec<u8>),
}

/// The name of a sensor as a mathematical value.
pub enum SensorIdView {
    Unicode(Seq<u8>),
    BCDPlus(Seq<u8>),
    Ascii6BPacked(Seq<u8>),
    Ascii8BAndLatin1(Seq<u8>),
}

impl View for SensorId {
    type V = SensorIdView;

    open spec fn view(&self) -> SensorIdView {
        match *self {
            SensorId::Unicode(v) => SensorIdView::Unicode(v@),
            SensorId::BCDPlus(v) => SensorIdView::BCDPlus(v@),
            SensorId::Ascii6BPacked(v) => SensorIdView::Ascii6BPacked(v@),
            SensorId::Ascii8BAndLatin1(v) => SensorIdView::Ascii8BAndLatin1(v@),
        }
    }
}

impl SensorIdView {
    /// The length the type/length byte announces, or the length of `data`
    /// where that is shorter.
    pub open spec fn spec_len(type_length: u8, data: Seq<u8>) -> int {
        if type_length % 32 <= data.len() {
            (type_length % 32) as int
        } else {
            data.len() as int
        }
    }

    /// The name that a type/length byte and the bytes after it hold: the
    /// encoding is in the top two bits, the length in the low five.
    pub open spec fn spec_from(type_length: u8, data: Seq<u8>) -> SensorIdView {
        let text = data.subrange(0, SensorIdView::spec_len(type_length, data));
        let code = type_length / 64;
        if code == 0 {
            SensorIdView::Unicode(text)
        } else if code == 1 {
            SensorIdView::BCDPlus(text)
        } else if code == 2 {
            SensorIdView::Ascii6BPacked(text)
        } else {
            SensorIdView::Ascii8BAndLatin1(text)
        }
    }
}

impl SensorId {
    /// Reads a name from its type/length byte and the bytes after it.
    pub fn from(type_length: u8, data: &[u8]) -> (id: SensorId)
        ensures
            id@ == SensorIdView::spec_from(type_length, data@),
    {
        let announced = (type_length % 32) as usize;
        let length = if announced <= data.len() {
            announced
        } else {
            data.len()
        };
        let text = copy_range(data, 0, length);
        let code = type_length / 64;
        if code == 0 {
            SensorId::Unicode(text)
        } else if code == 1 {
            SensorId::BCDPlus(text)
        } else if code == 2 {
            SensorId::Ascii6BPacked(text)
        } else {
            SensorId::Ascii8BAndLatin1(text)
        }
    }

    /// The bytes of the name.
    pub fn bytes(&self) -> (bytes: &Vec<u8>)
        ensures
            bytes@ == match self@ {
                SensorIdView::Unicode(v) => v,
                SensorIdView::BCDPlus(v) => v,
                SensorIdView::Ascii6BPacked(v) => v,
                SensorIdView::Ascii8BAndLatin1(v) => v,
            },
    {
        match self {
            SensorId::Unicode(v) => v,
            SensorId::BCDPlus(v) => v,
            SensorId::Ascii6BPacked(v) => v,
            SensorId::Ascii8BAndLatin1(v) => v,
        }
    }
}

impl Default for SensorId {
    /// The empty name.
    fn default() -> (id: SensorId)
        ensures
            id@ == SensorIdView::Unicode(Seq::<u8>::empty()),
    {
        SensorId::Unicode(Vec::new())
    }
}

/// The number of a sensor: any byte but 0xFF, which is reserved.
#[derive(Clone, Copy, Debug, PartialEq, Eq, Structural)]
pub struct SensorNumber(u8);

impl SensorNumber {
    #[verifier::type_invariant]
    spec fn inv(&self) -> bool {
        self.0 != 0xff
    }

    /// The number as a mathematical value.
    pub closed spec fn spec_get(&self) -> u8 {
        self.0
    }

    /// The sensor number `value`; there is none for 0xFF.
    pub fn new(value: u8) -> (number: Option<SensorNumber>)
        ensures
            number is Some <==> value != 0xff,
            number matches Some(n) ==> n.spec_get() == value,
    {
        if value != 0xff {
            Some(SensorNumber(value))
        } else {
            None
        }
    }

    /// The number, which is not 0xFF.
    pub fn get(&self) -> (value: u8)
        ensures
            value == self.spec_get(),
            value != 0xff,
    {
        proof {
            use_type_invariant(self);
        }
        self.0
    }
}

/// The owner of a sensor: a device on the I2C bus or system software, with
/// its seven-bit identifier.
#[derive(Clone, Copy, Debug, PartialEq, Eq, Structural)]
pub enum SensorOwner {
    I2C(u8),
    System(u8),
}

impl SensorOwner {
    /// The owner that the byte `value` names: the identifier is in the upper
    /// seven bits, and the lowest bit tells system software from a device.
    pub open spec fn spec_of_byte(value: u8) -> SensorOwner {
        if value % 2 == 1 {
            SensorOwner::System(value / 2)
        } else {
            SensorOwner::I2C(value / 2)
        }
    }

    /// The owner that the byte `value` names.
    pub fn of_byte(value: u8) -> (owner: SensorOwner)
        ensures
            owner == SensorOwner::spec_of_byte(value),
    {
        if value % 2 == 1 {
            SensorOwner::System(value / 2)
        } else {
            SensorOwner::I2C(value / 2)
        }
    }

    /// The byte that names this owner: the low seven bits of the identifier
    /// above the kind bit.
    pub open spec fn spec_to_byte(&self) -> u8 {
        match *self {
            SensorOwner::I2C(id) => ((id % 128) * 2) as u8,
            SensorOwner::System(id) => ((id % 128) * 2 + 1) as u8,
        }
    }

    /// The byte that names this owner.
    pub fn to_byte(&self) -> (byte: u8)
        ensures
            byte == self.spec_to_byte(),
    {
        match self {
            SensorOwner::I2C(id) => (*id % 128) * 2,
            SensorOwner::System(id) => (*id % 128) * 2 + 1,
        }
    }
}

impl From<u8> for SensorOwner {
    fn from(value: u8) -> (owner: SensorOwner) {
        SensorOwner::of_byte(value)
    }
}

impl vstd::std_specs::convert::FromSpecImpl<u8> for SensorOwner {
    open spec fn obeys_from_spec() -> bool {
        true
    }

    open spec fn from_spec(value: u8) -> SensorOwner {
        SensorOwner::spec_of_byte(value)
    }
}

impl From<SensorOwner> for u8 {
    fn from(value: SensorOwner) -> (byte: u8) {
        value.to_byte()
    }
}

impl vstd::std_specs::convert::FromSpecImpl<SensorOwner> for u8 {
    open spec fn obeys_from_spec() -> bool {
        true
    }

    open spec fn from_spec(value: SensorOwner) -> u8 {
        value.spec_to_byte()
    }
}

/// Every byte names an owner that writes back as the same byte.
pub proof fn lemma_sensor_owner_round_trip(byte: u8)
    ensures
        SensorOwner::spec_of_byte(byte).spec_to_byte() == byte,
{
}

/// The key of a sensor: who owns it, on which channel, and its number.
#[derive(Clone, Copy, Debug, PartialEq, Eq, Structural)]
pub struct SensorKey {
    pub owner_id: SensorOwner,
    pub owner_channel: Channel,
    pub fru_inv_device_owner_lun: Lun,
    pub owner_lun: Lun,
    pub sensor_number: SensorNumber,
}

/// The logical unit with the two-bit number `code`.
pub open spec fn lun_of(code: int) -> Lun {
    if code == 0 {
        Lun::Bmc
    } else if code == 1 {
        Lun::Oem1
    } else if code == 2 {
        Lun::Sms
    } else {
        Lun::Oem2
    }
}

fn lun_from(code: u8) -> (lun: Lun)
    ensures
        lun == lun_of(code as int),
{
    if code == 0 {
        Lun::Bmc
    } else if code == 1 {
        Lun::Oem1
    } else if code == 2 {
        Lun::Sms
    } else {
        Lun::Oem2
    }
}

/// The error for a sensor record that cannot be parsed.
pub open spec fn parse_failure(what: EParse) -> Error {
    Error::Packet(EPacket::IpmiPayload(EIpmiPayload::Command(ECommand::Parse(what))))
}

impl SensorKey {
    /// The error with which the three bytes of a key are refused, if they
    /// are: a key has three bytes, its channel is neither 0xC nor 0xD, and
    /// its sensor number is not 0xFF.
    pub open spec fn parse_error(record_data: Seq<u8>) -> Option<Error> {
        if record_data.len() != 3 {
            Some(parse_failure(EParse::SensorKeyLength))
        } else if record_data[1] / 16 == 0xC || record_data[1] / 16 == 0xD {
            Some(parse_failure(EParse::SensorChannelReserved))
        } else if record_data[2] == 0xff {
            Some(parse_failure(EParse::SensorNumberReserved))
        } else {
            None
        }
    }

    /// Whether `key` is what the three bytes hold: the owner; the channel
    /// in the upper half of the second byte, the logical unit of the FRU
    /// inventory device in its bits 3 and 2 and that of the owner in its
    /// bits 1 and 0; the sensor number.
    pub open spec fn parsed_from(key: SensorKey, record_data: Seq<u8>) -> bool {
        &&& key.owner_id == SensorOwner::spec_of_byte(record_data[0])
        &&& key.owner_channel.spec_value() == record_data[1] / 16
        &&& key.fru_inv_device_owner_lun == lun_of(((record_data[1] / 4) % 4) as int)
        &&& key.owner_lun == lun_of((record_data[1] % 4) as int)
        &&& key.sensor_number.spec_get() == record_data[2]
    }

    /// Parses the three bytes of a sensor key.
    pub fn parse(record_data: &[u8]) -> (key: Result<SensorKey, Error>)
        ensures
            match key {
                Ok(k) => SensorKey::parse_error(record_data@) is None && SensorKey::parsed_from(
                    k,
                    record_data@,
                ),
                Err(e) => SensorKey::parse_error(record_data@) == Some(e),
            },
    {
        if record_data.len() != 3 {
            return Err(
                Error::Packet(
                    EPacket::IpmiPayload(
                        EIpmiPayload::Command(ECommand::Parse(EParse::SensorKeyLength)),
                    ),
                ),
            );
        }
        let owner_id = SensorOwner::of_byte(record_data[0]);
        let owner_channel_fru_lun = record_data[1];
        let owner_channel = match Channel::new(owner_channel_fru_lun / 16) {
            Some(c) => c,
            None => {
                return Err(
                    Error::Packet(
                        EPacket::IpmiPayload(
                            EIpmiPayload::Command(ECommand::Parse(EParse::SensorChannelReserved)),
                        ),
                    ),
                );
            },
        };
        let fru_inv_device_owner_lun = lun_from((owner_channel_fru_lun / 4) % 4);
        let owner_lun = lun_from(owner_channel_fru_lun % 4);
        let sensor_number = match SensorNumber::new(record_data[2]) {
            Some(n) => n,
            None => {
                return Err(
                    Error::Packet(
                        EPacket::IpmiPayload(
                            EIpmiPayload::Command(ECommand::Parse(EParse::SensorNumberReserved)),
                        ),
                    ),
                );
            },
        };
        Ok(SensorKey { owner_id, owner_channel, fru_inv_device_owner_lun, owner_lun, sensor_number })
    }
}

/// How a raw reading is turned into a value.
#[derive(Clone, Copy, Debug, PartialEq, Eq, Structural)]
pub enum Linearization {
    Linear,
    Ln,
    Log10,
    Log2,
    E,
    Exp10,
    Exp2,
    OneOverX,
    Sqr,
    Cube,
    Sqrt,
    CubeRoot,
    Oem(u8),
    Unknown(u8),
}

impl Linearization {
    pub open spec fn spec_from(value: u8) -> Linearization {
        if value == 0 {
            Linearization::Linear
        } else if value == 1 {
            Linearization::Ln
        } else if value == 2 {
            Linearization::Log10
        } else if value == 3 {
            Linearization::Log2
        } else if value == 4 {
            Linearization::E
        } else if value == 5 {
            Linearization::Exp10
        } else if value == 6 {
            Linearization::Exp2
        } else if value == 7 {
            Linearization::OneOverX
        } else if value == 8 {
            Linearization::Sqr
        } else if value == 9 {
            Linearization::Sqrt
        } else if value == 10 {
            Linearization::Cube
        } else if value == 11 {
            Linearization::Sqrt
        } else if value == 12 {
            Linearization::CubeRoot
        } else if 0x71 <= value && value <= 0x7F {
            Linearization::Oem(value)
        } else {
            Linearization::Unknown(value)
        }
    }

    /// The linearization with code `value`.
    pub fn from(value: u8) -> (linearization: Linearization)
        ensures
            linearization == Linearization::spec_from(value),
    {
        match value {
            0 => Linearization::Linear,
            1 => Linearization::Ln,
            2 => Linearization::Log10,
            3 => Linearization::Log2,
            4 => Linearization::E,
            5 => Linearization::Exp10,
            6 => Linearization::Exp2,
            7 => Linearization::OneOverX,
            8 => Linearization::Sqr,
            9 => Linearization::Sqrt,
            10 => Linearization::Cube,
            11 => Linearization::Sqrt,
            12 => Linearization::CubeRoot,
            0x71..=0x7F => Linearization::Oem(value),
            v => Linearization::Unknown(v),
        }
    }
}

/// Whether a sensor measures an input or an output.
#[derive(Clone, Copy, Debug, PartialEq, Eq, Structural)]
pub enum Direction {
    UnspecifiedNotApplicable,
    Input,
    Output,
}

impl Direction {
    pub open spec fn spec_try_from(value: u8) -> Result<Direction, ()> {
        if value == 0 {
            Ok(Direction::UnspecifiedNotApplicable)
        } else if value == 1 {
            Ok(Direction::Input)
        } else if value == 2 {
            Ok(Direction::Output)
        } else {
            Err(())
        }
    }

    /// The direction with code `value`, which must be at most 2.
    pub fn try_from(value: u8) -> (direction: Result<Direction, ()>)
        ensures
            direction == Direction::spec_try_from(value),
    {
        match value {
            0 => Ok(Direction::UnspecifiedNotApplicable),
            1 => Ok(Direction::Input),
            2 => Ok(Direction::Output),
            _ => Err(()),
        }
    }
}

} // verus!
