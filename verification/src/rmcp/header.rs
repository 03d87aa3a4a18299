//! The four-byte RMCP header that opens every datagram.

use crate::err::{EPacket, ERMCPHeader, Error};
use vstd::prelude::*;

verus! {

/// The class of message an RMCP datagram carries.
#[derive(Clone, Copy, Debug, PartialEq, Eq, Structural)]
pub enum MessageClass {
    Asf,
    Ipmi,
    Oem,
}

impl MessageClass {
    /// The message class that the byte `value` names, if it names one.
    pub open spec fn spec_try_from(value: u8) -> Result<MessageClass, ERMCPHeader> {
        if value == 6 {
            Ok(MessageClass::Asf)
        } else if value == 7 {
            Ok(MessageClass::Ipmi)
        } else if value == 8 {
            Ok(MessageClass::Oem)
        } else {
            Err(ERMCPHeader::UnsupportedMessageClass(value))
        }
    }

    /// The message class that the byte `value` names, if it names one.
    pub fn try_from(value: u8) -> (converted: Result<MessageClass, ERMCPHeader>)
        ensures
            converted == MessageClass::spec_try_from(value),
    {
        if value == 6 {
            Ok(MessageClass::Asf)
        } else if value == 7 {
            Ok(MessageClass::Ipmi)
        } else if value == 8 {
            Ok(MessageClass::Oem)
        } else {
            Err(ERMCPHeader::UnsupportedMessageClass(value))
        }
    }

    /// The byte that names this message class.
    pub open spec fn spec_to_byte(&self) -> u8 {
        match *self {
            MessageClass::Asf => 6,
            MessageClass::Ipmi => 7,
            MessageClass::Oem => 8,
        }
    }

    /// The byte that names this message class.
    pub fn to_byte(&self) -> (byte: u8)
        ensures
            byte == self.spec_to_byte(),
    {
        match *self {
            MessageClass::Asf => 6,
            MessageClass::Ipmi => 7,
            MessageClass::Oem => 8,
        }
    }
}

/// The RMCP header.
#[derive(Clone, Copy, Debug, PartialEq, Eq, Structural)]
pub struct RmcpHeader {
    /// 0x06 for RMCP version 1.0.
    pub version: u8,
    /// Written as zero.
    pub reserved: u8,
    /// 255 where no RMCP acknowledge is wanted, else 0 to 254.
    pub sequence_number: u8,
    /// Whether the message is an acknowledge: the top bit of the class byte.
    pub rmcp_ack: bool,
    /// The low four bits of the class byte.
    pub message_class: MessageClass,
}

impl RmcpHeader {
    /// The header that `bytes` hold, or why they hold none.
    pub open spec fn spec_parse(bytes: Seq<u8>) -> Result<RmcpHeader, Error> {
        if bytes.len() != 4 {
            Err(Error::Packet(EPacket::RmcpHeader(ERMCPHeader::WrongLength)))
        } else {
            match MessageClass::spec_try_from((bytes[3] % 16) as u8) {
                Ok(message_class) => Ok(
                    RmcpHeader {
                        version: bytes[0],
                        reserved: bytes[1],
                        sequence_number: bytes[2],
                        rmcp_ack: bytes[3] >= 128,
                        message_class,
                    },
                ),
                Err(e) => Err(Error::Packet(EPacket::RmcpHeader(e))),
            }
        }
    }

    /// Parses the four bytes of an RMCP header.
    pub fn try_from(value: &[u8]) -> (header: Result<RmcpHeader, Error>)
        ensures
            header == RmcpHeader::spec_parse(value@),
    {
        if value.len() != 4 {
            return Err(Error::Packet(EPacket::RmcpHeader(ERMCPHeader::WrongLength)));
        }
        match MessageClass::try_from(value[3] % 16) {
            Ok(message_class) => Ok(
                RmcpHeader {
                    version: value[0],
                    reserved: value[1],
                    sequence_number: value[2],
                    rmcp_ack: value[3] >= 128,
                    message_class,
                },
            ),
            Err(e) => Err(Error::Packet(EPacket::RmcpHeader(e))),
        }
    }

    /// The class byte: the acknowledge flag above the message class.
    pub open spec fn spec_class_byte(&self) -> u8 {
        ((if self.rmcp_ack {
            128int
        } else {
            0int
        }) + self.message_class.spec_to_byte()) as u8
    }

    /// The four bytes of this header.
    pub open spec fn spec_bytes(&self) -> Seq<u8> {
        seq![self.version, self.reserved, self.sequence_number, self.spec_class_byte()]
    }

    /// Serialises this header.
    pub fn to_bytes(&self) -> (bytes: [u8; 4])
        ensures
            bytes@ == self.spec_bytes(),
    {
        let ack: u8 = if self.rmcp_ack {
            128
        } else {
            0
        };
        let bytes = [
            self.version,
            self.reserved,
            self.sequence_number,
            ack + self.message_class.to_byte(),
        ];
        assert(bytes@ =~= self.spec_bytes());
        bytes
    }

    /// Serialises this header into a vector.
    pub fn to_vec(&self) -> (bytes: Vec<u8>)
        ensures
            bytes@ == self.spec_bytes(),
    {
        let b = self.to_bytes();
        let mut out = Vec::new();
        out.push(b[0]);
        out.push(b[1]);
        out.push(b[2]);
        out.push(b[3]);
        assert(out@ =~= self.spec_bytes());
        out
    }

    /// The header of every packet this library sends: RMCP version 1.0, no
    /// acknowledge wanted, class IPMI.
    pub open spec fn spec_default() -> RmcpHeader {
        RmcpHeader {
            version: 0x06,
            reserved: 0,
            sequence_number: 0xff,
            rmcp_ack: false,
            message_class: MessageClass::Ipmi,
        }
    }
}

impl Default for RmcpHeader {
    fn default() -> (header: RmcpHeader)
        ensures
            header == RmcpHeader::spec_default(),
    {
        RmcpHeader {
            version: 0x06,
            reserved: 0,
            sequence_number: 0xff,
            rmcp_ack: false,
            message_class: MessageClass::Ipmi,
        }
    }
}

/// An RMCP header survives being written and read back.
pub proof fn lemma_rmcp_header_round_trip(header: RmcpHeader)
    ensures
        RmcpHeader::spec_parse(header.spec_bytes()) == Ok::<RmcpHeader, Error>(header),
        RmcpHeader::spec_default().spec_bytes() == seq![0x06u8, 0x00u8, 0xffu8, 0x07u8],
{
    assert(RmcpHeader::spec_default().spec_bytes() =~= seq![0x06u8, 0x00u8, 0xffu8, 0x07u8]);
}

} // verus!
