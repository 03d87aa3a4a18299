//! The command that reads a sensor.

use crate::err::Error;
use crate::rmcp::ipmi::commands::CommandCode;
use crate::rmcp::ipmi::payload::netfn::NetFn;
use crate::rmcp::ipmi::payload::request::ReqPayload;
use crate::rmcp::ipmi::IpmiCommand;
use crate::rmcp::packet::Payload;
use vstd::prelude::*;
use crate::rmcp::ipmi::storage::sdr::sensor::parse_failure;
use crate::rmcp::ipmi::storage::sdr::{Address, Channel, SensorKey, SensorNumber};
use crate::err::{ECommand, EIpmiPayload, EPacket, EParse};

verus! {

/// The command that reads the sensor with a given number.
#[derive(Clone, Copy, Debug, PartialEq, Eq, Structural)]
pub struct GetSensorReading {
    pub sensor_number: SensorNumber,
    pub address: Address,
    pub channel: Channel,
}

impl GetSensorReading {
    pub fn new(sensor_number: SensorNumber, address: Address, channel: Channel) -> (command:
        GetSensorReading)
        ensures
            command == (GetSensorReading { sensor_number, address, channel }),
    {
        GetSensorReading { sensor_number, address, channel }
    }

    /// The command that reads the sensor with key `sensor_key`.
    pub fn form_sensor_key(sensor_key: &SensorKey) -> (command: GetSensorReading)
        ensures
            command == (GetSensorReading {
                sensor_number: sensor_key.sensor_number,
                address: Address(sensor_key.owner_id.spec_to_byte()),
                channel: sensor_key.owner_channel,
            }),
    {
        GetSensorReading {
            sensor_number: sensor_key.sensor_number,
            address: Address(sensor_key.owner_id.to_byte()),
            channel: sensor_key.owner_channel,
        }
    }
}

/// A sensor reading as the BMC gives it.
#[derive(Clone, Copy, Debug, PartialEq, Eq, Structural)]
pub struct RawSensorReading {
    pub reading: u8,
    pub all_event_messages_disabled: bool,
    pub scanning_disabled: bool,
    pub reading_or_state_unavailable: bool,
    pub offset_data_1: Option<u8>,
    pub offset_data_2: Option<u8>,
}

impl RawSensorReading {
    /// The reading that `data` hold: the raw value, three flags in the
    /// second byte (the first two say "enabled" on the wire and are
    /// negated), and up to two bytes of state.
    pub open spec fn spec_parse(data: Seq<u8>) -> RawSensorReading {
        RawSensorReading {
            reading: data[0],
            all_event_messages_disabled: data[1] & 0x80 != 0x80,
            scanning_disabled: data[1] & 0x40 != 0x40,
            reading_or_state_unavailable: data[1] & 0x20 == 0x20,
            offset_data_1: if data.len() > 2 {
                Some(data[2])
            } else {
                None
            },
            offset_data_2: if data.len() > 3 {
                Some(data[3])
            } else {
                None
            },
        }
    }
}

impl IpmiCommand for GetSensorReading {
    type Output = RawSensorReading;

    open spec fn spec_netfn(&self) -> NetFn {
        NetFn::SensorEvent
    }

    open spec fn spec_command(&self) -> CommandCode {
        CommandCode::Raw(0x2d)
    }

    open spec fn spec_data(&self) -> Seq<u8> {
        seq![self.sensor_number.spec_get()]
    }

    open spec fn decodes(&self, data: Seq<u8>, output: RawSensorReading) -> bool {
        output == RawSensorReading::spec_parse(data)
    }

    open spec fn refuses(&self, data: Seq<u8>) -> Option<Error> {
        if data.len() < 2 {
            Some(parse_failure(EParse::RawSensorReadingLength))
        } else {
            None
        }
    }

    fn netfn(&self) -> (netfn: NetFn) {
        NetFn::SensorEvent
    }

    fn command(&self) -> (command: CommandCode) {
        CommandCode::Raw(0x2d)
    }

    fn payload(&self) -> (payload: Payload) {
        let mut data: Vec<u8> = Vec::new();
        data.push(self.sensor_number.get());
        assert(data@ =~= seq![self.sensor_number.spec_get()]);
        Payload::IpmiReq(ReqPayload::new(self.netfn(), self.command(), data))
    }

    fn parse(&self, data: &[u8]) -> (output: Result<RawSensorReading, Error>) {
        if data.len() < 2 {
            return Err(
                Error::Packet(
                    EPacket::IpmiPayload(
                        EIpmiPayload::Command(ECommand::Parse(EParse::RawSensorReadingLength)),
                    ),
                ),
            );
        }
        let flags = data[1];
        Ok(
            RawSensorReading {
                reading: data[0],
                all_event_messages_disabled: (flags & 0x80) != 0x80,
                scanning_disabled: (flags & 0x40) != 0x40,
                reading_or_state_unavailable: (flags & 0x20) == 0x20,
                offset_data_1: if data.len() > 2 {
                    Some(data[2])
                } else {
                    None
                },
                offset_data_2: if data.len() > 3 {
                    Some(data[3])
                } else {
                    None
                },
            },
        )
    }
}

/// Which thresholds a reading has crossed.
#[derive(Clone, Copy, Debug, PartialEq, Eq, Structural)]
pub struct ThresholdStatus {
    pub at_or_above_non_recoverable: bool,
    pub at_or_above_upper_critical: bool,
    pub at_or_above_upper_non_critical: bool,
    pub at_or_below_lower_non_recoverable: bool,
    pub at_or_below_lower_critical: bool,
    pub at_or_below_lower_non_critical: bool,
}

impl ThresholdStatus {
    /// The status that the state byte `state` holds.
    pub open spec fn spec_from(state: u8) -> ThresholdStatus {
        ThresholdStatus {
            at_or_above_non_recoverable: state & 0x20 == 0x20,
            at_or_above_upper_critical: state & 0x10 == 0x10,
            at_or_above_upper_non_critical: state & 0x08 == 0x08,
            at_or_below_lower_non_recoverable: state & 0x04 == 0x04,
            at_or_below_lower_critical: state & 0x20 == 0x20,
            at_or_below_lower_non_critical: state & 0x01 == 0x01,
        }
    }
}

/// The reading of a threshold sensor.
#[derive(Clone, Copy, Debug, PartialEq, Eq, Structural)]
pub struct ThresholdReading {
    pub all_event_messages_disabled: bool,
    pub scanning_disabled: bool,
    /// The raw value, unless the sensor has none to give.
    pub reading: Option<u8>,
    pub threshold_status: Option<ThresholdStatus>,
}

impl ThresholdReading {
    pub open spec fn spec_from(in_reading: RawSensorReading) -> ThresholdReading {
        ThresholdReading {
            all_event_messages_disabled: in_reading.all_event_messages_disabled,
            scanning_disabled: in_reading.scanning_disabled,
            reading: if in_reading.reading_or_state_unavailable {
                None
            } else {
                Some(in_reading.reading)
            },
            threshold_status: if in_reading.reading_or_state_unavailable {
                None
            } else {
                match in_reading.offset_data_1 {
                    Some(state) => Some(ThresholdStatus::spec_from(state)),
                    None => None,
                }
            },
        }
    }

    /// Reads a raw reading as that of a threshold sensor: there is neither
    /// value nor status where the sensor says it has none.
    pub fn from(in_reading: &RawSensorReading) -> (reading: ThresholdReading)
        ensures
            reading == ThresholdReading::spec_from(*in_reading),
    {
        let threshold_status = if in_reading.reading_or_state_unavailable {
            None
        } else {
            match in_reading.offset_data_1 {
                Some(d) => Some(
                    ThresholdStatus {
                        at_or_above_non_recoverable: (d & 0x20) == 0x20,
                        at_or_above_upper_critical: (d & 0x10) == 0x10,
                        at_or_above_upper_non_critical: (d & 0x08) == 0x08,
                        at_or_below_lower_non_recoverable: (d & 0x04) == 0x04,
                        at_or_below_lower_critical: (d & 0x20) == 0x20,
                        at_or_below_lower_non_critical: (d & 0x01) == 0x01,
                    },
                ),
                None => None,
            }
        };
        let reading = if in_reading.reading_or_state_unavailable {
            None
        } else {
            Some(in_reading.reading)
        };
        ThresholdReading {
            all_event_messages_disabled: in_reading.all_event_messages_disabled,
            scanning_disabled: in_reading.scanning_disabled,
            reading,
            threshold_status,
        }
    }
}

} // verus!
