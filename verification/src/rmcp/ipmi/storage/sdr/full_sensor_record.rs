//! Full sensor records.

use crate::err::{ECommand, EIpmiPayload, EPacket, EParse, Error};
use crate::helpers::copy_range;
use crate::rmcp::ipmi::storage::sdr::common::{
    IdSettled, SensorRecordCommon, SensorRecordCommonView, COMMON_LEN,
};
use crate::rmcp::ipmi::storage::sdr::sensor::{
    parse_failure, Direction, Linearization, SensorId, SensorIdView,
};
use crate::rmcp::ipmi::storage::sdr::SensorRecord;
use vstd::prelude::*;

verus! {

/// The number of bytes between the common part of a full sensor record and
/// the type/length byte of its name: the linearization, the conversion
/// factors, the limits, the thresholds and the hysteresis.
pub const FULL_BODY_LEN: usize = 24;

/// A full sensor record: the record of a sensor with an analog reading.
#[derive(Clone, Debug)]
pub struct FullSensorRecord {
    pub common: SensorRecordCommon<IdSettled>,
    pub linearization: Linearization,
    pub direction: Direction,
    /// The bytes between the common part and the name, as they stand.
    pub body: Vec<u8>,
}

/// A full sensor record as a mathematical value.
pub struct FullSensorRecordView {
    pub common: SensorRecordCommonView,
    pub linearization: Linearization,
    pub direction: Direction,
    pub body: Seq<u8>,
}

impl View for FullSensorRecord {
    type V = FullSensorRecordView;

    open spec fn view(&self) -> FullSensorRecordView {
        FullSensorRecordView {
            common: self.common@,
            linearization: self.linearization,
            direction: self.direction,
            body: self.body@,
        }
    }
}

impl FullSensorRecordView {
    /// The error with which the data of a full sensor record are refused,
    /// if they are.
    pub open spec fn parse_error(record_data: Seq<u8>) -> Option<Error> {
        if SensorRecordCommonView::parse_error(record_data) is Some {
            SensorRecordCommonView::parse_error(record_data)
        } else if record_data.len() < COMMON_LEN + FULL_BODY_LEN + 1 {
            Some(parse_failure(EParse::SensorRecordLength))
        } else if record_data[COMMON_LEN + 5] % 4 == 3 {
            Some(parse_failure(EParse::SensorDirectionReserved))
        } else {
            None
        }
    }

    /// Whether `record` is what the data hold: the common part, the
    /// linearization in the low seven bits of the byte after it, the
    /// direction in the low two bits of the sixth byte after it, and the
    /// name behind the body.
    pub open spec fn parsed_from(record: FullSensorRecordView, record_data: Seq<u8>) -> bool {
        let name_at = COMMON_LEN + FULL_BODY_LEN;
        &&& SensorRecordCommonView::parsed_from(
            SensorRecordCommonView {
                sensor_id: SensorIdView::Unicode(Seq::<u8>::empty()),
                ..record.common
            },
            record_data,
        )
        &&& record.common.sensor_id == SensorIdView::spec_from(
            record_data[name_at as int],
            record_data.subrange(name_at + 1, record_data.len() as int),
        )
        &&& record.linearization == Linearization::spec_from(
            (record_data[COMMON_LEN as int] % 128) as u8,
        )
        &&& Direction::spec_try_from((record_data[COMMON_LEN + 5] % 4) as u8) == Ok::<
            Direction,
            (),
        >(record.direction)
        &&& record.body == record_data.subrange(COMMON_LEN as int, name_at as int)
    }
}

impl FullSensorRecord {
    /// Parses the data of a full sensor record.
    pub fn parse(record_data: &[u8]) -> (record: Result<FullSensorRecord, Error>)
        ensures
            match record {
                Ok(r) => FullSensorRecordView::parse_error(record_data@) is None
                    && FullSensorRecordView::parsed_from(r@, record_data@),
                Err(e) => FullSensorRecordView::parse_error(record_data@) == Some(e),
            },
    {
        let (common, start) = match SensorRecordCommon::parse_without_id(record_data) {
            Err(e) => {
                return Err(e);
            },
            Ok(parsed) => parsed,
        };
        if record_data.len() < COMMON_LEN + FULL_BODY_LEN + 1 {
            return Err(
                Error::Packet(
                    EPacket::IpmiPayload(
                        EIpmiPayload::Command(ECommand::Parse(EParse::SensorRecordLength)),
                    ),
                ),
            );
        }
        let direction = match Direction::try_from(record_data[start + 5] % 4) {
            Err(_) => {
                return Err(
                    Error::Packet(
                        EPacket::IpmiPayload(
                            EIpmiPayload::Command(ECommand::Parse(EParse::SensorDirectionReserved)),
                        ),
                    ),
                );
            },
            Ok(d) => d,
        };
        let name_at = start + FULL_BODY_LEN;
        let id = SensorId::from(
            record_data[name_at],
            vstd::slice::slice_subrange(record_data, name_at + 1, record_data.len()),
        );
        Ok(
            FullSensorRecord {
                common: common.set_id(id),
                linearization: Linearization::from(record_data[start] % 128),
                direction,
                body: copy_range(record_data, start, name_at),
            },
        )
    }
}

impl SensorRecord for FullSensorRecord {
    open spec fn spec_common(&self) -> SensorRecordCommonView {
        self.common@
    }

    open spec fn spec_direction(&self) -> Direction {
        self.direction
    }

    fn common(&self) -> (common: &SensorRecordCommon<IdSettled>) {
        &self.common
    }

    fn direction(&self) -> (direction: Direction) {
        self.direction
    }
}

} // verus!
