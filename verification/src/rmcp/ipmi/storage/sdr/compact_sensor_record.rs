//! Compact sensor records.

use crate::err::{ECommand, EIpmiPayload, EPacket, EParse, Error};
use crate::helpers::copy_range;
use crate::rmcp::ipmi::storage::sdr::common::{
    IdSettled, SensorRecordCommon, SensorRecordCommonView, COMMON_LEN,
};
use crate::rmcp::ipmi::storage::sdr::sensor::{parse_failure, Direction, SensorId, SensorIdView};
use crate::rmcp::ipmi::storage::sdr::SensorRecord;
use vstd::prelude::*;

verus! {

/// The number of bytes between the common part of a compact sensor record
/// and the type/length byte of its name: the record sharing, the hysteresis
/// and reserved bytes.
pub const COMPACT_BODY_LEN: usize = 8;

/// A compact sensor record: the record of a discrete sensor.
#[derive(Clone, Debug)]
pub struct CompactSensorRecord {
    pub common: SensorRecordCommon<IdSettled>,
    pub direction: Direction,
    /// The bytes between the common part and the name, as they stand.
    pub body: Vec<u8>,
}

/// A compact sensor record as a mathematical value.
pub struct CompactSensorRecordView {
    pub common: SensorRecordCommonView,
    pub direction: Direction,
    pub body: Seq<u8>,
}

impl View for CompactSensorRecord {
    type V = CompactSensorRecordView;

    open spec fn view(&self) -> CompactSensorRecordView {
        CompactSensorRecordView {
            common: self.common@,
            direction: self.direction,
            body: self.body@,
        }
    }
}

impl CompactSensorRecordView {
    /// The error with which the data of a compact sensor record are
    /// refused, if they are.
    pub open spec fn parse_error(record_data: Seq<u8>) -> Option<Error> {
        if SensorRecordCommonView::parse_error(record_data) is Some {
            SensorRecordCommonView::parse_error(record_data)
        } else if record_data.len() < COMMON_LEN + COMPACT_BODY_LEN + 1 {
            Some(parse_failure(EParse::SensorRecordLength))
        } else if record_data[COMMON_LEN as int] / 64 == 3 {
            Some(parse_failure(EParse::SensorDirectionReserved))
        } else {
            None
        }
    }

    /// Whether `record` is what the data hold: the common part, the
    /// direction in the top two bits of the byte after it, and the name
    /// behind the body.
    pub open spec fn parsed_from(record: CompactSensorRecordView, record_data: Seq<u8>) -> bool {
        let name_at = COMMON_LEN + COMPACT_BODY_LEN;
        &&& SensorRecordCommonView::parsed_from(
            SensorRecordCommonView {
                sensor_id: SensorIdView::Unicode(Seq::<u8>::empty()),
                ..record.common
            },
            record_data,
        )
        &&& record.common.sensor_id == SensorIdView::spec_from(
            record_data[name_at as int],
            record_data.subrange(name_at + 1, record_data.len() as int),
        )
        &&& Direction::spec_try_from((record_data[COMMON_LEN as int] / 64) as u8) == Ok::<
            Direction,
            (),
        >(record.direction)
        &&& record.body == record_data.subrange(COMMON_LEN as int, name_at as int)
    }
}

impl CompactSensorRecord {
    /// Parses the data of a compact sensor record.
    pub fn parse(record_data: &[u8]) -> (record: Result<CompactSensorRecord, Error>)
        ensures
            match record {
                Ok(r) => CompactSensorRecordView::parse_error(record_data@) is None
                    && CompactSensorRecordView::parsed_from(r@, record_data@),
                Err(e) => CompactSensorRecordView::parse_error(record_data@) == Some(e),
            },
    {
        let (common, start) = match SensorRecordCommon::parse_without_id(record_data) {
            Err(e) => {
                return Err(e);
            },
            Ok(parsed) => parsed,
        };
        if record_data.len() < COMMON_LEN + COMPACT_BODY_LEN + 1 {
            return Err(
                Error::Packet(
                    EPacket::IpmiPayload(
                        EIpmiPayload::Command(ECommand::Parse(EParse::SensorRecordLength)),
                    ),
                ),
            );
        }
        let direction = match Direction::try_from(record_data[start] / 64) {
            Err(_) => {
                return Err(
                    Error::Packet(
                        EPacket::IpmiPayload(
                            EIpmiPayload::Command(ECommand::Parse(EParse::SensorDirectionReserved)),
                        ),
                    ),
                );
            },
            Ok(d) => d,
        };
        let name_at = start + COMPACT_BODY_LEN;
        let id = SensorId::from(
            record_data[name_at],
            vstd::slice::slice_subrange(record_data, name_at + 1, record_data.len()),
        );
        Ok(
            CompactSensorRecord {
                common: common.set_id(id),
                direction,
                body: copy_range(record_data, start, name_at),
            },
        )
    }
}

impl SensorRecord for CompactSensorRecord {
    open spec fn spec_common(&self) -> SensorRecordCommonView {
        self.common@
    }

    open spec fn spec_direction(&self) -> Direction {
        self.direction
    }

    fn common(&self) -> (common: &SensorRecordCommon<IdSettled>) {
        &self.common
    }

    fn direction(&self) -> (direction: Direction) {
        self.direction
    }
}

} // verus!
