//! What a sensor can do: its thresholds, its hysteresis and the events it
//! raises.

use vstd::prelude::*;

verus! {

/// One of the six thresholds of a sensor.
#[derive(Clone, Copy, Debug, PartialEq, Eq, Structural)]
pub enum ThresholdKind {
    LowerNonCritical,
    LowerCritical,
    LowerNonRecoverable,
    UpperNonCritical,
    UpperCritical,
    UpperNonRecoverable,
}

impl ThresholdKind {
    /// The six thresholds, from lower non-critical to upper non-recoverable.
    pub open spec fn spec_variants() -> Seq<ThresholdKind> {
        seq![
            ThresholdKind::LowerNonCritical,
            ThresholdKind::LowerCritical,
            ThresholdKind::LowerNonRecoverable,
            ThresholdKind::UpperNonCritical,
            ThresholdKind::UpperCritical,
            ThresholdKind::UpperNonRecoverable,
        ]
    }

    /// The six thresholds.
    pub fn variants() -> (all: Vec<ThresholdKind>)
        ensures
            all@ == ThresholdKind::spec_variants(),
    {
        let mut all: Vec<ThresholdKind> = Vec::new();
        all.push(ThresholdKind::LowerNonCritical);
        all.push(ThresholdKind::LowerCritical);
        all.push(ThresholdKind::LowerNonRecoverable);
        all.push(ThresholdKind::UpperNonCritical);
        all.push(ThresholdKind::UpperCritical);
        all.push(ThresholdKind::UpperNonRecoverable);
        assert(all@ =~= ThresholdKind::spec_variants());
        all
    }
}

/// One flag for each of the six thresholds.
#[derive(Clone, Copy, Debug, PartialEq, Eq, Structural)]
pub struct Thresholds {
    pub lower_non_recoverable: bool,
    pub lower_critical: bool,
    pub lower_non_critical: bool,
    pub upper_non_recoverable: bool,
    pub upper_critical: bool,
    pub upper_non_critical: bool,
}

impl Thresholds {
    pub open spec fn spec_for_kind(&self, kind: ThresholdKind) -> bool {
        match kind {
            ThresholdKind::LowerNonCritical => self.lower_non_critical,
            ThresholdKind::LowerCritical => self.lower_critical,
            ThresholdKind::LowerNonRecoverable => self.lower_non_recoverable,
            ThresholdKind::UpperNonCritical => self.upper_non_critical,
            ThresholdKind::UpperCritical => self.upper_critical,
            ThresholdKind::UpperNonRecoverable => self.upper_non_recoverable,
        }
    }

    /// The flag of threshold `kind`.
    pub fn for_kind(&self, kind: ThresholdKind) -> (flag: bool)
        ensures
            flag == self.spec_for_kind(kind),
    {
        match kind {
            ThresholdKind::LowerNonCritical => self.lower_non_critical,
            ThresholdKind::LowerCritical => self.lower_critical,
            ThresholdKind::LowerNonRecoverable => self.lower_non_recoverable,
            ThresholdKind::UpperNonCritical => self.upper_non_critical,
            ThresholdKind::UpperCritical => self.upper_critical,
            ThresholdKind::UpperNonRecoverable => self.upper_non_recoverable,
        }
    }
}

/// The direction in which a reading crosses a threshold.
#[derive(Clone, Copy, Debug, PartialEq, Eq, Structural)]
pub enum EventKind {
    GoingHigh,
    GoingLow,
}

/// The threshold events a sensor raises: twelve flags, two for each
/// threshold.
#[derive(Clone, Copy, Debug, PartialEq, Eq, Structural)]
pub struct ThresholdAssertEventMask {
    pub bits: u16,
}

impl ThresholdAssertEventMask {
    /// The flag of the event "lower non critical going low".
    pub const LOWER_NON_CRITICAL_GOING_LOW: u16 = 0x0001;

    /// The flag of the event "lower non critical going high".
    pub const LOWER_NON_CRITICAL_GOING_HIGH: u16 = 0x0002;

    /// The flag of the event "lower critical going low".
    pub const LOWER_CRITICAL_GOING_LOW: u16 = 0x0004;

    /// The flag of the event "lower critical going high".
    pub const LOWER_CRITICAL_GOING_HIGH: u16 = 0x0008;

    /// The flag of the event "lower non recoverable going low".
    pub const LOWER_NON_RECOVERABLE_GOING_LOW: u16 = 0x0010;

    /// The flag of the event "lower non recoverable going high".
    pub const LOWER_NON_RECOVERABLE_GOING_HIGH: u16 = 0x0020;

    /// The flag of the event "upper non critical going low".
    pub const UPPER_NON_CRITICAL_GOING_LOW: u16 = 0x0040;

    /// The flag of the event "upper non critical going high".
    pub const UPPER_NON_CRITICAL_GOING_HIGH: u16 = 0x0080;

    /// The flag of the event "upper critical going low".
    pub const UPPER_CRITICAL_GOING_LOW: u16 = 0x0100;

    /// The flag of the event "upper critical going high".
    pub const UPPER_CRITICAL_GOING_HIGH: u16 = 0x0200;

    /// The flag of the event "upper non recoverable going low".
    pub const UPPER_NON_RECOVERABLE_GOING_LOW: u16 = 0x0400;

    /// The flag of the event "upper non recoverable going high".
    pub const UPPER_NON_RECOVERABLE_GOING_HIGH: u16 = 0x0800;

    /// All twelve flags.
    pub const ALL: u16 = 0x0fff;

    /// The mask with the flags of `bits`; bits that are no flag are dropped.
    pub fn from_bits_truncate(bits: u16) -> (mask: ThresholdAssertEventMask)
        ensures
            mask.bits == bits & ThresholdAssertEventMask::ALL,
    {
        ThresholdAssertEventMask { bits: bits & ThresholdAssertEventMask::ALL }
    }

    pub open spec fn spec_contains(&self, flag: u16) -> bool {
        self.bits & flag == flag
    }

    /// Whether the mask holds all bits of `flag`.
    pub fn contains(&self, flag: u16) -> (held: bool)
        ensures
            held == self.spec_contains(flag),
    {
        self.bits & flag == flag
    }

    /// The flag of the event in which a reading falls through `kind`.
    pub open spec fn low_flag(kind: ThresholdKind) -> u16 {
        match kind {
            ThresholdKind::LowerNonCritical => ThresholdAssertEventMask::LOWER_NON_CRITICAL_GOING_LOW,
            ThresholdKind::LowerCritical => ThresholdAssertEventMask::LOWER_CRITICAL_GOING_LOW,
            ThresholdKind::LowerNonRecoverable => ThresholdAssertEventMask::LOWER_NON_RECOVERABLE_GOING_LOW,
            ThresholdKind::UpperNonCritical => ThresholdAssertEventMask::UPPER_NON_CRITICAL_GOING_LOW,
            ThresholdKind::UpperCritical => ThresholdAssertEventMask::UPPER_CRITICAL_GOING_LOW,
            ThresholdKind::UpperNonRecoverable => ThresholdAssertEventMask::UPPER_NON_RECOVERABLE_GOING_LOW,
        }
    }

    /// The flag of the event in which a reading rises through `kind`.
    pub open spec fn high_flag(kind: ThresholdKind) -> u16 {
        match kind {
            ThresholdKind::LowerNonCritical => ThresholdAssertEventMask::LOWER_NON_CRITICAL_GOING_HIGH,
            ThresholdKind::LowerCritical => ThresholdAssertEventMask::LOWER_CRITICAL_GOING_HIGH,
            ThresholdKind::LowerNonRecoverable => ThresholdAssertEventMask::LOWER_NON_RECOVERABLE_GOING_HIGH,
            ThresholdKind::UpperNonCritical => ThresholdAssertEventMask::UPPER_NON_CRITICAL_GOING_HIGH,
            ThresholdKind::UpperCritical => ThresholdAssertEventMask::UPPER_CRITICAL_GOING_HIGH,
            ThresholdKind::UpperNonRecoverable => ThresholdAssertEventMask::UPPER_NON_RECOVERABLE_GOING_HIGH,
        }
    }

    /// The events the mask holds for threshold `kind`: going high before
    /// going low.
    pub open spec fn spec_for_kind(&self, kind: ThresholdKind) -> Seq<EventKind> {
        let low = self.spec_contains(ThresholdAssertEventMask::low_flag(kind));
        let high = self.spec_contains(ThresholdAssertEventMask::high_flag(kind));
        if low && high {
            seq![EventKind::GoingHigh, EventKind::GoingLow]
        } else if low {
            seq![EventKind::GoingLow]
        } else if high {
            seq![EventKind::GoingHigh]
        } else {
            Seq::<EventKind>::empty()
        }
    }

    /// The events the mask holds for threshold `kind`.
    pub fn for_kind(&self, kind: ThresholdKind) -> (events: Vec<EventKind>)
        ensures
            events@ == self.spec_for_kind(kind),
    {
        let (low_flag, high_flag) = match kind {
            ThresholdKind::LowerNonCritical => (
                ThresholdAssertEventMask::LOWER_NON_CRITICAL_GOING_LOW,
                ThresholdAssertEventMask::LOWER_NON_CRITICAL_GOING_HIGH,
            ),
            ThresholdKind::LowerCritical => (
                ThresholdAssertEventMask::LOWER_CRITICAL_GOING_LOW,
                ThresholdAssertEventMask::LOWER_CRITICAL_GOING_HIGH,
            ),
            ThresholdKind::LowerNonRecoverable => (
                ThresholdAssertEventMask::LOWER_NON_RECOVERABLE_GOING_LOW,
                ThresholdAssertEventMask::LOWER_NON_RECOVERABLE_GOING_HIGH,
            ),
            ThresholdKind::UpperNonCritical => (
                ThresholdAssertEventMask::UPPER_NON_CRITICAL_GOING_LOW,
                ThresholdAssertEventMask::UPPER_NON_CRITICAL_GOING_HIGH,
            ),
            ThresholdKind::UpperCritical => (
                ThresholdAssertEventMask::UPPER_CRITICAL_GOING_LOW,
                ThresholdAssertEventMask::UPPER_CRITICAL_GOING_HIGH,
            ),
            ThresholdKind::UpperNonRecoverable => (
                ThresholdAssertEventMask::UPPER_NON_RECOVERABLE_GOING_LOW,
                ThresholdAssertEventMask::UPPER_NON_RECOVERABLE_GOING_HIGH,
            ),
        };
        let low = self.contains(low_flag);
        let high = self.contains(high_flag);
        let mut events: Vec<EventKind> = Vec::new();
        if low && high {
            events.push(EventKind::GoingHigh);
            events.push(EventKind::GoingLow);
        } else if low {
            events.push(EventKind::GoingLow);
        } else if high {
            events.push(EventKind::GoingHigh);
        }
        assert(events@ =~= self.spec_for_kind(kind));
        events
    }
}

/// Whether the hysteresis of a sensor can be read and set.
#[derive(Clone, Copy, Debug, PartialEq, Eq, Structural)]
pub enum HysteresisCapability {
    NoneOrUnspecified,
    Readable,
    ReadableAndSettable,
    FixedAndUnreadable,
}

/// Which thresholds of a sensor can be read and set.
#[derive(Clone, Copy, Debug, PartialEq, Eq, Structural)]
pub enum ThresholdAccessCapability {
    /// The sensor has no thresholds.
    NoThresholds,
    Readable { readable: Thresholds, values: Thresholds },
    ReadableAndSettable { readable: Thresholds, values: Thresholds, settable: Thresholds },
    FixedAndUnreadable { supported: Thresholds },
}

impl ThresholdAccessCapability {
    pub open spec fn spec_readable(&self, kind: ThresholdKind) -> bool {
        match *self {
            ThresholdAccessCapability::Readable { readable, .. } => readable.spec_for_kind(kind),
            ThresholdAccessCapability::ReadableAndSettable { readable, .. } => readable.spec_for_kind(
                kind,
            ),
            _ => false,
        }
    }

    /// Whether threshold `kind` can be read.
    pub fn readable(&self, kind: ThresholdKind) -> (readable: bool)
        ensures
            readable == self.spec_readable(kind),
    {
        match self {
            ThresholdAccessCapability::Readable { readable, .. } => readable.for_kind(kind),
            ThresholdAccessCapability::ReadableAndSettable { readable, .. } => readable.for_kind(
                kind,
            ),
            _ => false,
        }
    }

    pub open spec fn spec_settable(&self, kind: ThresholdKind) -> bool {
        match *self {
            ThresholdAccessCapability::ReadableAndSettable { settable, .. } => settable.spec_for_kind(
                kind,
            ),
            _ => false,
        }
    }

    /// Whether threshold `kind` can be set.
    pub fn settable(&self, kind: ThresholdKind) -> (settable: bool)
        ensures
            settable == self.spec_settable(kind),
    {
        match self {
            ThresholdAccessCapability::ReadableAndSettable { settable, .. } => settable.for_kind(
                kind,
            ),
            _ => false,
        }
    }
}

/// What is known of one threshold of a sensor.
#[derive(Clone, Copy, Debug, PartialEq, Eq, Structural)]
pub struct Threshold {
    pub kind: ThresholdKind,
    pub readable: bool,
    pub settable: bool,
    pub event_assert_going_high: bool,
    pub event_assert_going_low: bool,
    pub event_deassert_going_high: bool,
    pub event_deassert_going_low: bool,
}

/// The capabilities of a sensor.
#[derive(Clone, Copy, Debug, PartialEq, Eq, Structural)]
pub struct SensorCapabilities {
    pub ignore: bool,
    pub auto_rearm: bool,
    pub event_message_control: u8,
    pub hysteresis: HysteresisCapability,
    pub threshold_access: ThresholdAccessCapability,
    pub assertion_threshold_events: ThresholdAssertEventMask,
    pub deassertion_threshold_events: ThresholdAssertEventMask,
}

/// Whether bit `index` of `word` is set, counted from the least significant
/// bit.
pub open spec fn bit16(word: u16, index: u16) -> bool {
    (word >> index) & 1 == 1
}

impl SensorCapabilities {
    /// The hysteresis support, read from the low two bits of the
    /// capabilities byte.
    pub open spec fn spec_hysteresis(caps: u8) -> HysteresisCapability {
        let code = caps & 0x03;
        if code == 0 {
            HysteresisCapability::NoneOrUnspecified
        } else if code == 1 {
            HysteresisCapability::Readable
        } else if code == 2 {
            HysteresisCapability::ReadableAndSettable
        } else {
            HysteresisCapability::FixedAndUnreadable
        }
    }

    /// Which threshold readings are valid: bits 12 to 14 of the assertion
    /// mask for the lower thresholds, bit 14 of the deassertion mask for the
    /// upper ones.
    pub open spec fn spec_values(assert_lower_thrsd: u16, deassert_upper_thrshd: u16)
        -> Thresholds {
        Thresholds {
            lower_non_recoverable: bit16(assert_lower_thrsd, 14),
            lower_critical: bit16(assert_lower_thrsd, 13),
            lower_non_critical: bit16(assert_lower_thrsd, 12),
            upper_non_recoverable: bit16(deassert_upper_thrshd, 14),
            upper_critical: bit16(deassert_upper_thrshd, 14),
            upper_non_critical: bit16(deassert_upper_thrshd, 14),
        }
    }

    /// Six flags from six consecutive bits of `mask`, the lower
    /// non-critical threshold in bit `base` and the upper non-recoverable
    /// one in bit `base + 5`.
    pub open spec fn spec_six(mask: u16, base: u16) -> Thresholds {
        Thresholds {
            upper_non_recoverable: bit16(mask, (base + 5) as u16),
            upper_critical: bit16(mask, (base + 4) as u16),
            upper_non_critical: bit16(mask, (base + 3) as u16),
            lower_non_recoverable: bit16(mask, (base + 2) as u16),
            lower_critical: bit16(mask, (base + 1) as u16),
            lower_non_critical: bit16(mask, base),
        }
    }

    /// The threshold access, read from bits 3 and 2 of the capabilities
    /// byte: the settable thresholds are in the upper byte of the last mask,
    /// the readable ones in its lower byte.
    pub open spec fn spec_threshold_access(
        caps: u8,
        assert_lower_thrsd: u16,
        deassert_upper_thrshd: u16,
        discrete_rd_thrsd_set_thrshd_read: u16,
    ) -> ThresholdAccessCapability {
        let readable = SensorCapabilities::spec_six(discrete_rd_thrsd_set_thrshd_read, 0);
        let settable = SensorCapabilities::spec_six(discrete_rd_thrsd_set_thrshd_read, 8);
        let values = SensorCapabilities::spec_values(assert_lower_thrsd, deassert_upper_thrshd);
        let code = (caps & 0x0c) >> 2;
        if code == 0 {
            ThresholdAccessCapability::NoThresholds
        } else if code == 1 {
            ThresholdAccessCapability::Readable { readable, values }
        } else if code == 2 {
            ThresholdAccessCapability::ReadableAndSettable { readable, values, settable }
        } else {
            ThresholdAccessCapability::FixedAndUnreadable { supported: readable }
        }
    }

    pub open spec fn spec_new(
        caps: u8,
        assert_lower_thrsd: u16,
        deassert_upper_thrshd: u16,
        discrete_rd_thrsd_set_thrshd_read: u16,
    ) -> SensorCapabilities {
        SensorCapabilities {
            ignore: caps & 0x80 == 0x80,
            auto_rearm: caps & 0x40 == 0x40,
            event_message_control: caps & 0x03,
            hysteresis: SensorCapabilities::spec_hysteresis(caps),
            threshold_access: SensorCapabilities::spec_threshold_access(
                caps,
                assert_lower_thrsd,
                deassert_upper_thrshd,
                discrete_rd_thrsd_set_thrshd_read,
            ),
            assertion_threshold_events: ThresholdAssertEventMask {
                bits: assert_lower_thrsd & ThresholdAssertEventMask::ALL,
            },
            deassertion_threshold_events: ThresholdAssertEventMask {
                bits: deassert_upper_thrshd & ThresholdAssertEventMask::ALL,
            },
        }
    }

    /// The capabilities that the capabilities byte and the three masks of a
    /// sensor record describe.
    pub fn new(
        caps: u8,
        assert_lower_thrsd: u16,
        deassert_upper_thrshd: u16,
        discrete_rd_thrsd_set_thrshd_read: u16,
    ) -> (capabilities: SensorCapabilities)
        ensures
            capabilities == SensorCapabilities::spec_new(
                caps,
                assert_lower_thrsd,
                deassert_upper_thrshd,
                discrete_rd_thrsd_set_thrshd_read,
            ),
    {
        let ignore = (caps & 0x80) == 0x80;
        let auto_rearm = (caps & 0x40) == 0x40;
        let hysteresis_code = caps & 0x03;
        let hysteresis = if hysteresis_code == 0 {
            HysteresisCapability::NoneOrUnspecified
        } else if hysteresis_code == 1 {
            HysteresisCapability::Readable
        } else if hysteresis_code == 2 {
            HysteresisCapability::ReadableAndSettable
        } else {
            HysteresisCapability::FixedAndUnreadable
        };
        let event_message_control = caps & 0x03;
        let assertion_event_mask = ThresholdAssertEventMask::from_bits_truncate(assert_lower_thrsd);
        let deassertion_event_mask = ThresholdAssertEventMask::from_bits_truncate(
            deassert_upper_thrshd,
        );
        let threshold_read_value_mask = Thresholds {
            lower_non_recoverable: ((assert_lower_thrsd >> 14u16) & 0x1) == 1,
            lower_critical: ((assert_lower_thrsd >> 13u16) & 0x1) == 1,
            lower_non_critical: ((assert_lower_thrsd >> 12u16) & 0x1) == 1,
            upper_non_recoverable: ((deassert_upper_thrshd >> 14u16) & 0x1) == 1,
            upper_critical: ((deassert_upper_thrshd >> 14u16) & 0x1) == 1,
            upper_non_critical: ((deassert_upper_thrshd >> 14u16) & 0x1) == 1,
        };
        let threshold_set_mask = six_flags(discrete_rd_thrsd_set_thrshd_read, 8);
        let threshold_read_mask = six_flags(discrete_rd_thrsd_set_thrshd_read, 0);
        let access_code = (caps & 0x0c) >> 2u8;
        let threshold_access = if access_code == 0 {
            ThresholdAccessCapability::NoThresholds
        } else if access_code == 1 {
            ThresholdAccessCapability::Readable {
                readable: threshold_read_mask,
                values: threshold_read_value_mask,
            }
        } else if access_code == 2 {
            ThresholdAccessCapability::ReadableAndSettable {
                readable: threshold_read_mask,
                values: threshold_read_value_mask,
                settable: threshold_set_mask,
            }
        } else {
            ThresholdAccessCapability::FixedAndUnreadable { supported: threshold_read_mask }
        };
        SensorCapabilities {
            ignore,
            auto_rearm,
            hysteresis,
            event_message_control,
            threshold_access,
            assertion_threshold_events: assertion_event_mask,
            deassertion_threshold_events: deassertion_event_mask,
        }
    }
}

/// Six flags from six consecutive bits of `mask`, starting at bit `base`.
fn six_flags(mask: u16, base: u16) -> (flags: Thresholds)
    requires
        base <= 8,
    ensures
        flags == SensorCapabilities::spec_six(mask, base),
{
    Thresholds {
        upper_non_recoverable: ((mask >> (base + 5)) & 0x1) == 1,
        upper_critical: ((mask >> (base + 4)) & 0x1) == 1,
        upper_non_critical: ((mask >> (base + 3)) & 0x1) == 1,
        lower_non_recoverable: ((mask >> (base + 2)) & 0x1) == 1,
        lower_critical: ((mask >> (base + 1)) & 0x1) == 1,
        lower_non_critical: ((mask >> base) & 0x1) == 1,
    }
}

} // verus!
