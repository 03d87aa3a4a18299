//! The texts of the events a BMC logs.
//!
//! A generic event is found by its event type and offset, a sensor-specific
//! one by its sensor type, its offset and its second and third data bytes,
//! where 0xFF stands for "any".

use vstd::prelude::*;

verus! {

/// The key of a generic event: the event type above the offset.
pub open spec fn spec_generic_key(event_type: u8, offset: u8) -> u32 {
    (event_type as int * 256 + offset as int) as u32
}

/// The key of a generic event.
pub fn generic_key(event_type: u8, offset: u8) -> (key: u32)
    ensures
        key == spec_generic_key(event_type, offset),
{
    event_type as u32 * 256 + offset as u32
}

/// The key of a sensor-specific event: the sensor type, the offset and the
/// second and third data bytes, from the top byte down.
pub open spec fn spec_specific_key(sensor_type: u8, offset: u8, data2: u8, data3: u8) -> u32 {
    (sensor_type as int * 16777216 + offset as int * 65536 + data2 as int * 256 + data3 as int) as u32
}

/// The key of a sensor-specific event.
pub fn specific_key(sensor_type: u8, offset: u8, data2: u8, data3: u8) -> (key: u32)
    ensures
        key == spec_specific_key(sensor_type, offset, data2, data3),
{
    sensor_type as u32 * 16777216 + offset as u32 * 65536 + data2 as u32 * 256 + data3 as u32
}

/// The text of the generic event with key `key`, if there is one.
pub open spec fn spec_generic_event_desc(key: u32) -> Option<&'static str> {
    if key == 0x100 {
        Some("Lower Non-critical - going low")
    } else if key == 0x101 {
        Some("Lower Non-critical - going high")
    } else if key == 0x102 {
        Some("Lower Critical - going low")
    } else if key == 0x103 {
        Some("Lower Critical - going high")
    } else if key == 0x104 {
        Some("Lower Non-recoverable - going low")
    } else if key == 0x105 {
        Some("Lower Non-recoverable - going high")
    } else if key == 0x106 {
        Some("Upper Non-critical - going low")
    } else if key == 0x107 {
        Some("Upper Non-critical - going high")
    } else if key == 0x108 {
        Some("Upper Critical - going low")
    } else if key == 0x109 {
        Some("Upper Critical - going high")
    } else if key == 0x10a {
        Some("Upper Non-recoverable - going low")
    } else if key == 0x10b {
        Some("Upper Non-recoverable - going high")
    } else if key == 0x200 {
        Some("Transition to Idle")
    } else if key == 0x201 {
        Some("Transition to Active")
    } else if key == 0x202 {
        Some("Transition to Busy")
    } else if key == 0x300 {
        Some("State Deasserted")
    } else if key == 0x301 {
        Some("State Asserted")
    } else if key == 0x400 {
        Some("Predictive Failure deasserted")
    } else if key == 0x401 {
        Some("Predictive Failure asserted")
    } else if key == 0x500 {
        Some("Limit Not Exceeded")
    } else if key == 0x501 {
        Some("Limit Exceeded")
    } else if key == 0x600 {
        Some("Performance Met")
    } else if key == 0x601 {
        Some("Performance Lags")
    } else if key == 0x700 {
        Some("transition to OK")
    } else if key == 0x701 {
        Some("transition to Non-Critical from OK")
    } else if key == 0x702 {
        Some("transition to Critical from less severe")
    } else if key == 0x703 {
        Some("transition to Non-recoverable from less severe")
    } else if key == 0x704 {
        Some("transition to Non-Critical from more severe")
    } else if key == 0x705 {
        Some("transition to Critical from Non-recoverable")
    } else if key == 0x706 {
        Some("transition to Non-recoverable")
    } else if key == 0x707 {
        Some("Monitor")
    } else if key == 0x708 {
        Some("Informational")
    } else if key == 0x800 {
        Some("Device Removed/Device Absent")
    } else if key == 0x801 {
        Some("Device Inserted/Device Present")
    } else if key == 0x900 {
        Some("Device Disabled")
    } else if key == 0x901 {
        Some("Device Enabled")
    } else if key == 0xa00 {
        Some("transition to Running")
    } else if key == 0xa01 {
        Some("transition to In Test")
    } else if key == 0xa02 {
        Some("transition to Power Off")
    } else if key == 0xa03 {
        Some("transition to On Line")
    } else if key == 0xa04 {
        Some("transition to Off Line")
    } else if key == 0xa05 {
        Some("transition to Off Duty")
    } else if key == 0xa06 {
        Some("transition to Degraded")
    } else if key == 0xa07 {
        Some("transition to Power Save")
    } else if key == 0xa08 {
        Some("install Error")
    } else if key == 0xb00 {
        Some("Fully Redundant (formerly \"Redundancy Regained\")")
    } else if key == 0xb01 {
        Some("Redundancy Lost")
    } else if key == 0xb02 {
        Some("Redundancy Degraded")
    } else if key == 0xb03 {
        Some("Non-redundant:Sufficient Resources from Redundant")
    } else if key == 0xb04 {
        Some("Non-redundant:Sufficient Resources from Insufficient Resources")
    } else if key == 0xb05 {
        Some("Non-redundant:Insufficient Resources")
    } else if key == 0xb06 {
        Some("Redundancy Degraded from Fully Redundant")
    } else if key == 0xb07 {
        Some("Redundancy Degraded from Non-redundant")
    } else if key == 0xc00 {
        Some("D0 Power State")
    } else if key == 0xc01 {
        Some("D1 Power State")
    } else if key == 0xc02 {
        Some("D2 Power State")
    } else if key == 0xc03 {
        Some("D3 Power State")
    } else {
        None
    }
}

/// The text of the generic event with key `key`, if there is one.
pub fn generic_event_desc(key: u32) -> (text: Option<&'static str>)
    ensures
        text == spec_generic_event_desc(key),
{
    if key == 0x100 {
        Some("Lower Non-critical - going low")
    } else if key == 0x101 {
        Some("Lower Non-critical - going high")
    } else if key == 0x102 {
        Some("Lower Critical - going low")
    } else if key == 0x103 {
        Some("Lower Critical - going high")
    } else if key == 0x104 {
        Some("Lower Non-recoverable - going low")
    } else if key == 0x105 {
        Some("Lower Non-recoverable - going high")
    } else if key == 0x106 {
        Some("Upper Non-critical - going low")
    } else if key == 0x107 {
        Some("Upper Non-critical - going high")
    } else if key == 0x108 {
        Some("Upper Critical - going low")
    } else if key == 0x109 {
        Some("Upper Critical - going high")
    } else if key == 0x10a {
        Some("Upper Non-recoverable - going low")
    } else if key == 0x10b {
        Some("Upper Non-recoverable - going high")
    } else if key == 0x200 {
        Some("Transition to Idle")
    } else if key == 0x201 {
        Some("Transition to Active")
    } else if key == 0x202 {
        Some("Transition to Busy")
    } else if key == 0x300 {
        Some("State Deasserted")
    } else if key == 0x301 {
        Some("State Asserted")
    } else if key == 0x400 {
        Some("Predictive Failure deasserted")
    } else if key == 0x401 {
        Some("Predictive Failure asserted")
    } else if key == 0x500 {
        Some("Limit Not Exceeded")
    } else if key == 0x501 {
        Some("Limit Exceeded")
    } else if key == 0x600 {
        Some("Performance Met")
    } else if key == 0x601 {
        Some("Performance Lags")
    } else if key == 0x700 {
        Some("transition to OK")
    } else if key == 0x701 {
        Some("transition to Non-Critical from OK")
    } else if key == 0x702 {
        Some("transition to Critical from less severe")
    } else if key == 0x703 {
        Some("transition to Non-recoverable from less severe")
    } else if key == 0x704 {
        Some("transition to Non-Critical from more severe")
    } else if key == 0x705 {
        Some("transition to Critical from Non-recoverable")
    } else if key == 0x706 {
        Some("transition to Non-recoverable")
    } else if key == 0x707 {
        Some("Monitor")
    } else if key == 0x708 {
        Some("Informational")
    } else if key == 0x800 {
        Some("Device Removed/Device Absent")
    } else if key == 0x801 {
        Some("Device Inserted/Device Present")
    } else if key == 0x900 {
        Some("Device Disabled")
    } else if key == 0x901 {
        Some("Device Enabled")
    } else if key == 0xa00 {
        Some("transition to Running")
    } else if key == 0xa01 {
        Some("transition to In Test")
    } else if key == 0xa02 {
        Some("transition to Power Off")
    } else if key == 0xa03 {
        Some("transition to On Line")
    } else if key == 0xa04 {
        Some("transition to Off Line")
    } else if key == 0xa05 {
        Some("transition to Off Duty")
    } else if key == 0xa06 {
        Some("transition to Degraded")
    } else if key == 0xa07 {
        Some("transition to Power Save")
    } else if key == 0xa08 {
        Some("install Error")
    } else if key == 0xb00 {
        Some("Fully Redundant (formerly \"Redundancy Regained\")")
    } else if key == 0xb01 {
        Some("Redundancy Lost")
    } else if key == 0xb02 {
        Some("Redundancy Degraded")
    } else if key == 0xb03 {
        Some("Non-redundant:Sufficient Resources from Redundant")
    } else if key == 0xb04 {
        Some("Non-redundant:Sufficient Resources from Insufficient Resources")
    } else if key == 0xb05 {
        Some("Non-redundant:Insufficient Resources")
    } else if key == 0xb06 {
        Some("Redundancy Degraded from Fully Redundant")
    } else if key == 0xb07 {
        Some("Redundancy Degraded from Non-redundant")
    } else if key == 0xc00 {
        Some("D0 Power State")
    } else if key == 0xc01 {
        Some("D1 Power State")
    } else if key == 0xc02 {
        Some("D2 Power State")
    } else if key == 0xc03 {
        Some("D3 Power State")
    } else {
        None
    }
}

/// The text of the sensor-specific event with key `key`, if there is one.
pub open spec fn spec_sensor_specific_event_desc(key: u32) -> Option<&'static str> {
    if key == 0x500ffff {
        Some("General Chassis Intrusion")
    } else if key == 0x501ffff {
        Some("Drive Bay intrusion")
    } else if key == 0x502ffff {
        Some("I/O Card area intrusion")
    } else if key == 0x503ffff {
        Some("Processor area intrusion")
    } else if key == 0x504ffff {
        Some("LAN Leash Lost (system is unplugged from LAN)")
    } else if key == 0x505ffff {
        Some("Unauthorized dock")
    } else if key == 0x506ffff {
        Some("FAN area intrusion (supports detection of hot plug fan tampering)")
    } else if key == 0x600ffff {
        Some("Secure Mode (Front Panel Lockout) Violation attempt")
    } else if key == 0x601ffff {
        Some("Pre-boot Password Violation - user password")
    } else if key == 0x602ffff {
        Some("Pre-boot Password Violation attempt - setup password")
    } else if key == 0x603ffff {
        Some("Pre-boot Password Violation - network boot password")
    } else if key == 0x604ffff {
        Some("Other pre-boot Password Violation")
    } else if key == 0x605ffff {
        Some("Out-of-band Access Password Violation")
    } else if key == 0x700ffff {
        Some("IERR")
    } else if key == 0x701ffff {
        Some("Thermal Trip")
    } else if key == 0x702ffff {
        Some("FRB1/BIST failure")
    } else if key == 0x703ffff {
        Some("FRB2/Hang in POST failure")
    } else if key == 0x704ffff {
        Some("FRB3/Processor Startup/Initialization failure")
    } else if key == 0x705ffff {
        Some("Configuration Error")
    } else if key == 0x706ffff {
        Some("SM BIOS `Uncorrectable CPU-complex Error'")
    } else if key == 0x707ffff {
        Some("Processor Presence detected")
    } else if key == 0x708ffff {
        Some("Processor disabled")
    } else if key == 0x709ffff {
        Some("Terminator Presence Detected")
    } else if key == 0x70affff {
        Some("Processor Automatically Throttled")
    } else if key == 0x70bffff {
        Some("Machine Check Exception (Uncorrectable)")
    } else if key == 0x70cffff {
        Some("Correctable Machine Check Error")
    } else if key == 0x800ffff {
        Some("Presence detected")
    } else if key == 0x801ffff {
        Some("Power Supply Failure detected")
    } else if key == 0x802ffff {
        Some("Predictive Failure")
    } else if key == 0x803ffff {
        Some("Power Supply input lost (AC/DC)")
    } else if key == 0x804ffff {
        Some("Power Supply input lost or out-of-range")
    } else if key == 0x805ffff {
        Some("Power Supply input out-of-range, but present")
    } else if key == 0x806ff00 {
        Some("Configuration error : Vendor mismatch")
    } else if key == 0x806ff01 {
        Some("Configuration error : Revision mismatch")
    } else if key == 0x806ff02 {
        Some("Configuration error : Processor missing")
    } else if key == 0x806ff03 {
        Some("Configuration error : Power Supply rating mismatch")
    } else if key == 0x806ff04 {
        Some("Configuration error : Voltage rating mismatch")
    } else if key == 0x806ffff {
        Some("Configuration error")
    } else if key == 0x807ffff {
        Some("Power Supply Inactive (in standby state)")
    } else if key == 0x900ffff {
        Some("Power Off / Power Down")
    } else if key == 0x901ffff {
        Some("Power Cycle")
    } else if key == 0x902ffff {
        Some("240VA Power Down")
    } else if key == 0x903ffff {
        Some("Interlock Power Down")
    } else if key == 0x904ffff {
        Some("AC lost / Power input lost")
    } else if key == 0x905ffff {
        Some("Soft Power Control Failure")
    } else if key == 0x906ffff {
        Some("Power Unit Failure detected")
    } else if key == 0x907ffff {
        Some("Predictive Failure")
    } else if key == 0xc00ffff {
        Some("Correctable ECC / other correctable memory error")
    } else if key == 0xc01ffff {
        Some("Uncorrectable ECC / other uncorrectable memory error")
    } else if key == 0xc02ffff {
        Some("Parity")
    } else if key == 0xc03ffff {
        Some("Memory Scrub Failed (stuck bit)")
    } else if key == 0xc04ffff {
        Some("Memory Device Disabled")
    } else if key == 0xc05ffff {
        Some("Correctable ECC / other correctable memory error logging limit reached")
    } else if key == 0xc06ffff {
        Some("Presence detected")
    } else if key == 0xc07ffff {
        Some("Configuration error")
    } else if key == 0xc08ffff {
        Some("Spare")
    } else if key == 0xc09ffff {
        Some("Memory Automatically Throttled")
    } else if key == 0xc0affff {
        Some("Critical Overtemperature")
    } else if key == 0xd00ffff {
        Some("Drive Presence")
    } else if key == 0xd01ffff {
        Some("Drive Fault")
    } else if key == 0xd02ffff {
        Some("Predictive Failure")
    } else if key == 0xd03ffff {
        Some("Hot Spare")
    } else if key == 0xd04ffff {
        Some("Consistency Check / Parity Check in progress")
    } else if key == 0xd05ffff {
        Some("In Critical Array")
    } else if key == 0xd06ffff {
        Some("In Failed Array")
    } else if key == 0xd07ffff {
        Some("Rebuild/Remap in progress")
    } else if key == 0xd08ffff {
        Some("Rebuild/Remap Aborted (was not completed normally)")
    } else if key == 0xf0000ff {
        Some("System Firmware Error : Unspecified")
    } else if key == 0xf0001ff {
        Some("System Firmware Error : No system memory is physically installed in the system")
    } else if key == 0xf0002ff {
        Some("System Firmware Error : No usable system memory")
    } else if key == 0xf0003ff {
        Some("System Firmware Error : Unrecoverable hard-disk/ATAPI IDE device failure")
    } else if key == 0xf0004ff {
        Some("System Firmware Error : Unrecoverable system-board failure")
    } else if key == 0xf0005ff {
        Some("System Firmware Error : Unrecoverable diskettesubsystem failure")
    } else if key == 0xf0006ff {
        Some("System Firmware Error : Unrecoverable hard-disk controller failure")
    } else if key == 0xf0007ff {
        Some("System Firmware Error : Unrecoverable PS/2 or USB keyboard failure")
    } else if key == 0xf0008ff {
        Some("System Firmware Error : Removable boot media not),found")
    } else if key == 0xf0009ff {
        Some("System Firmware Error : Unrecoverable video controller failure")
    } else if key == 0xf000aff {
        Some("System Firmware Error : No video device detected")
    } else if key == 0xf000bff {
        Some("System Firmware Error : Firmware (BIOS) ROM corruption detected")
    } else if key == 0xf000cff {
        Some("System Firmware Error : CPU voltage mismatch")
    } else if key == 0xf000dff {
        Some("System Firmware Error : CPU speed matching failure")
    } else if key == 0xf00ffff {
        Some("System Firmware Error")
    } else if key == 0xf01ffff {
        Some("System Firmware Hang")
    } else if key == 0xf0200ff {
        Some("System Firmware Progress : Unspecified")
    } else if key == 0xf0201ff {
        Some("System Firmware Progress : Memory initialization")
    } else if key == 0xf0202ff {
        Some("System Firmware Progress : Hard-disk initialization")
    } else if key == 0xf0203ff {
        Some("System Firmware Progress : Secondary processor(s) initialization")
    } else if key == 0xf0204ff {
        Some("System Firmware Progress : User authentication")
    } else if key == 0xf0205ff {
        Some("System Firmware Progress : User-initiated system),setup")
    } else if key == 0xf0206ff {
        Some("System Firmware Progress : USB resource configuration")
    } else if key == 0xf0207ff {
        Some("System Firmware Progress : PCI resource configuration")
    } else if key == 0xf0208ff {
        Some("System Firmware Progress : Option ROM initialization")
    } else if key == 0xf0209ff {
        Some("System Firmware Progress : Video initialization")
    } else if key == 0xf020aff {
        Some("System Firmware Progress : Cache initialization")
    } else if key == 0xf020bff {
        Some("System Firmware Progress : SM Bus initialization")
    } else if key == 0xf020cff {
        Some("System Firmware Progress : Keyboard controller initialization")
    } else if key == 0xf020dff {
        Some("System Firmware Progress : Embedded controller management controller initialization")
    } else if key == 0xf020eff {
        Some("System Firmware Progress : Docking station attachment")
    } else if key == 0xf020fff {
        Some("System Firmware Progress : Enabling docking station")
    } else if key == 0xf0210ff {
        Some("System Firmware Progress : Docking station ejection")
    } else if key == 0xf0211ff {
        Some("System Firmware Progress : Disabling docking station")
    } else if key == 0xf0212ff {
        Some("System Firmware Progress : Calling operating system wake-up vector")
    } else if key == 0xf0213ff {
        Some("System Firmware Progress : Starting operating system boot process")
    } else if key == 0xf0214ff {
        Some("System Firmware Progress : Baseboard or motherboard initialization")
    } else if key == 0xf0215ff {
        Some("System Firmware Progress : reserved")
    } else if key == 0xf0216ff {
        Some("System Firmware Progress : Floppy initialization")
    } else if key == 0xf0217ff {
        Some("System Firmware Progress : Keyboard test")
    } else if key == 0xf0218ff {
        Some("System Firmware Progress : Pointing device test")
    } else if key == 0xf0219ff {
        Some("System Firmware Progress : Primary processor initialization")
    } else if key == 0xf02ffff {
        Some("System Firmware Progress")
    } else if key == 0x1000ffff {
        Some("Correctable Memory Error Logging Disabled")
    } else if key == 0x1001ffff {
        Some("Event 'Type' Logging Disabled")
    } else if key == 0x1002ffff {
        Some("Log Area Reset/Cleared")
    } else if key == 0x1003ffff {
        Some("All Event Logging Disabled")
    } else if key == 0x1004ffff {
        Some("SEL Full")
    } else if key == 0x1005ffff {
        Some("SEL Almost Full")
    } else if key == 0x1006ffff {
        Some("Correctable Machine Check Error Logging Disabled")
    } else if key == 0x1100ffff {
        Some("BIOS Watchdog Reset")
    } else if key == 0x1101ffff {
        Some("OS Watchdog Reset")
    } else if key == 0x1102ffff {
        Some("OS Watchdog Shut Down")
    } else if key == 0x1103ffff {
        Some("OS Watchdog Power Down")
    } else if key == 0x1104ffff {
        Some("OS Watchdog Power Cycle")
    } else if key == 0x1105ffff {
        Some("OS Watchdog NMI / Diagnostic Interrupt")
    } else if key == 0x1106ffff {
        Some("OS Watchdog Expired, status only")
    } else if key == 0x1107ffff {
        Some("OS Watchdog pre-timeout Interrupt, non-NMI")
    } else if key == 0x1200ffff {
        Some("System Reconfigured")
    } else if key == 0x1201ffff {
        Some("OEM System Boot Event")
    } else if key == 0x1202ffff {
        Some("Undetermined system hardware failure")
    } else if key == 0x1203ffff {
        Some("Entry added to Auxiliary Log")
    } else if key == 0x1204ffff {
        Some("PEF Action")
    } else if key == 0x1205ffff {
        Some("Timestamp Clock Synch")
    } else if key == 0x1300ffff {
        Some("Front Panel NMI / Diagnostic Interrupt")
    } else if key == 0x1301ffff {
        Some("Bus Timeout")
    } else if key == 0x1302ffff {
        Some("I/O channel check NMI")
    } else if key == 0x1303ffff {
        Some("Software NMI")
    } else if key == 0x1304ffff {
        Some("PCI PERR")
    } else if key == 0x1305ffff {
        Some("PCI SERR")
    } else if key == 0x1306ffff {
        Some("EISA Fail Safe Timeout")
    } else if key == 0x1307ffff {
        Some("Bus Correctable Error")
    } else if key == 0x1308ffff {
        Some("Bus Uncorrectable Error")
    } else if key == 0x1309ffff {
        Some("Fatal NMI")
    } else if key == 0x130affff {
        Some("Bus Fatal Error")
    } else if key == 0x130bffff {
        Some("Bus Degraded")
    } else if key == 0x1400ffff {
        Some("Power Button pressed")
    } else if key == 0x1401ffff {
        Some("Sleep Button pressed")
    } else if key == 0x1402ffff {
        Some("Reset Button pressed")
    } else if key == 0x1403ffff {
        Some("FRU latch open")
    } else if key == 0x1404ffff {
        Some("FRU service request button")
    } else if key == 0x1900ffff {
        Some("Soft Power Control Failure")
    } else if key == 0x1901ffff {
        Some("Thermal Trip")
    } else if key == 0x1b00ffff {
        Some("Cable/Interconnect is connected")
    } else if key == 0x1b01ffff {
        Some("Configuration Error")
    } else if key == 0x1d00ffff {
        Some("Initiated by power up")
    } else if key == 0x1d01ffff {
        Some("Initiated by hard reset")
    } else if key == 0x1d02ffff {
        Some("Initiated by warm reset")
    } else if key == 0x1d03ffff {
        Some("User requested PXE boot")
    } else if key == 0x1d04ffff {
        Some("Automatic boot to diagnostic")
    } else if key == 0x1d05ffff {
        Some("OS / run-time software initiated hard reset")
    } else if key == 0x1d06ffff {
        Some("OS / run-time software initiated warm reset")
    } else if key == 0x1d07ffff {
        Some("System Restart")
    } else if key == 0x1e00ffff {
        Some("No bootable media")
    } else if key == 0x1e01ffff {
        Some("Non-bootable diskette left in drive")
    } else if key == 0x1e02ffff {
        Some("PXE Server not found")
    } else if key == 0x1e03ffff {
        Some("Invalid boot sector")
    } else if key == 0x1e04ffff {
        Some("Timeout waiting for user selection of boot source")
    } else if key == 0x1f00ffff {
        Some("A: boot completed")
    } else if key == 0x1f01ffff {
        Some("C: boot completed")
    } else if key == 0x1f02ffff {
        Some("PXE boot completed")
    } else if key == 0x1f03ffff {
        Some("Diagnostic boot completed")
    } else if key == 0x1f04ffff {
        Some("CD-ROM boot completed")
    } else if key == 0x1f05ffff {
        Some("ROM boot completed")
    } else if key == 0x1f06ffff {
        Some("boot completed - boot device not specified")
    } else if key == 0x1f07ffff {
        Some("Base OS/Hypervisor Installation started")
    } else if key == 0x1f08ffff {
        Some("Base OS/Hypervisor Installation completed")
    } else if key == 0x1f09ffff {
        Some("Base OS/Hypervisor Installation aborted")
    } else if key == 0x1f0affff {
        Some("Base OS/Hypervisor Installation failed")
    } else if key == 0x2000ffff {
        Some("Critical stop during OS load / initialization")
    } else if key == 0x2001ffff {
        Some("Run-time Critical Stop")
    } else if key == 0x2002ffff {
        Some("OS Graceful Stop")
    } else if key == 0x2003ffff {
        Some("OS Graceful Shutdown")
    } else if key == 0x2004ffff {
        Some("Soft Shutdown initiated by PEF")
    } else if key == 0x2005ffff {
        Some("Agent Not Responding")
    } else if key == 0x2100ffff {
        Some("Fault Status asserted")
    } else if key == 0x2101ffff {
        Some("Identify Status asserted")
    } else if key == 0x2102ffff {
        Some("Slot/Connector Device installed/attached")
    } else if key == 0x2103ffff {
        Some("Slot/Connector Ready for Device Installation")
    } else if key == 0x2104ffff {
        Some("Slot/Connector Ready for Device Removal")
    } else if key == 0x2105ffff {
        Some("Slot Power is Off")
    } else if key == 0x2106ffff {
        Some("Slot/Connector Device Removal Request")
    } else if key == 0x2107ffff {
        Some("Interlock asserted")
    } else if key == 0x2108ffff {
        Some("Slot is Disabled")
    } else if key == 0x2109ffff {
        Some("Slot holds spare device")
    } else if key == 0x2200ffff {
        Some("S0/G0 \"working\"")
    } else if key == 0x2201ffff {
        Some("S1 \"sleeping with system h/w & processor context maintained\"")
    } else if key == 0x2202ffff {
        Some("S2 \"sleeping, processor context lost\"")
    } else if key == 0x2203ffff {
        Some("S3 \"sleeping, processor & h/w context lost, memory retained\"")
    } else if key == 0x2204ffff {
        Some("S4 \"non-volatile sleep / suspend-to disk\"")
    } else if key == 0x2205ffff {
        Some("S5/G2 \"soft-off\"")
    } else if key == 0x2206ffff {
        Some("S4/S5 soft-off, particular S4 / S5 state cannot be determined")
    } else if key == 0x2207ffff {
        Some("G3/Mechanical Off")
    } else if key == 0x2208ffff {
        Some("Sleeping in an S1, S2, or S3 states")
    } else if key == 0x2209ffff {
        Some("G1 sleeping")
    } else if key == 0x220affff {
        Some("S5 entered by override")
    } else if key == 0x220bffff {
        Some("Legacy ON state")
    } else if key == 0x220cffff {
        Some("Legacy OFF state")
    } else if key == 0x220effff {
        Some("Unknown")
    } else if key == 0x2300ffff {
        Some("Timer expired, status only")
    } else if key == 0x2301ffff {
        Some("Hard Reset")
    } else if key == 0x2302ffff {
        Some("Power Down")
    } else if key == 0x2303ffff {
        Some("Power Cycle")
    } else if key == 0x2304ffff {
        Some("reserved")
    } else if key == 0x2305ffff {
        Some("reserved")
    } else if key == 0x2306ffff {
        Some("reserved")
    } else if key == 0x2307ffff {
        Some("reserved")
    } else if key == 0x2308ffff {
        Some("Timer interrupt")
    } else if key == 0x2400ffff {
        Some("platform generated page")
    } else if key == 0x2401ffff {
        Some("platform generated LAN alert")
    } else if key == 0x2402ffff {
        Some("Platform Event Trap generated")
    } else if key == 0x2403ffff {
        Some("platform generated SNMP trap, OEM format")
    } else if key == 0x2500ffff {
        Some("Entity Present")
    } else if key == 0x2501ffff {
        Some("Entity Absent")
    } else if key == 0x2502ffff {
        Some("Entity Disabled")
    } else if key == 0x2700ffff {
        Some("LAN Heartbeat Lost")
    } else if key == 0x2701ffff {
        Some("LAN Heartbeat")
    } else if key == 0x2800ffff {
        Some("sensor access degraded or unavailable")
    } else if key == 0x2801ffff {
        Some("controller access degraded or unavailable")
    } else if key == 0x2802ffff {
        Some("management controller off-line")
    } else if key == 0x2803ffff {
        Some("management controller unavailable")
    } else if key == 0x2804ffff {
        Some("sensor failure")
    } else if key == 0x2805ffff {
        Some("FRU failure")
    } else if key == 0x2900ffff {
        Some("battery low")
    } else if key == 0x2901ffff {
        Some("battery failed")
    } else if key == 0x2902ffff {
        Some("battery presence detected")
    } else if key == 0x2a00ffff {
        Some("Session Activated")
    } else if key == 0x2a01ffff {
        Some("Session Deactivated")
    } else if key == 0x2a02ffff {
        Some("Invalid Username or Password")
    } else if key == 0x2a03ffff {
        Some("Invalid Password Disable")
    } else if key == 0x2b00ffff {
        Some("Hardware change detected with associated Entity")
    } else if key == 0x2b01ffff {
        Some("Firmware or software change detected with associated Entity")
    } else if key == 0x2b02ffff {
        Some("Hardware incompatibility detected with associated Entity")
    } else if key == 0x2b03ffff {
        Some("Firmware or software incompatibility detected with associated Entity")
    } else if key == 0x2b04ffff {
        Some("Entity is of an invalid or unsupported hardware version")
    } else if key == 0x2b05ffff {
        Some("Entity contains an invalid or unsupported firmware or software version")
    } else if key == 0x2b06ffff {
        Some("Hardware Change detected with associated Entity was successful")
    } else if key == 0x2b07ffff {
        Some("Software or F/W Change detected with associated Entity was successful")
    } else if key == 0x2c00ffff {
        Some("FRU Not Installed")
    } else if key == 0x2c01ffff {
        Some("FRU Inactive")
    } else if key == 0x2c02ffff {
        Some("FRU Activation Requested")
    } else if key == 0x2c03ffff {
        Some("FRU Activation In Progress")
    } else if key == 0x2c04ffff {
        Some("FRU Active")
    } else if key == 0x2c05ffff {
        Some("FRU Deactivation Requested")
    } else if key == 0x2c06ffff {
        Some("FRU Deactivation In Progress")
    } else if key == 0x2c07ffff {
        Some("FRU Communication Lost")
    } else {
        None
    }
}

/// The text of the sensor-specific event with key `key`, if there is one.
pub fn sensor_specific_event_desc(key: u32) -> (text: Option<&'static str>)
    ensures
        text == spec_sensor_specific_event_desc(key),
{
    if key == 0x500ffff {
        Some("General Chassis Intrusion")
    } else if key == 0x501ffff {
        Some("Drive Bay intrusion")
    } else if key == 0x502ffff {
        Some("I/O Card area intrusion")
    } else if key == 0x503ffff {
        Some("Processor area intrusion")
    } else if key == 0x504ffff {
        Some("LAN Leash Lost (system is unplugged from LAN)")
    } else if key == 0x505ffff {
        Some("Unauthorized dock")
    } else if key == 0x506ffff {
        Some("FAN area intrusion (supports detection of hot plug fan tampering)")
    } else if key == 0x600ffff {
        Some("Secure Mode (Front Panel Lockout) Violation attempt")
    } else if key == 0x601ffff {
        Some("Pre-boot Password Violation - user password")
    } else if key == 0x602ffff {
        Some("Pre-boot Password Violation attempt - setup password")
    } else if key == 0x603ffff {
        Some("Pre-boot Password Violation - network boot password")
    } else if key == 0x604ffff {
        Some("Other pre-boot Password Violation")
    } else if key == 0x605ffff {
        Some("Out-of-band Access Password Violation")
    } else if key == 0x700ffff {
        Some("IERR")
    } else if key == 0x701ffff {
        Some("Thermal Trip")
    } else if key == 0x702ffff {
        Some("FRB1/BIST failure")
    } else if key == 0x703ffff {
        Some("FRB2/Hang in POST failure")
    } else if key == 0x704ffff {
        Some("FRB3/Processor Startup/Initialization failure")
    } else if key == 0x705ffff {
        Some("Configuration Error")
    } else if key == 0x706ffff {
        Some("SM BIOS `Uncorrectable CPU-complex Error'")
    } else if key == 0x707ffff {
        Some("Processor Presence detected")
    } else if key == 0x708ffff {
        Some("Processor disabled")
    } else if key == 0x709ffff {
        Some("Terminator Presence Detected")
    } else if key == 0x70affff {
        Some("Processor Automatically Throttled")
    } else if key == 0x70bffff {
        Some("Machine Check Exception (Uncorrectable)")
    } else if key == 0x70cffff {
        Some("Correctable Machine Check Error")
    } else if key == 0x800ffff {
        Some("Presence detected")
    } else if key == 0x801ffff {
        Some("Power Supply Failure detected")
    } else if key == 0x802ffff {
        Some("Predictive Failure")
    } else if key == 0x803ffff {
        Some("Power Supply input lost (AC/DC)")
    } else if key == 0x804ffff {
        Some("Power Supply input lost or out-of-range")
    } else if key == 0x805ffff {
        Some("Power Supply input out-of-range, but present")
    } else if key == 0x806ff00 {
        Some("Configuration error : Vendor mismatch")
    } else if key == 0x806ff01 {
        Some("Configuration error : Revision mismatch")
    } else if key == 0x806ff02 {
        Some("Configuration error : Processor missing")
    } else if key == 0x806ff03 {
        Some("Configuration error : Power Supply rating mismatch")
    } else if key == 0x806ff04 {
        Some("Configuration error : Voltage rating mismatch")
    } else if key == 0x806ffff {
        Some("Configuration error")
    } else if key == 0x807ffff {
        Some("Power Supply Inactive (in standby state)")
    } else if key == 0x900ffff {
        Some("Power Off / Power Down")
    } else if key == 0x901ffff {
        Some("Power Cycle")
    } else if key == 0x902ffff {
        Some("240VA Power Down")
    } else if key == 0x903ffff {
        Some("Interlock Power Down")
    } else if key == 0x904ffff {
        Some("AC lost / Power input lost")
    } else if key == 0x905ffff {
        Some("Soft Power Control Failure")
    } else if key == 0x906ffff {
        Some("Power Unit Failure detected")
    } else if key == 0x907ffff {
        Some("Predictive Failure")
    } else if key == 0xc00ffff {
        Some("Correctable ECC / other correctable memory error")
    } else if key == 0xc01ffff {
        Some("Uncorrectable ECC / other uncorrectable memory error")
    } else if key == 0xc02ffff {
        Some("Parity")
    } else if key == 0xc03ffff {
        Some("Memory Scrub Failed (stuck bit)")
    } else if key == 0xc04ffff {
        Some("Memory Device Disabled")
    } else if key == 0xc05ffff {
        Some("Correctable ECC / other correctable memory error logging limit reached")
    } else if key == 0xc06ffff {
        Some("Presence detected")
    } else if key == 0xc07ffff {
        Some("Configuration error")
    } else if key == 0xc08ffff {
        Some("Spare")
    } else if key == 0xc09ffff {
        Some("Memory Automatically Throttled")
    } else if key == 0xc0affff {
        Some("Critical Overtemperature")
    } else if key == 0xd00ffff {
        Some("Drive Presence")
    } else if key == 0xd01ffff {
        Some("Drive Fault")
    } else if key == 0xd02ffff {
        Some("Predictive Failure")
    } else if key == 0xd03ffff {
        Some("Hot Spare")
    } else if key == 0xd04ffff {
        Some("Consistency Check / Parity Check in progress")
    } else if key == 0xd05ffff {
        Some("In Critical Array")
    } else if key == 0xd06ffff {
        Some("In Failed Array")
    } else if key == 0xd07ffff {
        Some("Rebuild/Remap in progress")
    } else if key == 0xd08ffff {
        Some("Rebuild/Remap Aborted (was not completed normally)")
    } else if key == 0xf0000ff {
        Some("System Firmware Error : Unspecified")
    } else if key == 0xf0001ff {
        Some("System Firmware Error : No system memory is physically installed in the system")
    } else if key == 0xf0002ff {
        Some("System Firmware Error : No usable system memory")
    } else if key == 0xf0003ff {
        Some("System Firmware Error : Unrecoverable hard-disk/ATAPI IDE device failure")
    } else if key == 0xf0004ff {
        Some("System Firmware Error : Unrecoverable system-board failure")
    } else if key == 0xf0005ff {
        Some("System Firmware Error : Unrecoverable diskettesubsystem failure")
    } else if key == 0xf0006ff {
        Some("System Firmware Error : Unrecoverable hard-disk controller failure")
    } else if key == 0xf0007ff {
        Some("System Firmware Error : Unrecoverable PS/2 or USB keyboard failure")
    } else if key == 0xf0008ff {
        Some("System Firmware Error : Removable boot media not),found")
    } else if key == 0xf0009ff {
        Some("System Firmware Error : Unrecoverable video controller failure")
    } else if key == 0xf000aff {
        Some("System Firmware Error : No video device detected")
    } else if key == 0xf000bff {
        Some("System Firmware Error : Firmware (BIOS) ROM corruption detected")
    } else if key == 0xf000cff {
        Some("System Firmware Error : CPU voltage mismatch")
    } else if key == 0xf000dff {
        Some("System Firmware Error : CPU speed matching failure")
    } else if key == 0xf00ffff {
        Some("System Firmware Error")
    } else if key == 0xf01ffff {
        Some("System Firmware Hang")
    } else if key == 0xf0200ff {
        Some("System Firmware Progress : Unspecified")
    } else if key == 0xf0201ff {
        Some("System Firmware Progress : Memory initialization")
    } else if key == 0xf0202ff {
        Some("System Firmware Progress : Hard-disk initialization")
    } else if key == 0xf0203ff {
        Some("System Firmware Progress : Secondary processor(s) initialization")
    } else if key == 0xf0204ff {
        Some("System Firmware Progress : User authentication")
    } else if key == 0xf0205ff {
        Some("System Firmware Progress : User-initiated system),setup")
    } else if key == 0xf0206ff {
        Some("System Firmware Progress : USB resource configuration")
    } else if key == 0xf0207ff {
        Some("System Firmware Progress : PCI resource configuration")
    } else if key == 0xf0208ff {
        Some("System Firmware Progress : Option ROM initialization")
    } else if key == 0xf0209ff {
        Some("System Firmware Progress : Video initialization")
    } else if key == 0xf020aff {
        Some("System Firmware Progress : Cache initialization")
    } else if key == 0xf020bff {
        Some("System Firmware Progress : SM Bus initialization")
    } else if key == 0xf020cff {
        Some("System Firmware Progress : Keyboard controller initialization")
    } else if key == 0xf020dff {
        Some("System Firmware Progress : Embedded controller management controller initialization")
    } else if key == 0xf020eff {
        Some("System Firmware Progress : Docking station attachment")
    } else if key == 0xf020fff {
        Some("System Firmware Progress : Enabling docking station")
    } else if key == 0xf0210ff {
        Some("System Firmware Progress : Docking station ejection")
    } else if key == 0xf0211ff {
        Some("System Firmware Progress : Disabling docking station")
    } else if key == 0xf0212ff {
        Some("System Firmware Progress : Calling operating system wake-up vector")
    } else if key == 0xf0213ff {
        Some("System Firmware Progress : Starting operating system boot process")
    } else if key == 0xf0214ff {
        Some("System Firmware Progress : Baseboard or motherboard initialization")
    } else if key == 0xf0215ff {
        Some("System Firmware Progress : reserved")
    } else if key == 0xf0216ff {
        Some("System Firmware Progress : Floppy initialization")
    } else if key == 0xf0217ff {
        Some("System Firmware Progress : Keyboard test")
    } else if key == 0xf0218ff {
        Some("System Firmware Progress : Pointing device test")
    } else if key == 0xf0219ff {
        Some("System Firmware Progress : Primary processor initialization")
    } else if key == 0xf02ffff {
        Some("System Firmware Progress")
    } else if key == 0x1000ffff {
        Some("Correctable Memory Error Logging Disabled")
    } else if key == 0x1001ffff {
        Some("Event 'Type' Logging Disabled")
    } else if key == 0x1002ffff {
        Some("Log Area Reset/Cleared")
    } else if key == 0x1003ffff {
        Some("All Event Logging Disabled")
    } else if key == 0x1004ffff {
        Some("SEL Full")
    } else if key == 0x1005ffff {
        Some("SEL Almost Full")
    } else if key == 0x1006ffff {
        Some("Correctable Machine Check Error Logging Disabled")
    } else if key == 0x1100ffff {
        Some("BIOS Watchdog Reset")
    } else if key == 0x1101ffff {
        Some("OS Watchdog Reset")
    } else if key == 0x1102ffff {
        Some("OS Watchdog Shut Down")
    } else if key == 0x1103ffff {
        Some("OS Watchdog Power Down")
    } else if key == 0x1104ffff {
        Some("OS Watchdog Power Cycle")
    } else if key == 0x1105ffff {
        Some("OS Watchdog NMI / Diagnostic Interrupt")
    } else if key == 0x1106ffff {
        Some("OS Watchdog Expired, status only")
    } else if key == 0x1107ffff {
        Some("OS Watchdog pre-timeout Interrupt, non-NMI")
    } else if key == 0x1200ffff {
        Some("System Reconfigured")
    } else if key == 0x1201ffff {
        Some("OEM System Boot Event")
    } else if key == 0x1202ffff {
        Some("Undetermined system hardware failure")
    } else if key == 0x1203ffff {
        Some("Entry added to Auxiliary Log")
    } else if key == 0x1204ffff {
        Some("PEF Action")
    } else if key == 0x1205ffff {
        Some("Timestamp Clock Synch")
    } else if key == 0x1300ffff {
        Some("Front Panel NMI / Diagnostic Interrupt")
    } else if key == 0x1301ffff {
        Some("Bus Timeout")
    } else if key == 0x1302ffff {
        Some("I/O channel check NMI")
    } else if key == 0x1303ffff {
        Some("Software NMI")
    } else if key == 0x1304ffff {
        Some("PCI PERR")
    } else if key == 0x1305ffff {
        Some("PCI SERR")
    } else if key == 0x1306ffff {
        Some("EISA Fail Safe Timeout")
    } else if key == 0x1307ffff {
        Some("Bus Correctable Error")
    } else if key == 0x1308ffff {
        Some("Bus Uncorrectable Error")
    } else if key == 0x1309ffff {
        Some("Fatal NMI")
    } else if key == 0x130affff {
        Some("Bus Fatal Error")
    } else if key == 0x130bffff {
        Some("Bus Degraded")
    } else if key == 0x1400ffff {
        Some("Power Button pressed")
    } else if key == 0x1401ffff {
        Some("Sleep Button pressed")
    } else if key == 0x1402ffff {
        Some("Reset Button pressed")
    } else if key == 0x1403ffff {
        Some("FRU latch open")
    } else if key == 0x1404ffff {
        Some("FRU service request button")
    } else if key == 0x1900ffff {
        Some("Soft Power Control Failure")
    } else if key == 0x1901ffff {
        Some("Thermal Trip")
    } else if key == 0x1b00ffff {
        Some("Cable/Interconnect is connected")
    } else if key == 0x1b01ffff {
        Some("Configuration Error")
    } else if key == 0x1d00ffff {
        Some("Initiated by power up")
    } else if key == 0x1d01ffff {
        Some("Initiated by hard reset")
    } else if key == 0x1d02ffff {
        Some("Initiated by warm reset")
    } else if key == 0x1d03ffff {
        Some("User requested PXE boot")
    } else if key == 0x1d04ffff {
        Some("Automatic boot to diagnostic")
    } else if key == 0x1d05ffff {
        Some("OS / run-time software initiated hard reset")
    } else if key == 0x1d06ffff {
        Some("OS / run-time software initiated warm reset")
    } else if key == 0x1d07ffff {
        Some("System Restart")
    } else if key == 0x1e00ffff {
        Some("No bootable media")
    } else if key == 0x1e01ffff {
        Some("Non-bootable diskette left in drive")
    } else if key == 0x1e02ffff {
        Some("PXE Server not found")
    } else if key == 0x1e03ffff {
        Some("Invalid boot sector")
    } else if key == 0x1e04ffff {
        Some("Timeout waiting for user selection of boot source")
    } else if key == 0x1f00ffff {
        Some("A: boot completed")
    } else if key == 0x1f01ffff {
        Some("C: boot completed")
    } else if key == 0x1f02ffff {
        Some("PXE boot completed")
    } else if key == 0x1f03ffff {
        Some("Diagnostic boot completed")
    } else if key == 0x1f04ffff {
        Some("CD-ROM boot completed")
    } else if key == 0x1f05ffff {
        Some("ROM boot completed")
    } else if key == 0x1f06ffff {
        Some("boot completed - boot device not specified")
    } else if key == 0x1f07ffff {
        Some("Base OS/Hypervisor Installation started")
    } else if key == 0x1f08ffff {
        Some("Base OS/Hypervisor Installation completed")
    } else if key == 0x1f09ffff {
        Some("Base OS/Hypervisor Installation aborted")
    } else if key == 0x1f0affff {
        Some("Base OS/Hypervisor Installation failed")
    } else if key == 0x2000ffff {
        Some("Critical stop during OS load / initialization")
    } else if key == 0x2001ffff {
        Some("Run-time Critical Stop")
    } else if key == 0x2002ffff {
        Some("OS Graceful Stop")
    } else if key == 0x2003ffff {
        Some("OS Graceful Shutdown")
    } else if key == 0x2004ffff {
        Some("Soft Shutdown initiated by PEF")
    } else if key == 0x2005ffff {
        Some("Agent Not Responding")
    } else if key == 0x2100ffff {
        Some("Fault Status asserted")
    } else if key == 0x2101ffff {
        Some("Identify Status asserted")
    } else if key == 0x2102ffff {
        Some("Slot/Connector Device installed/attached")
    } else if key == 0x2103ffff {
        Some("Slot/Connector Ready for Device Installation")
    } else if key == 0x2104ffff {
        Some("Slot/Connector Ready for Device Removal")
    } else if key == 0x2105ffff {
        Some("Slot Power is Off")
    } else if key == 0x2106ffff {
        Some("Slot/Connector Device Removal Request")
    } else if key == 0x2107ffff {
        Some("Interlock asserted")
    } else if key == 0x2108ffff {
        Some("Slot is Disabled")
    } else if key == 0x2109ffff {
        Some("Slot holds spare device")
    } else if key == 0x2200ffff {
        Some("S0/G0 \"working\"")
    } else if key == 0x2201ffff {
        Some("S1 \"sleeping with system h/w & processor context maintained\"")
    } else if key == 0x2202ffff {
        Some("S2 \"sleeping, processor context lost\"")
    } else if key == 0x2203ffff {
        Some("S3 \"sleeping, processor & h/w context lost, memory retained\"")
    } else if key == 0x2204ffff {
        Some("S4 \"non-volatile sleep / suspend-to disk\"")
    } else if key == 0x2205ffff {
        Some("S5/G2 \"soft-off\"")
    } else if key == 0x2206ffff {
        Some("S4/S5 soft-off, particular S4 / S5 state cannot be determined")
    } else if key == 0x2207ffff {
        Some("G3/Mechanical Off")
    } else if key == 0x2208ffff {
        Some("Sleeping in an S1, S2, or S3 states")
    } else if key == 0x2209ffff {
        Some("G1 sleeping")
    } else if key == 0x220affff {
        Some("S5 entered by override")
    } else if key == 0x220bffff {
        Some("Legacy ON state")
    } else if key == 0x220cffff {
        Some("Legacy OFF state")
    } else if key == 0x220effff {
        Some("Unknown")
    } else if key == 0x2300ffff {
        Some("Timer expired, status only")
    } else if key == 0x2301ffff {
        Some("Hard Reset")
    } else if key == 0x2302ffff {
        Some("Power Down")
    } else if key == 0x2303ffff {
        Some("Power Cycle")
    } else if key == 0x2304ffff {
        Some("reserved")
    } else if key == 0x2305ffff {
        Some("reserved")
    } else if key == 0x2306ffff {
        Some("reserved")
    } else if key == 0x2307ffff {
        Some("reserved")
    } else if key == 0x2308ffff {
        Some("Timer interrupt")
    } else if key == 0x2400ffff {
        Some("platform generated page")
    } else if key == 0x2401ffff {
        Some("platform generated LAN alert")
    } else if key == 0x2402ffff {
        Some("Platform Event Trap generated")
    } else if key == 0x2403ffff {
        Some("platform generated SNMP trap, OEM format")
    } else if key == 0x2500ffff {
        Some("Entity Present")
    } else if key == 0x2501ffff {
        Some("Entity Absent")
    } else if key == 0x2502ffff {
        Some("Entity Disabled")
    } else if key == 0x2700ffff {
        Some("LAN Heartbeat Lost")
    } else if key == 0x2701ffff {
        Some("LAN Heartbeat")
    } else if key == 0x2800ffff {
        Some("sensor access degraded or unavailable")
    } else if key == 0x2801ffff {
        Some("controller access degraded or unavailable")
    } else if key == 0x2802ffff {
        Some("management controller off-line")
    } else if key == 0x2803ffff {
        Some("management controller unavailable")
    } else if key == 0x2804ffff {
        Some("sensor failure")
    } else if key == 0x2805ffff {
        Some("FRU failure")
    } else if key == 0x2900ffff {
        Some("battery low")
    } else if key == 0x2901ffff {
        Some("battery failed")
    } else if key == 0x2902ffff {
        Some("battery presence detected")
    } else if key == 0x2a00ffff {
        Some("Session Activated")
    } else if key == 0x2a01ffff {
        Some("Session Deactivated")
    } else if key == 0x2a02ffff {
        Some("Invalid Username or Password")
    } else if key == 0x2a03ffff {
        Some("Invalid Password Disable")
    } else if key == 0x2b00ffff {
        Some("Hardware change detected with associated Entity")
    } else if key == 0x2b01ffff {
        Some("Firmware or software change detected with associated Entity")
    } else if key == 0x2b02ffff {
        Some("Hardware incompatibility detected with associated Entity")
    } else if key == 0x2b03ffff {
        Some("Firmware or software incompatibility detected with associated Entity")
    } else if key == 0x2b04ffff {
        Some("Entity is of an invalid or unsupported hardware version")
    } else if key == 0x2b05ffff {
        Some("Entity contains an invalid or unsupported firmware or software version")
    } else if key == 0x2b06ffff {
        Some("Hardware Change detected with associated Entity was successful")
    } else if key == 0x2b07ffff {
        Some("Software or F/W Change detected with associated Entity was successful")
    } else if key == 0x2c00ffff {
        Some("FRU Not Installed")
    } else if key == 0x2c01ffff {
        Some("FRU Inactive")
    } else if key == 0x2c02ffff {
        Some("FRU Activation Requested")
    } else if key == 0x2c03ffff {
        Some("FRU Activation In Progress")
    } else if key == 0x2c04ffff {
        Some("FRU Active")
    } else if key == 0x2c05ffff {
        Some("FRU Deactivation Requested")
    } else if key == 0x2c06ffff {
        Some("FRU Deactivation In Progress")
    } else if key == 0x2c07ffff {
        Some("FRU Communication Lost")
    } else {
        None
    }
}

} // verus!
