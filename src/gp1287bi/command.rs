//! SPI Commands for the EEI GP1287BI VFD
use vstd::prelude::*;

use crate::traits;

verus! {

/// The operations of the GP1287BI controller.
#[derive(Clone, Copy, PartialEq, Eq, Structural, Debug)]
pub enum Command {
    /// software reset
    Reset,
    /// clear screen
    ClearGRAM,
    /// VFD mode setting
    VFDModeSetting,
    /// display area setting
    DisplayAreaSetting,
    /// internal speed setting
    InternalSpeedSetting,
    /// brightness setting
    BrightnessSetting,
    /// write to the graphic RAM
    WriteGRAM,
    /// offset of the first display position
    DisplayPosition1Offset,
    /// offset of the second display position
    DisplayPosition2Offset,
    /// display mode setting
    DisplayModeSetting,
    /// frame sync setting
    FrameSyncSetting,
    /// oscillation setting
    OscillationSetting,
    /// undocumented step of the power-on sequence
    UnknownInit,
    /// leave standby
    WakeUp,
    /// enter standby
    Sleep,
}

impl Command {
    /// The opcode of each command, as the controller's datasheet lists it.
    pub open spec fn opcode(self) -> u8 {
        match self {
            Command::Reset => 0b1010_1010,
            Command::ClearGRAM => 0b0101_0101,
            Command::VFDModeSetting => 0b1100_1100,
            Command::DisplayAreaSetting => 0b1110_0000,
            Command::InternalSpeedSetting => 0b1011_0001,
            Command::BrightnessSetting => 0b1010_0000,
            Command::WriteGRAM => 0b1111_0000,
            Command::DisplayPosition1Offset => 0b1100_0000,
            Command::DisplayPosition2Offset => 0b1101_0000,
            Command::DisplayModeSetting => 0b1000_0000,
            Command::FrameSyncSetting => 0b0000_1000,
            Command::OscillationSetting => 0b0111_1000,
            Command::UnknownInit => 0x90,
            Command::WakeUp => 0b0110_1101,
            Command::Sleep => 0b0110_0001,
        }
    }
}

impl traits::Command for Command {
    open spec fn address_spec(self) -> u8 {
        self.opcode()
    }

    /// Returns the address of the command
    fn address(self) -> (r: u8) {
        match self {
            Command::Reset => 0b1010_1010,
            Command::ClearGRAM => 0b0101_0101,
            Command::VFDModeSetting => 0b1100_1100,
            Command::DisplayAreaSetting => 0b1110_0000,
            Command::InternalSpeedSetting => 0b1011_0001,
            Command::BrightnessSetting => 0b1010_0000,
            Command::WriteGRAM => 0b1111_0000,
            Command::DisplayPosition1Offset => 0b1100_0000,
            Command::DisplayPosition2Offset => 0b1101_0000,
            Command::DisplayModeSetting => 0b1000_0000,
            Command::FrameSyncSetting => 0b0000_1000,
            Command::OscillationSetting => 0b0111_1000,
            Command::UnknownInit => 0x90,
            Command::WakeUp => 0b0110_1101,
            Command::Sleep => 0b0110_0001,
        }
    }
}

} // verus!
