//! A simple Driver for the GP1287BI display for SPI
//!
//! The driver decides what is sent; [`VFD256x50`] keeps the bus, the reset line
//! and the delay source that the caller performs the steps with.
use vstd::prelude::*;

use crate::color::Color;
use crate::interface::{
    cmd_with_arg,
    cmd_with_data,
    command_steps,
    reset,
    reset_steps,
    steps_view,
    DisplayInterface,
    Step,
    StepView,
};

pub mod command;
mod graphics;

pub use self::graphics::Display256x50;

use self::command::Command;

verus! {

/// Width of gp1287bi in pixels
pub const WIDTH: u32 = 56;

/// Height of gp1287bi in pixels
pub const HEIGHT: u32 = 256;

/// Default Background Color
pub const DEFAULT_BACKGROUND_COLOR: Color = Color::Dark;

/// Bytes of a full frame
pub const NUM_DISPLAY_BITS: u32 = WIDTH * HEIGHT / 8;

/// Milliseconds the panel needs after clearing its graphic RAM.
pub const CLEAR_DELAY_MS: u32 = 10;

/// Milliseconds the reset line is held low during initialisation.
pub const RESET_DURATION_MS: u32 = 1;

/// Brightness that initialisation sets.
pub const DEFAULT_BRIGHTNESS: u32 = 0x30;

/// The argument pair of a brightness setting: bits 8 and 9 of `val`, then its
/// low byte.
pub open spec fn brightness_args(val: u32) -> Seq<u8> {
    seq![((val / 256) % 4) as u8, (val % 256) as u8]
}

/// The steps of a command with arguments and no payload.
pub open spec fn command_only(command: Command, args: Seq<u8>) -> Seq<StepView> {
    command_steps(command.opcode(), args, Seq::empty())
}

/// The steps that clear the graphic RAM and wait for it to settle.
pub open spec fn clear_steps() -> Seq<StepView> {
    command_only(Command::ClearGRAM, Seq::empty()) + seq![StepView::DelayMs(CLEAR_DELAY_MS)]
}

/// The power-on sequence of the panel.
pub open spec fn init_steps() -> Seq<StepView> {
    reset_steps(RESET_DURATION_MS) + command_only(Command::Reset, Seq::empty()) + command_only(
        Command::VFDModeSetting,
        seq![0x02u8, 0x00],
    ) + command_only(Command::DisplayAreaSetting, seq![0xFFu8, 0x31, 0x00, 0x20, 0x00, 0x00, 0x80])
        + command_only(Command::InternalSpeedSetting, seq![0x20u8, 0x3F, 0x00, 0x01])
        + command_only(Command::BrightnessSetting, brightness_args(DEFAULT_BRIGHTNESS))
        + clear_steps() + command_only(Command::DisplayPosition1Offset, seq![0x00u8, 0x04])
        + command_only(Command::DisplayPosition2Offset, seq![0x00u8, 0x3c]) + command_only(
        Command::UnknownInit,
        seq![0x00u8],
    ) + command_only(Command::DisplayModeSetting, seq![0x00u8]) + command_only(
        Command::FrameSyncSetting,
        seq![0x00u8],
    )
}

/// The arguments that precede a full frame.
pub open spec fn frame_args() -> Seq<u8> {
    seq![0x00u8, 0x04, 0x37]
}

/// A partial frame update was asked for; the panel driver does not support it.
#[derive(Debug, PartialEq, Eq, Structural)]
pub struct UnsupportedOperation;

/// Appends `more` to `steps`.
fn append_steps(steps: &mut Vec<Step>, more: Vec<Step>)
    ensures
        steps_view(final(steps)@) == steps_view(old(steps)@) + steps_view(more@),
{
    let ghost added = more@;
    let mut more = more;
    steps.append(&mut more);
    assert(steps_view(steps@) =~= steps_view(old(steps)@) + steps_view(added));
}

/// Steps of `command` with the given arguments and no payload.
fn command_with(command: Command, args: Vec<u8>) -> (r: Vec<Step>)
    ensures
        steps_view(r@) == command_only(command, args@),
{
    cmd_with_arg(command, args.as_slice())
}

/// Steps of `command` alone.
fn command_alone(command: Command) -> (r: Vec<Step>)
    ensures
        steps_view(r@) == command_only(command, Seq::empty()),
{
    command_with(command, Vec::new())
}

/// The argument pair of a brightness setting.
fn brightness_bytes(val: u32) -> (r: Vec<u8>)
    ensures
        r@ == brightness_args(val),
{
    let high = ((val >> 8) as u8) & 0b11;
    let low = val as u8;
    assert(high == ((val / 256) % 4) as u8 && low == (val % 256) as u8) by (bit_vector)
        requires
            high == ((val >> 8) as u8) & 0b11,
            low == val as u8,
    ;
    let mut r: Vec<u8> = Vec::new();
    r.push(high);
    r.push(low);
    assert(r@ =~= brightness_args(val));
    r
}

/// vfd1in02 driver
pub struct VFD256x50<SPI, RST, DELAY> {
    interface: DisplayInterface<SPI, RST, DELAY>,
}

impl<SPI, RST, DELAY> VFD256x50<SPI, RST, DELAY> {
    /// The interface that the driver talks through.
    pub closed spec fn interface_view(&self) -> DisplayInterface<SPI, RST, DELAY> {
        self.interface
    }

    /// Creates the driver around its interface. The panel is not touched:
    /// perform [`Self::init_steps`] before use.
    pub fn new(interface: DisplayInterface<SPI, RST, DELAY>) -> (r: Self)
        ensures
            r.interface_view() == interface,
    {
        VFD256x50 { interface }
    }

    /// Lends the interface, to perform steps with.
    pub fn interface_mut(&mut self) -> (r: &mut DisplayInterface<SPI, RST, DELAY>)
        ensures
            *r == old(self).interface_view(),
            final(self).interface_view() == *final(r),
    {
        &mut self.interface
    }

    /// This initialises the display and powers it up: a reset, a software
    /// reset, the mode, area, speed and brightness settings, a cleared graphic
    /// RAM, the offsets, and the display mode and frame sync settings.
    pub fn init_steps(&self) -> (r: Vec<Step>)
        ensures
            steps_view(r@) == init_steps(),
    {
        let mut steps = reset(RESET_DURATION_MS);
        append_steps(&mut steps, command_alone(Command::Reset));
        let mode = vec![0x02u8, 0x00];
        assert(mode@ == seq![0x02u8, 0x00]);
        append_steps(&mut steps, command_with(Command::VFDModeSetting, mode));
        let area = vec![0xFFu8, 0x31, 0x00, 0x20, 0x00, 0x00, 0x80];
        assert(area@ == seq![0xFFu8, 0x31, 0x00, 0x20, 0x00, 0x00, 0x80]);
        append_steps(&mut steps, command_with(Command::DisplayAreaSetting, area));
        let speed = vec![0x20u8, 0x3F, 0x00, 0x01];
        assert(speed@ == seq![0x20u8, 0x3F, 0x00, 0x01]);
        append_steps(&mut steps, command_with(Command::InternalSpeedSetting, speed));
        append_steps(&mut steps, self.brightness_steps(DEFAULT_BRIGHTNESS));
        append_steps(&mut steps, self.clear_frame_steps());
        let offset1 = vec![0x00u8, 0x04];
        assert(offset1@ == seq![0x00u8, 0x04]);
        append_steps(&mut steps, command_with(Command::DisplayPosition1Offset, offset1));
        let offset2 = vec![0x00u8, 0x3c];
        assert(offset2@ == seq![0x00u8, 0x3c]);
        append_steps(&mut steps, command_with(Command::DisplayPosition2Offset, offset2));
        let unknown = vec![0x00u8];
        assert(unknown@ == seq![0x00u8]);
        append_steps(&mut steps, command_with(Command::UnknownInit, unknown));
        let display_mode = vec![0x00u8];
        assert(display_mode@ == seq![0x00u8]);
        append_steps(&mut steps, command_with(Command::DisplayModeSetting, display_mode));
        let frame_sync = vec![0x00u8];
        assert(frame_sync@ == seq![0x00u8]);
        append_steps(&mut steps, command_with(Command::FrameSyncSetting, frame_sync));
        steps
    }

    /// set brightness of screen: bits 8 and 9 of `val`, then its low byte.
    pub fn brightness_steps(&self, val: u32) -> (r: Vec<Step>)
        ensures
            steps_view(r@) == command_only(Command::BrightnessSetting, brightness_args(val)),
    {
        command_with(Command::BrightnessSetting, brightness_bytes(val))
    }

    /// Let the device enter deep-sleep mode to save power.
    pub fn sleep_steps(&self) -> (r: Vec<Step>)
        ensures
            steps_view(r@) == command_only(Command::Sleep, Seq::empty()),
    {
        command_alone(Command::Sleep)
    }

    /// Wakes the device up from sleep and initialises it again, as the panel
    /// loses its configuration in deep sleep.
    pub fn wake_up_steps(&self) -> (r: Vec<Step>)
        ensures
            steps_view(r@) == command_only(Command::WakeUp, Seq::empty()) + init_steps(),
    {
        let mut steps = command_alone(Command::WakeUp);
        append_steps(&mut steps, self.init_steps());
        steps
    }

    /// Get the width of the display
    pub fn width(&self) -> (r: u32)
        ensures
            r == WIDTH,
    {
        WIDTH
    }

    /// Get the height of the display
    pub fn height(&self) -> (r: u32)
        ensures
            r == HEIGHT,
    {
        HEIGHT
    }

    /// Transmit a full frame to the graphic RAM of the VFD. The buffer is
    /// expected to hold [`NUM_DISPLAY_BITS`] bytes; it is sent as it is.
    pub fn update_frame_steps(&self, buffer: &[u8]) -> (r: Vec<Step>)
        ensures
            steps_view(r@) == command_steps(Command::WriteGRAM.opcode(), frame_args(), buffer@),
    {
        let args = vec![0x00u8, 0x04, 0x37];
        assert(args@ == frame_args());
        cmd_with_data(Command::WriteGRAM, args.as_slice(), buffer)
    }

    /// Transmits partial data to the graphic RAM: not supported by this panel,
    /// and refused every time.
    pub fn update_partial_frame_steps(
        &self,
        buffer: &[u8],
        x: u32,
        y: u32,
        width: u32,
        height: u32,
    ) -> (r: Result<Vec<Step>, UnsupportedOperation>)
        ensures
            r == Err::<Vec<Step>, UnsupportedOperation>(UnsupportedOperation),
    {
        Err(UnsupportedOperation)
    }

    /// Clears the graphic RAM of the VFD and waits for it to settle.
    pub fn clear_frame_steps(&self) -> (r: Vec<Step>)
        ensures
            steps_view(r@) == clear_steps(),
    {
        let mut steps = command_alone(Command::ClearGRAM);
        let mut wait: Vec<Step> = Vec::new();
        wait.push(Step::DelayMs(CLEAR_DELAY_MS));
        assert(steps_view(wait@) =~= seq![StepView::DelayMs(CLEAR_DELAY_MS)]);
        append_steps(&mut steps, wait);
        steps
    }
}

} // verus!
