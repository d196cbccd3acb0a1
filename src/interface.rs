//! The transaction layer: what a command puts on the bus, and in which grouping.
//!
//! Each function here returns the steps of one operation; the owner of the
//! bus, the reset line and the delay source performs them in order and stops
//! at the first step that fails.
use vstd::prelude::*;

use vstd::seq_lib::lemma_flatten_concat;

use crate::traits::Command;

verus! {

/// Largest single write that a host is asked to perform; longer payloads are
/// split into writes of at most this many bytes.
pub const MAX_WRITE_LEN: usize = 4096;

/// Whether bit `i` (0 = least significant) of `b` is set.
pub open spec fn bit_of(b: u8, i: u8) -> bool {
    (b >> i) & 1 == 1
}

/// `b` with its bit order reversed: the least significant bit becomes the most
/// significant one, and so on.
pub open spec fn reverse_bits(b: u8) -> u8 {
    ((b & 0x01) << 7) | ((b & 0x02) << 5) | ((b & 0x04) << 3) | ((b & 0x08) << 1) | ((b & 0x10)
        >> 1) | ((b & 0x20) >> 3) | ((b & 0x40) >> 5) | ((b & 0x80) >> 7)
}

/// Bit `i` of the reversed byte is bit `7 - i` of the byte.
pub proof fn lemma_reverse_bits_mirrors(b: u8)
    ensures
        forall|i: u8| i < 8 ==> bit_of(reverse_bits(b), i) == bit_of(b, (7 - i) as u8),
        reverse_bits(reverse_bits(b)) == b,
{
    assert(forall|i: u8| i < 8 ==> bit_of(reverse_bits(b), i) == bit_of(b, (7 - i) as u8))
        by (bit_vector);
    assert(reverse_bits(reverse_bits(b)) == b) by (bit_vector);
}

/// Relies on `u8::reverse_bits`: the least significant bit becomes the most
/// significant bit, the second least significant the second most, and so on.
#[verifier::external_body]
fn reverse_byte(b: u8) -> (r: u8)
    ensures
        r == reverse_bits(b),
{
    b.reverse_bits()
}

/// One step of talking to the panel.
#[derive(Debug)]
pub enum Step {
    /// A write on the bus, outside any selection window
    Write(Vec<u8>),
    /// Writes performed back to back inside one selection window
    Transaction(Vec<Vec<u8>>),
    /// Drive the reset line low
    ResetLow,
    /// Drive the reset line high
    ResetHigh,
    /// Wait for the given number of milliseconds
    DelayMs(u32),
}

/// What a [`Step`] does, with its bytes as sequences.
pub enum StepView {
    /// A write on the bus, outside any selection window
    Write(Seq<u8>),
    /// Writes performed back to back inside one selection window
    Transaction(Seq<Seq<u8>>),
    /// Drive the reset line low
    ResetLow,
    /// Drive the reset line high
    ResetHigh,
    /// Wait for the given number of milliseconds
    DelayMs(u32),
}

impl View for Step {
    type V = StepView;

    open spec fn view(&self) -> StepView {
        match self {
            Step::Write(b) => StepView::Write(b@),
            Step::Transaction(ws) => StepView::Transaction(ws@.map_values(|w: Vec<u8>| w@)),
            Step::ResetLow => StepView::ResetLow,
            Step::ResetHigh => StepView::ResetHigh,
            Step::DelayMs(ms) => StepView::DelayMs(*ms),
        }
    }
}

/// The views of a sequence of steps.
pub open spec fn steps_view(steps: Seq<Step>) -> Seq<StepView> {
    steps.map_values(|s: Step| s@)
}

/// `data` cut, front to back, into pieces of `max` bytes; the last piece may be
/// shorter, and no piece is empty.
pub open spec fn chunks(data: Seq<u8>, max: nat) -> Seq<Seq<u8>>
    decreases data.len(),
{
    if data.len() == 0 || max == 0 {
        Seq::empty()
    } else {
        let n = if data.len() <= max {
            data.len() as int
        } else {
            max as int
        };
        seq![data.take(n)] + chunks(data.skip(n), max)
    }
}

/// The writes of one command inside its selection window: the command's
/// address with its bits reversed, the arguments, then the payload in pieces
/// of at most `max` bytes.
pub open spec fn command_frame(address: u8, args: Seq<u8>, data: Seq<u8>, max: nat) -> Seq<
    Seq<u8>,
> {
    seq![seq![reverse_bits(address)], args] + chunks(data, max)
}

/// The steps of one command: an empty write that lets the line settle, then
/// the command's frame inside one selection window.
pub open spec fn command_steps(address: u8, args: Seq<u8>, data: Seq<u8>) -> Seq<StepView> {
    seq![
        StepView::Write(Seq::empty()),
        StepView::Transaction(command_frame(address, args, data, MAX_WRITE_LEN as nat)),
    ]
}

/// The steps of a hardware reset: hold the line low for `duration`
/// milliseconds, release it, and let the panel settle for one millisecond.
pub open spec fn reset_steps(duration: u32) -> Seq<StepView> {
    seq![StepView::ResetLow, StepView::DelayMs(duration), StepView::ResetHigh, StepView::DelayMs(1)]
}

proof fn lemma_chunks(data: Seq<u8>, max: nat)
    requires
        max > 0,
    ensures
        chunks(data, max).flatten() == data,
        forall|i: int|
            0 <= i < chunks(data, max).len() ==> 0 < #[trigger] chunks(data, max)[i].len() <= max,
    decreases data.len(),
{
    if data.len() > 0 {
        let n = if data.len() <= max {
            data.len() as int
        } else {
            max as int
        };
        lemma_chunks(data.skip(n), max);
        lemma_flatten_concat(seq![data.take(n)], chunks(data.skip(n), max));
        seq![data.take(n)].lemma_flatten_one_element();
        assert(data.take(n) + data.skip(n) =~= data);
        let c = chunks(data, max);
        assert forall|i: int| 0 <= i < c.len() implies 0 < #[trigger] c[i].len() <= max by {
            if i > 0 {
                assert(c[i] == chunks(data.skip(n), max)[i - 1]);
            }
        }
    }
}

/// Everything that one command puts on the bus inside its selection window is
/// the reversed address, the arguments and the payload, in that order and with
/// nothing between them; no payload write is empty or longer than `max`.
pub proof fn lemma_command_frame_bytes(address: u8, args: Seq<u8>, data: Seq<u8>, max: nat)
    requires
        max > 0,
    ensures
        command_frame(address, args, data, max).flatten() == seq![reverse_bits(address)] + args
            + data,
        forall|i: int|
            2 <= i < command_frame(address, args, data, max).len() ==> 0 < #[trigger] command_frame(
                address,
                args,
                data,
                max,
            )[i].len() <= max,
{
    let head = seq![seq![reverse_bits(address)], args];
    lemma_chunks(data, max);
    lemma_flatten_concat(head, chunks(data, max));
    lemma_flatten_concat(seq![seq![reverse_bits(address)]], seq![args]);
    seq![seq![reverse_bits(address)]].lemma_flatten_one_element();
    seq![args].lemma_flatten_one_element();
    assert(head =~= seq![seq![reverse_bits(address)]] + seq![args]);
    let f = command_frame(address, args, data, max);
    assert forall|i: int| 2 <= i < f.len() implies 0 < #[trigger] f[i].len() <= max by {
        assert(f[i] == chunks(data, max)[i - 2]);
    }
}

/// Steps that send `command` with its arguments and a payload: an empty write
/// to settle the line, then one selection window holding the reversed address,
/// the arguments unchanged, and the payload unchanged in writes of at most
/// [`MAX_WRITE_LEN`] bytes.
pub fn cmd_with_data<T: Command>(command: T, args: &[u8], data: &[u8]) -> (r: Vec<Step>)
    ensures
        steps_view(r@) == command_steps(command.address_spec(), args@, data@),
{
    let ghost target = command_frame(command.address_spec(), args@, data@, MAX_WRITE_LEN as nat);
    let mut frame: Vec<Vec<u8>> = Vec::new();
    let mut head: Vec<u8> = Vec::new();
    head.push(reverse_byte(command.address()));
    frame.push(head);
    frame.push(vstd::slice::slice_to_vec(args));
    assert(frame@.map_values(|w: Vec<u8>| w@) =~= seq![seq![reverse_bits(command.address_spec())], args@]);
    assert(data@.skip(0) =~= data@);
    assert(frame@.map_values(|w: Vec<u8>| w@) + chunks(data@.skip(0), MAX_WRITE_LEN as nat)
        =~= target);
    let mut pos: usize = 0;
    while pos < data.len()
        invariant
            pos <= data@.len(),
            frame@.map_values(|w: Vec<u8>| w@) + chunks(data@.skip(pos as int), MAX_WRITE_LEN as nat)
                == target,
        decreases data@.len() - pos,
    {
        let end: usize = if data.len() - pos <= MAX_WRITE_LEN {
            data.len()
        } else {
            pos + MAX_WRITE_LEN
        };
        let ghost rest = data@.skip(pos as int);
        let ghost n = end - pos;
        assert(rest.take(n) =~= data@.subrange(pos as int, end as int));
        assert(rest.skip(n) =~= data@.skip(end as int));
        let piece = vstd::slice::slice_to_vec(&data[pos..end]);
        let ghost before = frame@.map_values(|w: Vec<u8>| w@);
        frame.push(piece);
        assert(frame@.map_values(|w: Vec<u8>| w@) =~= before.push(piece@));
        assert(before + chunks(rest, MAX_WRITE_LEN as nat) =~= before.push(piece@) + chunks(
            data@.skip(end as int),
            MAX_WRITE_LEN as nat,
        ));
        pos = end;
    }
    assert(chunks(data@.skip(pos as int), MAX_WRITE_LEN as nat) =~= Seq::empty());
    assert(frame@.map_values(|w: Vec<u8>| w@) =~= target);
    let r = vec![Step::Write(Vec::new()), Step::Transaction(frame)];
    assert(steps_view(r@) =~= command_steps(command.address_spec(), args@, data@));
    r
}

/// Steps that send `command` with its arguments and no payload.
pub fn cmd_with_arg<T: Command>(command: T, args: &[u8]) -> (r: Vec<Step>)
    ensures
        steps_view(r@) == command_steps(command.address_spec(), args@, Seq::empty()),
{
    let none: Vec<u8> = Vec::new();
    cmd_with_data(command, args, none.as_slice())
}

/// Steps that send the same byte `R` times, outside any selection window.
pub fn data_x_times<const R: usize>(val: u8) -> (r: Vec<Step>)
    ensures
        steps_view(r@) == seq![StepView::Write(Seq::new(R as nat, |i: int| val))],
{
    let mut bytes: Vec<u8> = Vec::new();
    let mut i: usize = 0;
    while i < R
        invariant
            i <= R,
            bytes@ == Seq::new(i as nat, |j: int| val),
        decreases R - i,
    {
        bytes.push(val);
        i = i + 1;
        assert(bytes@ =~= Seq::new(i as nat, |j: int| val));
    }
    let r = vec![Step::Write(bytes)];
    assert(steps_view(r@) =~= seq![StepView::Write(Seq::new(R as nat, |i: int| val))]);
    r
}

/// Resets the device: the reset line is held low for `duration` milliseconds,
/// then released, followed by a settle time of one millisecond.
///
/// The time the line must stay low differs between panels.
pub fn reset(duration: u32) -> (r: Vec<Step>)
    ensures
        steps_view(r@) == reset_steps(duration),
{
    let r = vec![Step::ResetLow, Step::DelayMs(duration), Step::ResetHigh, Step::DelayMs(1)];
    assert(steps_view(r@) =~= reset_steps(duration));
    r
}

/// The Connection Interface of the EEI VFDs: the bus, the reset line and the
/// delay source, owned for the lifetime of the driver.
pub struct DisplayInterface<SPI, RST, DELAY> {
    /// SPI
    spi: SPI,
    /// Pin for Resetting
    rst: RST,
    /// DELAY
    delay: DELAY,
}

impl<SPI, RST, DELAY> DisplayInterface<SPI, RST, DELAY> {
    /// The bus handle.
    pub closed spec fn spi_view(&self) -> SPI {
        self.spi
    }

    /// The reset line handle.
    pub closed spec fn rst_view(&self) -> RST {
        self.rst
    }

    /// The delay source.
    pub closed spec fn delay_view(&self) -> DELAY {
        self.delay
    }

    /// Takes ownership of the bus, the reset line and the delay source.
    pub fn new(spi: SPI, rst: RST, delay: DELAY) -> (r: Self)
        ensures
            r.spi_view() == spi,
            r.rst_view() == rst,
            r.delay_view() == delay,
    {
        DisplayInterface { spi, rst, delay }
    }

    /// Lends the bus handle.
    pub fn spi_mut(&mut self) -> (r: &mut SPI)
        ensures
            *r == old(self).spi_view(),
            final(self).spi_view() == *final(r),
            final(self).rst_view() == old(self).rst_view(),
            final(self).delay_view() == old(self).delay_view(),
    {
        &mut self.spi
    }

    /// Lends the reset line handle.
    pub fn rst_mut(&mut self) -> (r: &mut RST)
        ensures
            *r == old(self).rst_view(),
            final(self).rst_view() == *final(r),
            final(self).spi_view() == old(self).spi_view(),
            final(self).delay_view() == old(self).delay_view(),
    {
        &mut self.rst
    }

    /// Lends the delay source.
    pub fn delay_mut(&mut self) -> (r: &mut DELAY)
        ensures
            *r == old(self).delay_view(),
            final(self).delay_view() == *final(r),
            final(self).spi_view() == old(self).spi_view(),
            final(self).rst_view() == old(self).rst_view(),
    {
        &mut self.delay
    }
}

} // verus!
