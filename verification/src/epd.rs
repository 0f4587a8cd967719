//! The SSD1680 e-paper controller (Waveshare 2.9" V2, 296 × 128): the
//! sequences of commands that initialise it, prepare partial refresh,
//! refresh the screen fully or partially, and put it to sleep.
//!
//! A sequence is a list of bus steps that the caller performs in order on the
//! SPI bus and the control lines.
use vstd::prelude::*;
use vstd::slice::{slice_subrange, slice_to_vec};

use crate::display::BUF_SIZE;

verus! {

/// One step on the controller's bus.
#[derive(Debug)]
pub enum EpdOp {
    /// Drive the reset line high (`true`) or low.
    SetReset(bool),
    /// Wait this many milliseconds.
    DelayMs(u32),
    /// Wait 1 ms, then until the busy line is low, polling every 10 ms.
    WaitBusy,
    /// Send one command byte (chip select low, data/command low).
    Command(u8),
    /// Send a command byte, then its parameter bytes (data/command high),
    /// in one selection of the chip.
    CommandData(u8, Vec<u8>),
    /// Send data bytes in one selection of the chip.
    Data(Vec<u8>),
    /// Send the frame buffer as data, in one selection of the chip.
    Frame,
}

/// A bus step as a value.
pub ghost enum EpdStep {
    SetReset(bool),
    DelayMs(u32),
    WaitBusy,
    Command(u8),
    CommandData(u8, Seq<u8>),
    Data(Seq<u8>),
    Frame,
}

impl EpdOp {
    pub open spec fn step(&self) -> EpdStep {
        match self {
            EpdOp::SetReset(h) => EpdStep::SetReset(*h),
            EpdOp::DelayMs(ms) => EpdStep::DelayMs(*ms),
            EpdOp::WaitBusy => EpdStep::WaitBusy,
            EpdOp::Command(c) => EpdStep::Command(*c),
            EpdOp::CommandData(c, d) => EpdStep::CommandData(*c, d@),
            EpdOp::Data(d) => EpdStep::Data(d@),
            EpdOp::Frame => EpdStep::Frame,
        }
    }
}

/// The steps of a sequence.
pub open spec fn steps(ops: Seq<EpdOp>) -> Seq<EpdStep> {
    Seq::new(ops.len(), |i: int| ops[i].step())
}

/// The waveform table for partial refresh: bytes 0..153 go to register
/// 0x32, then one byte each to 0x3F and 0x03, three to 0x04 and one to 0x2C.
pub open spec fn partial_lut() -> Seq<u8> {
    seq![
        0x00u8, 0x40, 0x00, 0x00, 0x00, 0x00, 0x00, 0x00, 0x00, 0x00, 0x00, 0x00,
        0x80, 0x80, 0x00, 0x00, 0x00, 0x00, 0x00, 0x00, 0x00, 0x00, 0x00, 0x00,
        0x40, 0x40, 0x00, 0x00, 0x00, 0x00, 0x00, 0x00, 0x00, 0x00, 0x00, 0x00,
        0x00, 0x80, 0x00, 0x00, 0x00, 0x00, 0x00, 0x00, 0x00, 0x00, 0x00, 0x00,
        0x00, 0x00, 0x00, 0x00, 0x00, 0x00, 0x00, 0x00, 0x00, 0x00, 0x00, 0x00,
        0x0A, 0x00, 0x00, 0x00, 0x00, 0x00, 0x00,
        0x01, 0x00, 0x00, 0x00, 0x00, 0x00, 0x00,
        0x01, 0x00, 0x00, 0x00, 0x00, 0x00, 0x00,
        0x00, 0x00, 0x00, 0x00, 0x00, 0x00, 0x00,
        0x00, 0x00, 0x00, 0x00, 0x00, 0x00, 0x00,
        0x00, 0x00, 0x00, 0x00, 0x00, 0x00, 0x00,
        0x00, 0x00, 0x00, 0x00, 0x00, 0x00, 0x00,
        0x00, 0x00, 0x00, 0x00, 0x00, 0x00, 0x00,
        0x00, 0x00, 0x00, 0x00, 0x00, 0x00, 0x00,
        0x00, 0x00, 0x00, 0x00, 0x00, 0x00, 0x00,
        0x00, 0x00, 0x00, 0x00, 0x00, 0x00, 0x00,
        0x00, 0x00, 0x00, 0x00, 0x00, 0x00, 0x00,
        0x22, 0x22, 0x22, 0x22, 0x22, 0x22, 0x00, 0x00, 0x00,
        0x22, 0x17, 0x41, 0xB0, 0x32, 0x36,
    ]
}

/// Both RAM images all white: 296 rows of 17 bytes of 0xFF.
pub open spec fn white_image() -> Seq<u8> {
    Seq::new(BUF_SIZE as nat, |i: int| 0xFFu8)
}

/// Put the RAM address counters at the origin.
pub open spec fn cursor_to_origin() -> Seq<EpdStep> {
    seq![EpdStep::CommandData(0x4E, seq![0x00u8]), EpdStep::CommandData(0x4F, seq![0x00u8, 0x00])]
}

/// The reset pulse: high, low, high, 10 ms apart, then wait until idle.
pub open spec fn reset_steps() -> Seq<EpdStep> {
    seq![
        EpdStep::SetReset(true),
        EpdStep::DelayMs(10),
        EpdStep::SetReset(false),
        EpdStep::DelayMs(10),
        EpdStep::SetReset(true),
        EpdStep::DelayMs(10),
        EpdStep::WaitBusy,
    ]
}

/// Initialisation for full refresh: reset; software reset; 296 gate lines;
/// address increments in x and y; RAM window 0..=16 × 0..=295; white
/// border; both RAMs white; internal temperature sensor; load temperature
/// and waveform; counters back at the origin.
pub open spec fn init_steps() -> Seq<EpdStep> {
    reset_steps() + seq![
        EpdStep::Command(0x12),
        EpdStep::WaitBusy,
        EpdStep::CommandData(0x01, seq![0x27u8, 0x01, 0x00]),
        EpdStep::CommandData(0x11, seq![0x03u8]),
        EpdStep::CommandData(0x44, seq![0x00u8, 0x10]),
        EpdStep::CommandData(0x45, seq![0x00u8, 0x00, 0x27, 0x01]),
        EpdStep::CommandData(0x3C, seq![0x50u8]),
    ] + cursor_to_origin() + seq![EpdStep::Command(0x24), EpdStep::Data(white_image())]
        + cursor_to_origin() + seq![EpdStep::Command(0x26), EpdStep::Data(white_image())] + seq![
        EpdStep::CommandData(0x18, seq![0x80u8]),
        EpdStep::CommandData(0x22, seq![0xB1u8]),
        EpdStep::Command(0x20),
        EpdStep::WaitBusy,
    ] + cursor_to_origin() + seq![EpdStep::WaitBusy]
}

/// Preparation for partial refresh: load the partial waveform and its extra
/// registers, set the display option register, the partial border, and
/// switch on clock and analog.
pub open spec fn init_partial_steps() -> Seq<EpdStep> {
    let lut = partial_lut();
    seq![
        EpdStep::Command(0x32),
        EpdStep::Data(lut.subrange(0, 153)),
        EpdStep::WaitBusy,
        EpdStep::CommandData(0x3F, seq![lut[153]]),
        EpdStep::CommandData(0x03, seq![lut[154]]),
        EpdStep::CommandData(0x04, lut.subrange(155, 158)),
        EpdStep::CommandData(0x2C, seq![lut[158]]),
        EpdStep::CommandData(0x37, seq![0x00u8, 0x00, 0x00, 0x00, 0x00, 0x40, 0x00, 0x00, 0x00, 0x00]),
        EpdStep::CommandData(0x3C, seq![0x80u8]),
        EpdStep::CommandData(0x22, seq![0xC0u8]),
        EpdStep::Command(0x20),
        EpdStep::WaitBusy,
    ]
}

/// Full refresh: the frame into the current RAM and into the previous RAM,
/// then a full update.
pub open spec fn update_steps() -> Seq<EpdStep> {
    cursor_to_origin() + seq![EpdStep::WaitBusy, EpdStep::Command(0x24), EpdStep::Frame]
        + cursor_to_origin() + seq![
        EpdStep::WaitBusy,
        EpdStep::Command(0x26),
        EpdStep::Frame,
        EpdStep::CommandData(0x22, seq![0xF7u8]),
        EpdStep::Command(0x20),
        EpdStep::WaitBusy,
    ]
}

/// Partial refresh: the frame into the current RAM only, a partial update
/// against the previous RAM, then the frame into the previous RAM for the
/// next partial update.
pub open spec fn update_partial_steps() -> Seq<EpdStep> {
    seq![
        EpdStep::CommandData(0x44, seq![0x00u8, 0x10]),
        EpdStep::CommandData(0x45, seq![0x00u8, 0x00, 0x27, 0x01]),
    ] + cursor_to_origin() + seq![
        EpdStep::WaitBusy,
        EpdStep::Command(0x24),
        EpdStep::Frame,
        EpdStep::CommandData(0x22, seq![0x0Fu8]),
        EpdStep::Command(0x20),
        EpdStep::WaitBusy,
    ] + cursor_to_origin() + seq![EpdStep::Command(0x26), EpdStep::Frame]
}

/// Deep sleep, then a pause of 100 ms.
pub open spec fn sleep_steps() -> Seq<EpdStep> {
    seq![EpdStep::CommandData(0x10, seq![0x01u8]), EpdStep::DelayMs(100)]
}

fn push_op(ops: &mut Vec<EpdOp>, op: EpdOp)
    ensures
        steps(final(ops)@) == steps(old(ops)@).push(op.step()),
{
    let ghost s = op.step();
    ops.push(op);
    assert(steps(ops@) =~= steps(old(ops)@).push(s));
}

fn add_command_data(ops: &mut Vec<EpdOp>, command: u8, data: &[u8])
    ensures
        steps(final(ops)@) == steps(old(ops)@).push(EpdStep::CommandData(command, data@)),
{
    push_op(ops, EpdOp::CommandData(command, slice_to_vec(data)));
}

fn add_cursor_to_origin(ops: &mut Vec<EpdOp>)
    ensures
        steps(final(ops)@) == steps(old(ops)@) + cursor_to_origin(),
{
    let x: [u8; 1] = [0x00];
    let y: [u8; 2] = [0x00, 0x00];
    add_command_data(ops, 0x4E, &x);
    add_command_data(ops, 0x4F, &y);
    assert(x@ =~= seq![0x00u8]);
    assert(y@ =~= seq![0x00u8, 0x00]);
    assert(steps(ops@) =~= steps(old(ops)@) + cursor_to_origin());
}

fn white_bytes() -> (r: Vec<u8>)
    ensures
        r@ == white_image(),
{
    let mut v: Vec<u8> = Vec::new();
    let mut i: usize = 0;
    while i < BUF_SIZE
        invariant
            i <= BUF_SIZE,
            v@ == Seq::new(i as nat, |j: int| 0xFFu8),
        decreases BUF_SIZE - i,
    {
        v.push(0xFF);
        i = i + 1;
        assert(v@ =~= Seq::new(i as nat, |j: int| 0xFFu8));
    }
    v
}

/// The steps of initialisation for full refresh.
pub fn init_script() -> (r: Vec<EpdOp>)
    ensures
        steps(r@) == init_steps(),
{
    let mut ops: Vec<EpdOp> = Vec::new();
    push_op(&mut ops, EpdOp::SetReset(true));
    push_op(&mut ops, EpdOp::DelayMs(10));
    push_op(&mut ops, EpdOp::SetReset(false));
    push_op(&mut ops, EpdOp::DelayMs(10));
    push_op(&mut ops, EpdOp::SetReset(true));
    push_op(&mut ops, EpdOp::DelayMs(10));
    push_op(&mut ops, EpdOp::WaitBusy);
    push_op(&mut ops, EpdOp::Command(0x12));
    push_op(&mut ops, EpdOp::WaitBusy);
    let gates: [u8; 3] = [0x27, 0x01, 0x00];
    let entry: [u8; 1] = [0x03];
    let xs: [u8; 2] = [0x00, 0x10];
    let ys: [u8; 4] = [0x00, 0x00, 0x27, 0x01];
    let border: [u8; 1] = [0x50];
    add_command_data(&mut ops, 0x01, &gates);
    add_command_data(&mut ops, 0x11, &entry);
    add_command_data(&mut ops, 0x44, &xs);
    add_command_data(&mut ops, 0x45, &ys);
    add_command_data(&mut ops, 0x3C, &border);
    let ghost head = steps(ops@);
    add_cursor_to_origin(&mut ops);
    push_op(&mut ops, EpdOp::Command(0x24));
    push_op(&mut ops, EpdOp::Data(white_bytes()));
    add_cursor_to_origin(&mut ops);
    push_op(&mut ops, EpdOp::Command(0x26));
    push_op(&mut ops, EpdOp::Data(white_bytes()));
    let sensor: [u8; 1] = [0x80];
    let load: [u8; 1] = [0xB1];
    add_command_data(&mut ops, 0x18, &sensor);
    add_command_data(&mut ops, 0x22, &load);
    push_op(&mut ops, EpdOp::Command(0x20));
    push_op(&mut ops, EpdOp::WaitBusy);
    add_cursor_to_origin(&mut ops);
    push_op(&mut ops, EpdOp::WaitBusy);
    assert(gates@ =~= seq![0x27u8, 0x01, 0x00]);
    assert(entry@ =~= seq![0x03u8]);
    assert(xs@ =~= seq![0x00u8, 0x10]);
    assert(ys@ =~= seq![0x00u8, 0x00, 0x27, 0x01]);
    assert(border@ =~= seq![0x50u8]);
    assert(sensor@ =~= seq![0x80u8]);
    assert(load@ =~= seq![0xB1u8]);
    assert(steps(ops@) =~= init_steps());
    ops
}

/// The steps that prepare partial refresh.
pub fn init_partial_script() -> (r: Vec<EpdOp>)
    ensures
        steps(r@) == init_partial_steps(),
{
    let lut: [u8; 159] = [
        0x00, 0x40, 0x00, 0x00, 0x00, 0x00, 0x00, 0x00, 0x00, 0x00, 0x00, 0x00,
        0x80, 0x80, 0x00, 0x00, 0x00, 0x00, 0x00, 0x00, 0x00, 0x00, 0x00, 0x00,
        0x40, 0x40, 0x00, 0x00, 0x00, 0x00, 0x00, 0x00, 0x00, 0x00, 0x00, 0x00,
        0x00, 0x80, 0x00, 0x00, 0x00, 0x00, 0x00, 0x00, 0x00, 0x00, 0x00, 0x00,
        0x00, 0x00, 0x00, 0x00, 0x00, 0x00, 0x00, 0x00, 0x00, 0x00, 0x00, 0x00,
        0x0A, 0x00, 0x00, 0x00, 0x00, 0x00, 0x00,
        0x01, 0x00, 0x00, 0x00, 0x00, 0x00, 0x00,
        0x01, 0x00, 0x00, 0x00, 0x00, 0x00, 0x00,
        0x00, 0x00, 0x00, 0x00, 0x00, 0x00, 0x00,
        0x00, 0x00, 0x00, 0x00, 0x00, 0x00, 0x00,
        0x00, 0x00, 0x00, 0x00, 0x00, 0x00, 0x00,
        0x00, 0x00, 0x00, 0x00, 0x00, 0x00, 0x00,
        0x00, 0x00, 0x00, 0x00, 0x00, 0x00, 0x00,
        0x00, 0x00, 0x00, 0x00, 0x00, 0x00, 0x00,
        0x00, 0x00, 0x00, 0x00, 0x00, 0x00, 0x00,
        0x00, 0x00, 0x00, 0x00, 0x00, 0x00, 0x00,
        0x00, 0x00, 0x00, 0x00, 0x00, 0x00, 0x00,
        0x22, 0x22, 0x22, 0x22, 0x22, 0x22, 0x00, 0x00, 0x00,
        0x22, 0x17, 0x41, 0xB0, 0x32, 0x36,
    ];
    assert(lut@ =~= partial_lut());
    let mut ops: Vec<EpdOp> = Vec::new();
    push_op(&mut ops, EpdOp::Command(0x32));
    push_op(&mut ops, EpdOp::Data(slice_to_vec(slice_subrange(&lut, 0, 153))));
    push_op(&mut ops, EpdOp::WaitBusy);
    let r3f: [u8; 1] = [lut[153]];
    let r03: [u8; 1] = [lut[154]];
    let r2c: [u8; 1] = [lut[158]];
    add_command_data(&mut ops, 0x3F, &r3f);
    add_command_data(&mut ops, 0x03, &r03);
    add_command_data(&mut ops, 0x04, slice_subrange(&lut, 155, 158));
    add_command_data(&mut ops, 0x2C, &r2c);
    let option: [u8; 10] = [0x00, 0x00, 0x00, 0x00, 0x00, 0x40, 0x00, 0x00, 0x00, 0x00];
    let border: [u8; 1] = [0x80];
    let enable: [u8; 1] = [0xC0];
    add_command_data(&mut ops, 0x37, &option);
    add_command_data(&mut ops, 0x3C, &border);
    add_command_data(&mut ops, 0x22, &enable);
    push_op(&mut ops, EpdOp::Command(0x20));
    push_op(&mut ops, EpdOp::WaitBusy);
    assert(r3f@ =~= seq![partial_lut()[153]]);
    assert(r03@ =~= seq![partial_lut()[154]]);
    assert(r2c@ =~= seq![partial_lut()[158]]);
    assert(option@ =~= seq![0x00u8, 0x00, 0x00, 0x00, 0x00, 0x40, 0x00, 0x00, 0x00, 0x00]);
    assert(border@ =~= seq![0x80u8]);
    assert(enable@ =~= seq![0xC0u8]);
    assert(steps(ops@) =~= init_partial_steps());
    ops
}

/// The steps of a full refresh with the frame buffer.
pub fn update_script() -> (r: Vec<EpdOp>)
    ensures
        steps(r@) == update_steps(),
{
    let mut ops: Vec<EpdOp> = Vec::new();
    add_cursor_to_origin(&mut ops);
    push_op(&mut ops, EpdOp::WaitBusy);
    push_op(&mut ops, EpdOp::Command(0x24));
    push_op(&mut ops, EpdOp::Frame);
    add_cursor_to_origin(&mut ops);
    push_op(&mut ops, EpdOp::WaitBusy);
    push_op(&mut ops, EpdOp::Command(0x26));
    push_op(&mut ops, EpdOp::Frame);
    let full: [u8; 1] = [0xF7];
    add_command_data(&mut ops, 0x22, &full);
    push_op(&mut ops, EpdOp::Command(0x20));
    push_op(&mut ops, EpdOp::WaitBusy);
    assert(full@ =~= seq![0xF7u8]);
    assert(steps(ops@) =~= update_steps());
    ops
}

/// The steps of a partial refresh with the frame buffer.
pub fn update_partial_script() -> (r: Vec<EpdOp>)
    ensures
        steps(r@) == update_partial_steps(),
{
    let mut ops: Vec<EpdOp> = Vec::new();
    let xs: [u8; 2] = [0x00, 0x10];
    let ys: [u8; 4] = [0x00, 0x00, 0x27, 0x01];
    add_command_data(&mut ops, 0x44, &xs);
    add_command_data(&mut ops, 0x45, &ys);
    add_cursor_to_origin(&mut ops);
    push_op(&mut ops, EpdOp::WaitBusy);
    push_op(&mut ops, EpdOp::Command(0x24));
    push_op(&mut ops, EpdOp::Frame);
    let partial: [u8; 1] = [0x0F];
    add_command_data(&mut ops, 0x22, &partial);
    push_op(&mut ops, EpdOp::Command(0x20));
    push_op(&mut ops, EpdOp::WaitBusy);
    add_cursor_to_origin(&mut ops);
    push_op(&mut ops, EpdOp::Command(0x26));
    push_op(&mut ops, EpdOp::Frame);
    assert(xs@ =~= seq![0x00u8, 0x10]);
    assert(ys@ =~= seq![0x00u8, 0x00, 0x27, 0x01]);
    assert(partial@ =~= seq![0x0Fu8]);
    assert(steps(ops@) =~= update_partial_steps());
    ops
}

/// The steps that put the controller into deep sleep.
pub fn sleep_script() -> (r: Vec<EpdOp>)
    ensures
        steps(r@) == sleep_steps(),
{
    let mut ops: Vec<EpdOp> = Vec::new();
    let deep: [u8; 1] = [0x01];
    add_command_data(&mut ops, 0x10, &deep);
    push_op(&mut ops, EpdOp::DelayMs(100));
    assert(deep@ =~= seq![0x01u8]);
    assert(steps(ops@) =~= sleep_steps());
    ops
}

} // verus!
