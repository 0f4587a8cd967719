//! ICNT86 capacitive touch controller: register map, frame layout of register
//! writes, and decoding of the touch report. The I2C transfers themselves are
//! done by the caller.
use vstd::prelude::*;

verus! {

/// I2C address of the ICNT86.
pub const ICNT86_ADDR: u16 = 0x48;

/// Register holding the firmware version (4 bytes).
pub const REG_VERSION: u16 = 0x000A;

/// Register holding the number of touch points (low nibble).
pub const REG_TOUCH_NUM: u16 = 0x1001;

/// Register holding the first touch point (7 bytes).
pub const REG_TOUCH_DATA: u16 = 0x1002;

/// Length of one touch-point record.
pub const TOUCH_RECORD_LEN: usize = 7;

/// A touch position in landscape coordinates: x in 0..296, y in 0..128.
#[derive(Clone, Copy, Debug, PartialEq, Eq)]
pub struct TouchPoint {
    pub x: u16,
    pub y: u16,
}

/// The big-endian bytes of a register address.
pub open spec fn reg_bytes(reg: u16) -> Seq<u8> {
    seq![(reg / 0x100) as u8, (reg % 0x100) as u8]
}

/// The bytes sent for a register write: the address, then at most 8 data bytes.
pub open spec fn write_frame(reg: u16, data: Seq<u8>) -> Seq<u8> {
    reg_bytes(reg) + data.take(if data.len() <= 8 {
        data.len() as int
    } else {
        8
    })
}

/// The register address, big-endian, as sent before a register read.
pub fn register_address(reg: u16) -> (r: Vec<u8>)
    ensures
        r@ == reg_bytes(reg),
{
    let mut v: Vec<u8> = Vec::new();
    v.push((reg / 0x100) as u8);
    v.push((reg % 0x100) as u8);
    assert(v@ =~= reg_bytes(reg));
    v
}

/// The single I2C write that sets register `reg` to `data`; data beyond the
/// eighth byte is not sent.
pub fn register_write_frame(reg: u16, data: &[u8]) -> (r: Vec<u8>)
    ensures
        r@ == write_frame(reg, data@),
{
    let mut v = register_address(reg);
    let n = if data.len() <= 8 {
        data.len()
    } else {
        8
    };
    let mut i: usize = 0;
    while i < n
        invariant
            n <= data@.len(),
            n == (if data@.len() <= 8 {
                data@.len() as int
            } else {
                8
            }),
            i <= n,
            v@ == reg_bytes(reg) + data@.take(i as int),
        decreases n - i,
    {
        v.push(data[i]);
        assert(data@.take(i + 1) =~= data@.take(i as int).push(data@[i as int]));
        i = i + 1;
    }
    v
}

/// Number of touch points reported in the status byte (its low nibble).
pub fn touch_count(status: u8) -> (r: u8)
    ensures
        r == status % 16,
{
    let r = status & 0x0F;
    assert(status & 0x0F == status % 16) by (bit_vector);
    r
}

/// Decode a touch-point record `[pad, x_lo, x_hi, y_lo, y_hi, pressure, id]`.
pub fn decode_touch_point(data: &[u8]) -> (r: TouchPoint)
    requires
        data@.len() >= 5,
    ensures
        r.x == data@[1] as int + data@[2] as int * 256,
        r.y == data@[3] as int + data@[4] as int * 256,
{
    let x = (data[2] as u16) * 256 + data[1] as u16;
    let y = (data[4] as u16) * 256 + data[3] as u16;
    TouchPoint { x, y }
}

/// The touch point held by a record.
pub open spec fn touch_point_of(b: Seq<u8>) -> TouchPoint {
    TouchPoint { x: (b[1] as int + b[2] as int * 256) as u16, y: (b[3] as int + b[4] as int * 256) as u16 }
}

/// What the last step of reading a touch gave.
#[derive(Clone, Copy, Debug)]
pub enum TouchBusResult {
    /// The level of the interrupt line (high: no touch pending).
    Interrupt { high: bool },
    /// The status register, or nothing when the read failed.
    Status(Option<u8>),
    /// The first touch record, or nothing when the read failed.
    Record(Option<[u8; 7]>),
}

/// The next step of reading a touch.
#[derive(Clone, Copy, Debug)]
pub enum TouchAction {
    /// Read the status register.
    ReadStatus,
    /// Read the first touch record.
    ReadRecord,
    /// Stop with this result.
    Finish(Option<TouchPoint>),
    /// Clear the status register (a failure is ignored), then stop with this result.
    ClearThenFinish(Option<TouchPoint>),
}

/// Reading a touch: nothing while the interrupt line is high or when the
/// status read fails; with no touch point reported, or when the record read
/// fails, clear the status and give nothing; else clear it and give the
/// decoded point.
pub open spec fn touch_next(r: TouchBusResult) -> TouchAction {
    match r {
        TouchBusResult::Interrupt { high } => if high {
            TouchAction::Finish(None)
        } else {
            TouchAction::ReadStatus
        },
        TouchBusResult::Status(None) => TouchAction::Finish(None),
        TouchBusResult::Status(Some(s)) => if s % 16 == 0 {
            TouchAction::ClearThenFinish(None)
        } else {
            TouchAction::ReadRecord
        },
        TouchBusResult::Record(None) => TouchAction::ClearThenFinish(None),
        TouchBusResult::Record(Some(d)) => TouchAction::ClearThenFinish(Some(touch_point_of(d@))),
    }
}

/// Decides the next step of reading a touch.
pub fn touch_read_step(r: TouchBusResult) -> (a: TouchAction)
    ensures
        a == touch_next(r),
{
    match r {
        TouchBusResult::Interrupt { high } => {
            if high {
                TouchAction::Finish(None)
            } else {
                TouchAction::ReadStatus
            }
        },
        TouchBusResult::Status(None) => TouchAction::Finish(None),
        TouchBusResult::Status(Some(s)) => {
            if touch_count(s) == 0 {
                TouchAction::ClearThenFinish(None)
            } else {
                TouchAction::ReadRecord
            }
        },
        TouchBusResult::Record(None) => TouchAction::ClearThenFinish(None),
        TouchBusResult::Record(Some(d)) => {
            let p = decode_touch_point(&d);
            TouchAction::ClearThenFinish(Some(p))
        },
    }
}

} // verus!
