use vstd::prelude::*;

verus! {

/// DTR and RTS as the host asserts them.
#[derive(Clone, Copy, Debug, PartialEq, Eq, Structural)]
pub struct ControlLines {
    pub dtr: bool,
    pub rts: bool,
}

/// Levels of the co-processor's enable (EN) and boot-select (IO0) pins.
#[derive(Clone, Copy, Debug, PartialEq, Eq, Structural)]
pub struct PinLevels {
    pub en: bool,
    pub io0: bool,
}

/// The auto-reset circuit: both lines asserted or neither is the run
/// state (both pins high); DTR alone pulls EN low, RTS alone pulls IO0 low.
pub open spec fn boot_table(dtr: bool, rts: bool) -> PinLevels {
    PinLevels { en: !(dtr && !rts), io0: !(!dtr && rts) }
}

/// A line counts as asserted when either interface asserts it.
pub fn combine_lines(a: ControlLines, b: ControlLines) -> (r: ControlLines)
    ensures
        r == (ControlLines { dtr: a.dtr || b.dtr, rts: a.rts || b.rts }),
{
    ControlLines { dtr: a.dtr || b.dtr, rts: a.rts || b.rts }
}

/// The pin levels for the asserted lines `dtr` and `rts`.
pub fn set_pins(dtr: bool, rts: bool) -> (r: PinLevels)
    ensures
        r == boot_table(dtr, rts),
{
    if dtr == rts {
        PinLevels { en: true, io0: true }
    } else if dtr {
        PinLevels { en: false, io0: true }
    } else {
        PinLevels { en: true, io0: false }
    }
}

/// The pin levels for the lines of the serial port and of the WebUSB
/// interface together.
pub fn pin_levels(serial: ControlLines, webusb: ControlLines) -> (r: PinLevels)
    ensures
        r == boot_table(serial.dtr || webusb.dtr, serial.rts || webusb.rts),
{
    let lines = combine_lines(serial, webusb);
    set_pins(lines.dtr, lines.rts)
}

/// The four rows of the auto-reset table.
pub proof fn lemma_boot_table_rows()
    ensures
        boot_table(true, true) == (PinLevels { en: true, io0: true }),
        boot_table(false, false) == (PinLevels { en: true, io0: true }),
        boot_table(true, false) == (PinLevels { en: false, io0: true }),
        boot_table(false, true) == (PinLevels { en: true, io0: false }),
{
}

/// The interfaces that a byte read from the UART is written to.
#[derive(Clone, Copy, Debug, PartialEq, Eq, Structural)]
pub struct FanOut {
    pub serial: bool,
    pub webusb: bool,
}

/// A byte from the UART goes to both interfaces once the device is
/// configured, and to neither before. Both writes are made whatever the
/// other's outcome.
pub fn uart_byte_targets(configured: bool) -> (r: FanOut)
    ensures
        r == (FanOut { serial: configured, webusb: configured }),
{
    FanOut { serial: configured, webusb: configured }
}

} // verus!
