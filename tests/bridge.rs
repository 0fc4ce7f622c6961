use tilda_bridge::bridge::{combine_lines, pin_levels, set_pins, uart_byte_targets, ControlLines, FanOut, PinLevels};

#[test]
fn boot_table_rows() {
    assert_eq!(set_pins(true, true), PinLevels { en: true, io0: true });
    assert_eq!(set_pins(false, false), PinLevels { en: true, io0: true });
    assert_eq!(set_pins(true, false), PinLevels { en: false, io0: true });
    assert_eq!(set_pins(false, true), PinLevels { en: true, io0: false });
}

#[test]
fn control_lines_are_ored() {
    let cdc = ControlLines { dtr: true, rts: false };
    let web = ControlLines { dtr: false, rts: false };
    assert_eq!(combine_lines(cdc, web), ControlLines { dtr: true, rts: false });
    assert_eq!(pin_levels(cdc, web), PinLevels { en: false, io0: true });
    let both = pin_levels(ControlLines { dtr: true, rts: false }, ControlLines { dtr: false, rts: true });
    assert_eq!(both, PinLevels { en: true, io0: true });
}

#[test]
fn uart_bytes_go_to_both_interfaces_when_configured() {
    assert_eq!(uart_byte_targets(true), FanOut { serial: true, webusb: true });
    assert_eq!(uart_byte_targets(false), FanOut { serial: false, webusb: false });
}
