use tilda_bridge::class::{
    ms_os_20_capability_bytes, ms_os_20_descriptor_set, url_descriptor_bytes, webusb_capability_bytes,
    ConfigItem, ControlRequest, EndpointRole, FunctionalDescriptor, InReply, OutReply, Recipient, RequestType,
    MS_OS_20_SET_LEN,
};
use tilda_bridge::{ParityType, StopBits, WebUsbClass};

fn class_req(request: u8, value: u16, index: u16, length: u16) -> ControlRequest {
    ControlRequest { request_type: RequestType::Class, recipient: Recipient::Interface, request, value, index, length }
}

fn vendor_req(request: u8, index: u16) -> ControlRequest {
    ControlRequest { request_type: RequestType::Vendor, recipient: Recipient::Device, request, value: 0, index, length: 255 }
}

fn accepted(r: InReply) -> Vec<u8> {
    match r {
        InReply::Accept(d) => d,
        _ => panic!("not accepted"),
    }
}

#[test]
fn set_then_get_line_coding() {
    let mut c = WebUsbClass::new(2, 3, 64);
    let payload = [0x80, 0x25, 0x00, 0x00, 1, 2, 7];
    assert_eq!(c.control_out(&class_req(0x20, 0, 2, 7), &payload), OutReply::Accept);
    assert_eq!(c.line_coding().data_rate(), 9600);
    assert_eq!(c.line_coding().stop_bits(), StopBits::OnePointFive);
    assert_eq!(c.line_coding().parity_type(), ParityType::Even);
    assert_eq!(accepted(c.control_in(&class_req(0x21, 0, 2, 7))), payload.to_vec());
}

#[test]
fn get_line_coding_needs_length_seven() {
    let c = WebUsbClass::new(0, 1, 64);
    assert!(matches!(c.control_in(&class_req(0x21, 0, 0, 8)), InReply::Reject));
}

#[test]
fn short_set_line_coding_is_rejected() {
    let mut c = WebUsbClass::new(0, 1, 64);
    assert_eq!(c.control_out(&class_req(0x20, 0, 0, 6), &[1, 2, 3, 4, 5, 6]), OutReply::Reject);
    assert_eq!(c.line_coding().data_rate(), 8000);
}

#[test]
fn control_line_state_bits() {
    let mut c = WebUsbClass::new(0, 1, 64);
    assert_eq!(c.control_out(&class_req(0x22, 0x0001, 0, 0), &[]), OutReply::Accept);
    assert!(c.dtr() && !c.rts());
    c.control_out(&class_req(0x22, 0x0002, 0, 0), &[]);
    assert!(!c.dtr() && c.rts());
    c.control_out(&class_req(0x22, 0x0003, 0, 0), &[]);
    assert!(c.dtr() && c.rts());
    c.reset();
    assert!(!c.dtr() && !c.rts());
    assert_eq!(c.line_coding().data_rate(), 8000);
}

#[test]
fn encapsulated_command_is_accepted() {
    let mut c = WebUsbClass::new(0, 1, 64);
    assert_eq!(c.control_out(&class_req(0x00, 0, 0, 4), &[1, 2, 3, 4]), OutReply::Accept);
}

#[test]
fn unknown_class_request_is_rejected() {
    let mut c = WebUsbClass::new(0, 1, 64);
    assert_eq!(c.control_out(&class_req(0x23, 0, 0, 0), &[]), OutReply::Reject);
    assert!(matches!(c.control_in(&class_req(0x01, 0, 0, 16)), InReply::Reject));
}

#[test]
fn other_interface_is_ignored() {
    let mut c = WebUsbClass::new(0, 1, 64);
    assert!(matches!(c.control_in(&class_req(0x21, 0, 1, 7)), InReply::Ignore));
    assert_eq!(c.control_out(&class_req(0x22, 3, 1, 0), &[]), OutReply::Ignore);
    assert!(!c.dtr());
    let mut std_req = class_req(0x22, 3, 0, 0);
    std_req.request_type = RequestType::Standard;
    assert_eq!(c.control_out(&std_req, &[]), OutReply::Ignore);
}

#[test]
fn webusb_url_descriptor() {
    let c = WebUsbClass::new(0, 1, 64);
    let d = accepted(c.control_in(&vendor_req(0x42, 2)));
    let mut expected = vec![19u8, 0x03, 0x01];
    expected.extend_from_slice(b"tide.emfcamp.org");
    assert_eq!(d, expected);
    assert_eq!(url_descriptor_bytes(), expected);
    assert!(matches!(c.control_in(&vendor_req(0x42, 1)), InReply::Reject));
}

#[test]
fn ms_descriptor_set_lengths_agree() {
    let c = WebUsbClass::new(0, 1, 64);
    let set = accepted(c.control_in(&vendor_req(0x43, 7)));
    assert_eq!(set, ms_os_20_descriptor_set());
    assert_eq!(set.len(), 178);
    assert_eq!(u16::from_le_bytes([set[8], set[9]]) as usize, set.len());
    assert_eq!(MS_OS_20_SET_LEN as usize, set.len());
    let cap = ms_os_20_capability_bytes();
    assert_eq!(cap.len(), 25);
    assert_eq!(u16::from_le_bytes([cap[21], cap[22]]) as usize, set.len());
    assert_eq!(u16::from_le_bytes([set[16], set[17]]) as usize, set.len() - 10);
    assert_eq!(u16::from_le_bytes([set[24], set[25]]) as usize, set.len() - 18);
    assert_eq!(&set[30..36], b"WINUSB");
    assert_eq!(u16::from_le_bytes([set[46], set[47]]), 0x84);
    assert_eq!(&set[54..58], &[b'D', 0, b'e', 0]);
    assert_eq!(&set[set.len() - 4..], &[0, 0, 0, 0]);
    assert!(matches!(c.control_in(&vendor_req(0x43, 6)), InReply::Reject));
}

#[test]
fn webusb_capability_body() {
    let cap = webusb_capability_bytes();
    assert_eq!(cap.len(), 21);
    assert_eq!(&cap[17..], &[0x00, 0x01, 0x42, 0x01]);
}

#[test]
fn configuration_entries_in_order() {
    let c = WebUsbClass::new(4, 5, 64);
    let items = c.configuration_descriptors();
    assert_eq!(items.len(), 9);
    assert_eq!(items[0], ConfigItem::Interface { number: 4, class: 0xFF, subclass: 0, protocol: 0 });
    assert_eq!(items[3], ConfigItem::Functional(FunctionalDescriptor::Union { control: 4, subordinate: 5 }));
    assert_eq!(items[6], ConfigItem::Interface { number: 5, class: 0xFF, subclass: 1, protocol: 0 });
    assert_eq!(items[8], ConfigItem::Endpoint(EndpointRole::DataOut));
    assert_eq!(FunctionalDescriptor::Header.body(), vec![0x00, 0x10, 0x01]);
    assert_eq!(FunctionalDescriptor::CallManagement { data_interface: 5 }.body(), vec![0x01, 0x00, 5]);
}
