use vstd::prelude::*;
use vstd::string::StringSliceAdditionalSpecFns;
use crate::builder::{le16, le32, utf16le, DescriptorBuilder, lemma_ascii_utf16_len};
use crate::line_coding::{line_coding_bytes, line_coding_of, default_line_coding, LineCoding, LineCodingView};

verus! {

/// Descriptor type of a class-specific interface descriptor.
pub const CS_INTERFACE: u8 = 0x24;
/// Descriptor subtypes of the CDC functional descriptors.
pub const CDC_TYPE_HEADER: u8 = 0x00;
pub const CDC_TYPE_CALL_MANAGEMENT: u8 = 0x01;
pub const CDC_TYPE_ACM: u8 = 0x02;
pub const CDC_TYPE_UNION: u8 = 0x06;

/// Interface class code of both interfaces: vendor specific.
pub const VENDOR_SPECIFIC_CLASS: u8 = 0xFF;
/// Capability type of a platform capability descriptor in the BOS.
pub const PLATFORM_CAPABILITY: u8 = 0x05;

/// Vendor request code of the WebUSB requests, and its GET_URL index.
pub const WEBUSB_VENDOR_CODE: u8 = 0x42;
pub const WEBUSB_GET_URL: u16 = 0x02;
/// WebUSB URL descriptor type and the `https://` scheme code.
pub const WEBUSB_DESCRIPTOR_URL: u8 = 0x03;
pub const WEBUSB_SCHEME_HTTPS: u8 = 0x01;
/// Landing page, without its scheme.
pub const LANDING_URL: &'static str = "tide.emfcamp.org";

/// Vendor request code of the Microsoft OS 2.0 requests, and the index that
/// asks for the descriptor set.
pub const MS_VENDOR_CODE: u8 = 0x43;
pub const MS_GET_DESCRIPTOR_SET: u16 = 0x07;
/// Total length of the Microsoft OS 2.0 descriptor set, and of its
/// configuration and function subsets.
pub const MS_OS_20_SET_LEN: u16 = 0x00B2;
pub const MS_CONFIG_SUBSET_LEN: u16 = 0x00A8;
pub const MS_FUNCTION_SUBSET_LEN: u16 = 0x00A0;
/// Name and value of the registry property that carries the interface GUID.
pub const MS_PROPERTY_NAME: &'static str = "DeviceInterfaceGUIDs\0";
pub const MS_DEVICE_GUID: &'static str = "{f37ccce8-a70f-492a-acfb-cf2b2dab56a3}\0\0";

/// Class requests of the CDC abstract control model.
pub const REQ_SEND_ENCAPSULATED_COMMAND: u8 = 0x00;
pub const REQ_SET_LINE_CODING: u8 = 0x20;
pub const REQ_GET_LINE_CODING: u8 = 0x21;
pub const REQ_SET_CONTROL_LINE_STATE: u8 = 0x22;

/// Type field of a control request.
#[derive(Clone, Copy, Debug, PartialEq, Eq, Structural)]
pub enum RequestType {
    Standard,
    Class,
    Vendor,
    Reserved,
}

/// Recipient field of a control request.
#[derive(Clone, Copy, Debug, PartialEq, Eq, Structural)]
pub enum Recipient {
    Device,
    Interface,
    Endpoint,
    Other,
    Reserved,
}

/// The setup packet of a control transfer.
#[derive(Clone, Copy, Debug, PartialEq, Eq, Structural)]
pub struct ControlRequest {
    pub request_type: RequestType,
    pub recipient: Recipient,
    pub request: u8,
    pub value: u16,
    pub index: u16,
    pub length: u16,
}

/// How the class answers a control IN transfer.
pub enum InReply {
    /// Not for this class: left to the others.
    Ignore,
    /// Accepted, with these data bytes.
    Accept(Vec<u8>),
    /// Rejected: the transfer stalls.
    Reject,
}

/// What an `InReply` says, with its bytes as a sequence.
pub enum InReplyView {
    Ignore,
    Accept(Seq<u8>),
    Reject,
}

impl View for InReply {
    type V = InReplyView;

    open spec fn view(&self) -> InReplyView {
        match self {
            InReply::Ignore => InReplyView::Ignore,
            InReply::Accept(d) => InReplyView::Accept(d@),
            InReply::Reject => InReplyView::Reject,
        }
    }
}

/// How the class answers a control OUT transfer.
#[derive(Clone, Copy, Debug, PartialEq, Eq, Structural)]
pub enum OutReply {
    /// Not for this class: left to the others.
    Ignore,
    /// Accepted.
    Accept,
    /// Rejected: the transfer stalls.
    Reject,
}

/// A CDC functional descriptor, one of those that the comm interface carries.
#[derive(Clone, Copy, Debug, PartialEq, Eq, Structural)]
pub enum FunctionalDescriptor {
    Header,
    AbstractControl,
    Union { control: u8, subordinate: u8 },
    CallManagement { data_interface: u8 },
}

/// The endpoints that the class owns.
#[derive(Clone, Copy, Debug, PartialEq, Eq, Structural)]
pub enum EndpointRole {
    /// Interrupt IN endpoint of the comm interface.
    Notification,
    /// Bulk IN endpoint of the data interface.
    DataIn,
    /// Bulk OUT endpoint of the data interface.
    DataOut,
}

/// One entry of the configuration descriptor, in the order it is written.
#[derive(Clone, Copy, Debug, PartialEq, Eq, Structural)]
pub enum ConfigItem {
    Interface { number: u8, class: u8, subclass: u8, protocol: u8 },
    Functional(FunctionalDescriptor),
    Endpoint(EndpointRole),
}

/// Body of a functional descriptor after its length and type bytes.
pub open spec fn functional_body(f: FunctionalDescriptor) -> Seq<u8> {
    match f {
        FunctionalDescriptor::Header => seq![CDC_TYPE_HEADER, 0x10u8, 0x01u8],
        FunctionalDescriptor::AbstractControl => seq![CDC_TYPE_ACM, 0x00u8],
        FunctionalDescriptor::Union { control, subordinate } => seq![
            CDC_TYPE_UNION,
            control,
            subordinate,
        ],
        FunctionalDescriptor::CallManagement { data_interface } => seq![
            CDC_TYPE_CALL_MANAGEMENT,
            0x00u8,
            data_interface,
        ],
    }
}

impl FunctionalDescriptor {
    /// Bytes of the descriptor after its length and type (`CS_INTERFACE`).
    pub fn body(&self) -> (r: Vec<u8>)
        ensures
            r@ == functional_body(*self),
    {
        let r = match *self {
            FunctionalDescriptor::Header => vec![CDC_TYPE_HEADER, 0x10, 0x01],
            FunctionalDescriptor::AbstractControl => vec![CDC_TYPE_ACM, 0x00],
            FunctionalDescriptor::Union { control, subordinate } => vec![
                CDC_TYPE_UNION,
                control,
                subordinate,
            ],
            FunctionalDescriptor::CallManagement { data_interface } => vec![
                CDC_TYPE_CALL_MANAGEMENT,
                0x00,
                data_interface,
            ],
        };
        assert(r@ =~= functional_body(*self));
        r
    }
}

/// The configuration descriptor entries of a class whose comm and data
/// interfaces have the given numbers.
pub open spec fn config_items(comm_if: u8, data_if: u8) -> Seq<ConfigItem> {
    seq![
        ConfigItem::Interface { number: comm_if, class: VENDOR_SPECIFIC_CLASS, subclass: 0, protocol: 0 },
        ConfigItem::Functional(FunctionalDescriptor::Header),
        ConfigItem::Functional(FunctionalDescriptor::AbstractControl),
        ConfigItem::Functional(FunctionalDescriptor::Union { control: comm_if, subordinate: data_if }),
        ConfigItem::Functional(FunctionalDescriptor::CallManagement { data_interface: data_if }),
        ConfigItem::Endpoint(EndpointRole::Notification),
        ConfigItem::Interface { number: data_if, class: VENDOR_SPECIFIC_CLASS, subclass: 1, protocol: 0 },
        ConfigItem::Endpoint(EndpointRole::DataIn),
        ConfigItem::Endpoint(EndpointRole::DataOut),
    ]
}

/// Body of the WebUSB platform capability: reserved byte, platform UUID,
/// version 1.0, vendor request code, landing page index.
pub open spec fn webusb_capability() -> Seq<u8> {
    seq![
        0x00u8,
        0x38u8, 0xB6u8, 0x08u8, 0x34u8, 0xA9u8, 0x09u8, 0xA0u8, 0x47u8,
        0x8Bu8, 0xFDu8, 0xA0u8, 0x76u8, 0x88u8, 0x15u8, 0xB6u8, 0x65u8,
        0x00u8, 0x01u8,
        WEBUSB_VENDOR_CODE,
        0x01u8,
    ]
}

/// Body of the Microsoft OS 2.0 platform capability: reserved byte,
/// platform UUID, Windows version, descriptor set length, vendor request
/// code, alternate enumeration code.
pub open spec fn ms_os_20_capability() -> Seq<u8> {
    seq![0x00u8,
        0xDFu8, 0x60u8, 0xDDu8, 0xD8u8, 0x89u8, 0x45u8, 0xC7u8, 0x4Cu8,
        0x9Cu8, 0xD2u8, 0x65u8, 0x9Du8, 0x9Eu8, 0x64u8, 0x8Au8, 0x9Fu8]
        + le32(0x0603_0000) + le16(MS_OS_20_SET_LEN) + seq![MS_VENDOR_CODE, 0x00u8]
}

/// The WebUSB URL descriptor: length, type, scheme, then the URL's bytes.
pub open spec fn url_descriptor() -> Seq<u8> {
    seq![(LANDING_URL.spec_bytes().len() + 3) as u8, WEBUSB_DESCRIPTOR_URL, WEBUSB_SCHEME_HTTPS]
        + LANDING_URL.spec_bytes()
}

/// The Microsoft OS 2.0 descriptor set: set header, configuration subset
/// header, function subset header for the data interface, compatible ID
/// `WINUSB`, and the registry property with the interface GUID.
pub open spec fn ms_os_20_set() -> Seq<u8> {
    seq![]
        + le16(0x000A) + le16(0x0000) + le32(0x0603_0000) + le16(MS_OS_20_SET_LEN)
        + le16(0x0008) + le16(0x0001) + seq![0x00u8, 0x00u8] + le16(MS_CONFIG_SUBSET_LEN)
        + le16(0x0008) + le16(0x0002) + seq![0x02u8, 0x00u8] + le16(MS_FUNCTION_SUBSET_LEN)
        + le16(0x0014) + le16(0x0003) + "WINUSB\0\0".spec_bytes()
        + "\0\0\0\0\0\0\0\0".spec_bytes()
        + le16(0x0084) + le16(0x0004) + le16(0x0007) + le16(0x002A)
        + utf16le(MS_PROPERTY_NAME@) + le16(0x0050) + utf16le(MS_DEVICE_GUID@)
}

/// A class request to the given interface.
pub open spec fn addressed_to(req: ControlRequest, comm_if: u8) -> bool {
    req.request_type == RequestType::Class && req.recipient == Recipient::Interface
        && req.index == comm_if as u16
}

/// The control IN transfers that the class answers: those addressed to its
/// comm interface, and those with one of its two vendor request codes.
pub open spec fn claims_in(req: ControlRequest, comm_if: u8) -> bool {
    addressed_to(req, comm_if) || req.request == WEBUSB_VENDOR_CODE || req.request
        == MS_VENDOR_CODE
}

/// The answer to a control IN transfer, given the comm interface and the
/// current line coding.
pub open spec fn in_reply(req: ControlRequest, comm_if: u8, lc: LineCodingView) -> InReplyView {
    if !claims_in(req, comm_if) {
        InReplyView::Ignore
    } else if req.request == REQ_GET_LINE_CODING && req.length == 7 {
        InReplyView::Accept(line_coding_bytes(lc))
    } else if req.request == WEBUSB_VENDOR_CODE && req.index == WEBUSB_GET_URL {
        InReplyView::Accept(url_descriptor())
    } else if req.request == MS_VENDOR_CODE && req.index == MS_GET_DESCRIPTOR_SET {
        InReplyView::Accept(ms_os_20_set())
    } else {
        InReplyView::Reject
    }
}

/// DTR is bit 0 of a SET_CONTROL_LINE_STATE value.
pub open spec fn dtr_of(value: u16) -> bool {
    value % 2 == 1
}

/// RTS is bit 1 of a SET_CONTROL_LINE_STATE value.
pub open spec fn rts_of(value: u16) -> bool {
    (value / 2) % 2 == 1
}

/// What a `WebUsbClass` holds.
pub struct WebUsbClassView {
    pub comm_if: u8,
    pub data_if: u8,
    pub max_packet_size: u16,
    pub line_coding: LineCodingView,
    pub dtr: bool,
    pub rts: bool,
}

/// The answer to a control OUT transfer with the given data stage.
pub open spec fn out_reply(req: ControlRequest, comm_if: u8, data: Seq<u8>) -> OutReply {
    if !addressed_to(req, comm_if) {
        OutReply::Ignore
    } else if req.request == REQ_SEND_ENCAPSULATED_COMMAND {
        OutReply::Accept
    } else if req.request == REQ_SET_LINE_CODING && data.len() >= 7 {
        OutReply::Accept
    } else if req.request == REQ_SET_CONTROL_LINE_STATE {
        OutReply::Accept
    } else {
        OutReply::Reject
    }
}

/// The class state after a control OUT transfer.
pub open spec fn after_out(s: WebUsbClassView, req: ControlRequest, data: Seq<u8>) -> WebUsbClassView {
    if !addressed_to(req, s.comm_if) {
        s
    } else if req.request == REQ_SET_LINE_CODING && data.len() >= 7 {
        WebUsbClassView { line_coding: line_coding_of(data), ..s }
    } else if req.request == REQ_SET_CONTROL_LINE_STATE {
        WebUsbClassView { dtr: dtr_of(req.value), rts: rts_of(req.value), ..s }
    } else {
        s
    }
}

/// The vendor-specific USB class with a comm interface and a bulk data
/// interface, speaking CDC-ACM control requests, WebUSB and Microsoft OS 2.0.
/// It holds the numbers that the USB stack allocated to it and the state
/// that the host sets.
pub struct WebUsbClass {
    comm_if: u8,
    data_if: u8,
    max_packet_size: u16,
    line_coding: LineCoding,
    dtr: bool,
    rts: bool,
}

impl View for WebUsbClass {
    type V = WebUsbClassView;

    closed spec fn view(&self) -> WebUsbClassView {
        WebUsbClassView {
            comm_if: self.comm_if,
            data_if: self.data_if,
            max_packet_size: self.max_packet_size,
            line_coding: self.line_coding@,
            dtr: self.dtr,
            rts: self.rts,
        }
    }
}

impl WebUsbClass {
    /// A class with the given interface numbers and bulk packet size, with
    /// the default line coding and both control lines clear.
    pub fn new(comm_if: u8, data_if: u8, max_packet_size: u16) -> (r: WebUsbClass)
        ensures
            r@ == (WebUsbClassView {
                comm_if,
                data_if,
                max_packet_size,
                line_coding: default_line_coding(),
                dtr: false,
                rts: false,
            }),
    {
        WebUsbClass {
            comm_if,
            data_if,
            max_packet_size,
            line_coding: LineCoding::default(),
            dtr: false,
            rts: false,
        }
    }

    /// Gets the maximum packet size in bytes of the bulk endpoints.
    pub fn max_packet_size(&self) -> (r: u16)
        ensures
            r == self@.max_packet_size,
    {
        self.max_packet_size
    }

    /// Gets the number of the comm interface.
    pub fn comm_interface(&self) -> (r: u8)
        ensures
            r == self@.comm_if,
    {
        self.comm_if
    }

    /// Gets the number of the data interface.
    pub fn data_interface(&self) -> (r: u8)
        ensures
            r == self@.data_if,
    {
        self.data_if
    }

    /// Gets the current line coding.
    pub fn line_coding(&self) -> (r: &LineCoding)
        ensures
            r@ == self@.line_coding,
    {
        &self.line_coding
    }

    /// Gets the DTR (data terminal ready) state.
    pub fn dtr(&self) -> (r: bool)
        ensures
            r == self@.dtr,
    {
        self.dtr
    }

    /// Gets the RTS (request to send) state.
    pub fn rts(&self) -> (r: bool)
        ensures
            r == self@.rts,
    {
        self.rts
    }

    /// Bus reset: the line coding goes back to its default and both control
    /// lines clear; the interface numbers stay.
    pub fn reset(&mut self)
        ensures
            final(self)@ == (WebUsbClassView {
                line_coding: default_line_coding(),
                dtr: false,
                rts: false,
                ..old(self)@
            }),
    {
        self.line_coding = LineCoding::default();
        self.dtr = false;
        self.rts = false;
    }

    /// The entries of the configuration descriptor, in order.
    pub fn configuration_descriptors(&self) -> (r: Vec<ConfigItem>)
        ensures
            r@ == config_items(self@.comm_if, self@.data_if),
    {
        let r = vec![
            ConfigItem::Interface { number: self.comm_if, class: VENDOR_SPECIFIC_CLASS, subclass: 0, protocol: 0 },
            ConfigItem::Functional(FunctionalDescriptor::Header),
            ConfigItem::Functional(FunctionalDescriptor::AbstractControl),
            ConfigItem::Functional(FunctionalDescriptor::Union { control: self.comm_if, subordinate: self.data_if }),
            ConfigItem::Functional(FunctionalDescriptor::CallManagement { data_interface: self.data_if }),
            ConfigItem::Endpoint(EndpointRole::Notification),
            ConfigItem::Interface { number: self.data_if, class: VENDOR_SPECIFIC_CLASS, subclass: 1, protocol: 0 },
            ConfigItem::Endpoint(EndpointRole::DataIn),
            ConfigItem::Endpoint(EndpointRole::DataOut),
        ];
        assert(r@ =~= config_items(self@.comm_if, self@.data_if));
        r
    }

    /// Answers a control IN transfer.
    pub fn control_in(&self, req: &ControlRequest) -> (r: InReply)
        ensures
            r@ == in_reply(*req, self@.comm_if, self@.line_coding),
    {
        let addressed = req.request_type == RequestType::Class && req.recipient
            == Recipient::Interface && req.index == self.comm_if as u16;
        if !addressed && req.request != WEBUSB_VENDOR_CODE && req.request != MS_VENDOR_CODE {
            InReply::Ignore
        } else if req.request == REQ_GET_LINE_CODING && req.length == 7 {
            InReply::Accept(self.line_coding.to_bytes())
        } else if req.request == WEBUSB_VENDOR_CODE && req.index == WEBUSB_GET_URL {
            InReply::Accept(url_descriptor_bytes())
        } else if req.request == MS_VENDOR_CODE && req.index == MS_GET_DESCRIPTOR_SET {
            InReply::Accept(ms_os_20_descriptor_set())
        } else {
            InReply::Reject
        }
    }

    /// Answers a control OUT transfer whose data stage holds `data`, and
    /// takes the line coding or the control line state that it sets.
    pub fn control_out(&mut self, req: &ControlRequest, data: &[u8]) -> (r: OutReply)
        ensures
            r == out_reply(*req, old(self)@.comm_if, data@),
            final(self)@ == after_out(old(self)@, *req, data@),
    {
        let addressed = req.request_type == RequestType::Class && req.recipient
            == Recipient::Interface && req.index == self.comm_if as u16;
        if !addressed {
            return OutReply::Ignore;
        }
        if req.request == REQ_SEND_ENCAPSULATED_COMMAND {
            OutReply::Accept
        } else if req.request == REQ_SET_LINE_CODING && data.len() >= 7 {
            match LineCoding::from_bytes(data) {
                Some(lc) => {
                    self.line_coding = lc;
                    OutReply::Accept
                },
                None => OutReply::Reject,
            }
        } else if req.request == REQ_SET_CONTROL_LINE_STATE {
            self.dtr = req.value % 2 == 1;
            self.rts = (req.value / 2) % 2 == 1;
            OutReply::Accept
        } else {
            OutReply::Reject
        }
    }
}

/// Body of the WebUSB platform capability descriptor.
pub fn webusb_capability_bytes() -> (r: Vec<u8>)
    ensures
        r@ == webusb_capability(),
{
    let r = vec![
        0x00,
        0x38, 0xB6, 0x08, 0x34, 0xA9, 0x09, 0xA0, 0x47,
        0x8B, 0xFD, 0xA0, 0x76, 0x88, 0x15, 0xB6, 0x65,
        0x00, 0x01,
        WEBUSB_VENDOR_CODE,
        0x01,
    ];
    assert(r@ =~= webusb_capability());
    r
}

/// Body of the Microsoft OS 2.0 platform capability descriptor.
pub fn ms_os_20_capability_bytes() -> (r: Vec<u8>)
    ensures
        r@ == ms_os_20_capability(),
{
    let r = vec![
        0x00,
        0xDF, 0x60, 0xDD, 0xD8, 0x89, 0x45, 0xC7, 0x4C,
        0x9C, 0xD2, 0x65, 0x9D, 0x9E, 0x64, 0x8A, 0x9F,
        0x00, 0x00, 0x03, 0x06,
        (MS_OS_20_SET_LEN % 256) as u8,
        (MS_OS_20_SET_LEN / 256) as u8,
        MS_VENDOR_CODE,
        0x00,
    ];
    assert(r@ =~= ms_os_20_capability());
    r
}

/// The WebUSB URL descriptor of the landing page.
pub fn url_descriptor_bytes() -> (r: Vec<u8>)
    ensures
        r@ == url_descriptor(),
{
    let url = LANDING_URL.as_bytes();
    proof {
        reveal_strlit("tide.emfcamp.org");
        vstd::string::is_ascii_spec_bytes(LANDING_URL);
    }
    let mut r: Vec<u8> = Vec::new();
    r.push((url.len() + 3) as u8);
    r.push(WEBUSB_DESCRIPTOR_URL);
    r.push(WEBUSB_SCHEME_HTTPS);
    let mut i: usize = 0;
    while i < url.len()
        invariant
            i <= url@.len(),
            url@ == LANDING_URL.spec_bytes(),
            r@ == seq![(url@.len() + 3) as u8, WEBUSB_DESCRIPTOR_URL, WEBUSB_SCHEME_HTTPS]
                + url@.take(i as int),
        decreases url@.len() - i,
    {
        r.push(url[i]);
        i += 1;
        assert(r@ =~= seq![(url@.len() + 3) as u8, WEBUSB_DESCRIPTOR_URL, WEBUSB_SCHEME_HTTPS]
            + url@.take(i as int));
    }
    assert(url@.take(url@.len() as int) =~= url@);
    r
}

/// The Microsoft OS 2.0 descriptor set, assembled in a fixed 180-byte region.
pub fn ms_os_20_descriptor_set() -> (r: Vec<u8>)
    ensures
        r@ == ms_os_20_set(),
{
    proof {
        reveal_strlit("WINUSB\0\0");
        reveal_strlit("\0\0\0\0\0\0\0\0");
        reveal_strlit("DeviceInterfaceGUIDs\0");
        reveal_strlit("{f37ccce8-a70f-492a-acfb-cf2b2dab56a3}\0\0");
        vstd::string::is_ascii_spec_bytes("WINUSB\0\0");
        vstd::string::is_ascii_spec_bytes("\0\0\0\0\0\0\0\0");
        assert(vstd::utf8::is_ascii_chars(MS_PROPERTY_NAME@));
        assert(vstd::utf8::is_ascii_chars(MS_DEVICE_GUID@));
        lemma_ascii_utf16_len(MS_PROPERTY_NAME@);
        lemma_ascii_utf16_len(MS_DEVICE_GUID@);
    }
    let mut db = DescriptorBuilder::new(vec![0u8; 180]);
    // Set header.
    db.write_u16(0x000A);
    db.write_u16(0x0000);
    db.write_u32(0x0603_0000);
    db.write_u16(MS_OS_20_SET_LEN);
    // Configuration subset header.
    db.write_u16(0x0008);
    db.write_u16(0x0001);
    db.write(&[0x00, 0x00]);
    db.write_u16(MS_CONFIG_SUBSET_LEN);
    // Function subset header, for the data interface.
    db.write_u16(0x0008);
    db.write_u16(0x0002);
    db.write(&[0x02, 0x00]);
    db.write_u16(MS_FUNCTION_SUBSET_LEN);
    // Compatible ID descriptor.
    db.write_u16(0x0014);
    db.write_u16(0x0003);
    db.write("WINUSB\0\0".as_bytes());
    db.write("\0\0\0\0\0\0\0\0".as_bytes());
    // Registry property descriptor.
    db.write_u16(0x0084);
    db.write_u16(0x0004);
    db.write_u16(0x0007);
    db.write_u16(0x002A);
    db.write_utf16(MS_PROPERTY_NAME);
    db.write_u16(0x0050);
    db.write_utf16(MS_DEVICE_GUID);
    vstd::slice::slice_to_vec(db.buf())
}

/// The Microsoft OS 2.0 descriptor set is exactly as long as the total
/// length in its header, which is also the length that the BOS platform
/// capability announces; the configuration subset counts every byte after
/// the set header, the function subset every byte after the configuration
/// subset header, and the registry property's name and data lengths are
/// those of the UTF-16 strings written.
pub proof fn lemma_ms_os_20_lengths()
    ensures
        ms_os_20_set().len() == MS_OS_20_SET_LEN,
        ms_os_20_set().subrange(8, 10) == le16(MS_OS_20_SET_LEN),
        ms_os_20_capability().subrange(21, 23) == le16(MS_OS_20_SET_LEN),
        ms_os_20_set().len() - 10 == MS_CONFIG_SUBSET_LEN,
        ms_os_20_set().len() - 18 == MS_FUNCTION_SUBSET_LEN,
        utf16le(MS_PROPERTY_NAME@).len() == 0x2A,
        utf16le(MS_DEVICE_GUID@).len() == 0x50,
{
    reveal_strlit("WINUSB\0\0");
    reveal_strlit("\0\0\0\0\0\0\0\0");
    reveal_strlit("DeviceInterfaceGUIDs\0");
    reveal_strlit("{f37ccce8-a70f-492a-acfb-cf2b2dab56a3}\0\0");
    vstd::string::is_ascii_spec_bytes("WINUSB\0\0");
    vstd::string::is_ascii_spec_bytes("\0\0\0\0\0\0\0\0");
    assert(vstd::utf8::is_ascii_chars(MS_PROPERTY_NAME@));
    assert(vstd::utf8::is_ascii_chars(MS_DEVICE_GUID@));
    lemma_ascii_utf16_len(MS_PROPERTY_NAME@);
    lemma_ascii_utf16_len(MS_DEVICE_GUID@);
    assert(ms_os_20_set().subrange(8, 10) =~= le16(MS_OS_20_SET_LEN));
    assert(ms_os_20_capability().subrange(21, 23) =~= le16(MS_OS_20_SET_LEN));
}

/// A class request to an interface other than the comm interface is left
/// to the other classes, in both directions, and changes nothing, unless
/// its request code is one of the two vendor codes, which the class answers
/// on any recipient.
pub proof fn lemma_other_interface_ignored(s: WebUsbClassView, req: ControlRequest, data: Seq<u8>)
    requires
        req.request_type == RequestType::Class,
        req.recipient == Recipient::Interface,
        req.index != s.comm_if as u16,
        req.request != WEBUSB_VENDOR_CODE,
        req.request != MS_VENDOR_CODE,
    ensures
        in_reply(req, s.comm_if, s.line_coding) == InReplyView::Ignore,
        out_reply(req, s.comm_if, data) == OutReply::Ignore,
        after_out(s, req, data) == s,
{
}

/// Line coding round trip through the class: after an accepted
/// SET_LINE_CODING whose stop-bits and parity codes are in range, a
/// GET_LINE_CODING answers the same seven bytes.
pub proof fn lemma_set_then_get_line_coding(
    s: WebUsbClassView,
    set: ControlRequest,
    data: Seq<u8>,
    get: ControlRequest,
)
    requires
        addressed_to(set, s.comm_if),
        set.request == REQ_SET_LINE_CODING,
        data.len() >= 7,
        data[4] <= 2,
        data[5] <= 4,
        addressed_to(get, s.comm_if),
        get.request == REQ_GET_LINE_CODING,
        get.length == 7,
    ensures
        out_reply(set, s.comm_if, data) == OutReply::Accept,
        in_reply(get, after_out(s, set, data).comm_if, after_out(s, set, data).line_coding)
            == InReplyView::Accept(data.take(7)),
{
    crate::line_coding::lemma_line_coding_round_trip(data);
}

} // verus!
