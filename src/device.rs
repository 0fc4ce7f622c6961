use vstd::prelude::*;
use crate::class::{
    after_out, in_reply, out_reply, ConfigItem, ControlRequest, InReply, OutReply, WebUsbClass,
    WebUsbClassView, config_items,
};
use crate::line_coding::{default_line_coding, LineCoding};
use crate::packet::{
    accepted_len, after_sent, after_write, next_packet, writer_wf, PacketReader, PacketWriter,
    ReaderView, WriterView,
};

verus! {

/// Bytes that each direction can hold.
pub const BUFFER_CAPACITY: usize = 128;

/// Largest bulk packet size of a full-speed device.
pub const MAX_FULL_SPEED_PACKET: u16 = 64;

/// What a `WebUSB` holds.
pub struct WebUsbView {
    pub class: WebUsbClassView,
    pub writer: WriterView,
    pub reader: ReaderView,
}

/// Well-formed: the writer is, and both queues are as large as the class's
/// packets allow.
pub open spec fn web_usb_wf(v: WebUsbView) -> bool {
    writer_wf(v.writer) && v.writer.max_packet == v.class.max_packet_size && v.reader.capacity
        == BUFFER_CAPACITY
}

/// The WebUSB class with a queue in each direction: a serial-port-like
/// stream over its packet endpoints. Sending and receiving packets is left
/// to the caller, which asks `next_packet` what to send and hands over what
/// arrives.
pub struct WebUSB {
    class: WebUsbClass,
    writer: PacketWriter,
    reader: PacketReader,
}

impl View for WebUSB {
    type V = WebUsbView;

    closed spec fn view(&self) -> WebUsbView {
        WebUsbView { class: self.class@, writer: self.writer@, reader: self.reader@ }
    }
}

impl WebUSB {
    /// Well-formed: its view is, and both queues are consistent inside.
    pub closed spec fn wf(&self) -> bool {
        web_usb_wf(self@) && self.writer.inv() && self.reader.inv()
    }

    /// A device on the given interface numbers and bulk packet size, with
    /// empty queues, the default line coding and both control lines clear.
    pub fn new(comm_if: u8, data_if: u8, max_packet_size: u16) -> (r: WebUSB)
        requires
            0 < max_packet_size <= MAX_FULL_SPEED_PACKET,
        ensures
            r.wf(),
            r@.class == (WebUsbClassView {
                comm_if,
                data_if,
                max_packet_size,
                line_coding: default_line_coding(),
                dtr: false,
                rts: false,
            }),
            r@.writer.pending.len() == 0,
            !r@.writer.zlp_due,
            r@.writer.capacity == BUFFER_CAPACITY,
            r@.reader.pending.len() == 0,
    {
        WebUSB {
            class: WebUsbClass::new(comm_if, data_if, max_packet_size),
            writer: PacketWriter::new(BUFFER_CAPACITY, max_packet_size as usize),
            reader: PacketReader::new(BUFFER_CAPACITY),
        }
    }

    /// Gets the DTR state that the host set.
    pub fn dtr(&self) -> (r: bool)
        ensures
            r == self@.class.dtr,
    {
        self.class.dtr()
    }

    /// Gets the RTS state that the host set.
    pub fn rts(&self) -> (r: bool)
        ensures
            r == self@.class.rts,
    {
        self.class.rts()
    }

    /// Gets the current line coding.
    pub fn line_coding(&self) -> (r: &LineCoding)
        ensures
            r@ == self@.class.line_coding,
    {
        self.class.line_coding()
    }

    /// Gets the bulk packet size.
    pub fn max_packet_size(&self) -> (r: u16)
        ensures
            r == self@.class.max_packet_size,
    {
        self.class.max_packet_size()
    }

    /// Queues as many bytes of `data` as fit and returns how many.
    pub fn write(&mut self, data: &[u8]) -> (r: usize)
        requires
            old(self).wf(),
        ensures
            final(self).wf(),
            r == accepted_len(old(self)@.writer, data@),
            final(self)@ == (WebUsbView {
                writer: after_write(old(self)@.writer, data@),
                ..old(self)@
            }),
    {
        self.writer.write(data)
    }

    /// The packet to send on the bulk IN endpoint next, if any.
    pub fn next_packet(&self) -> (r: Option<Vec<u8>>)
        requires
            self.wf(),
        ensures
            r is None <==> next_packet(self@.writer) is None,
            r matches Some(p) ==> next_packet(self@.writer) == Some(p@),
    {
        self.writer.next_packet()
    }

    /// Records that the endpoint took the packet that `next_packet` gave.
    pub fn packet_sent(&mut self)
        requires
            old(self).wf(),
            next_packet(old(self)@.writer) is Some,
        ensures
            final(self).wf(),
            final(self)@ == (WebUsbView { writer: after_sent(old(self)@.writer), ..old(self)@ }),
    {
        self.writer.packet_sent()
    }

    /// Whether a packet should be fetched from the bulk OUT endpoint: only
    /// once everything received before has been read.
    pub fn wants_packet(&self) -> (r: bool)
        requires
            self.wf(),
        ensures
            r == (self@.reader.pending.len() == 0),
    {
        self.reader.pending_len() == 0
    }

    /// Queues a packet received on the bulk OUT endpoint.
    pub fn packet_received(&mut self, data: &[u8])
        requires
            old(self).wf(),
            old(self)@.reader.pending.len() + data@.len() <= BUFFER_CAPACITY,
        ensures
            final(self).wf(),
            final(self)@ == (WebUsbView {
                reader: ReaderView { pending: old(self)@.reader.pending + data@, ..old(self)@.reader },
                ..old(self)@
            }),
    {
        self.reader.packet_received(data)
    }

    /// Takes up to `max` received bytes, oldest first.
    pub fn read(&mut self, max: usize) -> (r: Vec<u8>)
        requires
            old(self).wf(),
        ensures
            final(self).wf(),
            r@.len() == if max <= old(self)@.reader.pending.len() {
                max as nat
            } else {
                old(self)@.reader.pending.len()
            },
            r@ == old(self)@.reader.pending.take(r@.len() as int),
            final(self)@ == (WebUsbView {
                reader: ReaderView {
                    pending: old(self)@.reader.pending.skip(r@.len() as int),
                    ..old(self)@.reader
                },
                ..old(self)@
            }),
    {
        self.reader.read(max)
    }

    /// The entries of the configuration descriptor, in order.
    pub fn configuration_descriptors(&self) -> (r: Vec<ConfigItem>)
        ensures
            r@ == config_items(self@.class.comm_if, self@.class.data_if),
    {
        self.class.configuration_descriptors()
    }

    /// Answers a control IN transfer.
    pub fn control_in(&self, req: &ControlRequest) -> (r: InReply)
        ensures
            r@ == in_reply(*req, self@.class.comm_if, self@.class.line_coding),
    {
        self.class.control_in(req)
    }

    /// Answers a control OUT transfer and takes what it sets.
    pub fn control_out(&mut self, req: &ControlRequest, data: &[u8]) -> (r: OutReply)
        requires
            old(self).wf(),
        ensures
            final(self).wf(),
            r == out_reply(*req, old(self)@.class.comm_if, data@),
            final(self)@ == (WebUsbView {
                class: after_out(old(self)@.class, *req, data@),
                ..old(self)@
            }),
    {
        self.class.control_out(req, data)
    }

    /// Bus reset: the class state goes back to its defaults.
    pub fn reset(&mut self)
        requires
            old(self).wf(),
        ensures
            final(self).wf(),
            final(self)@ == (WebUsbView {
                class: WebUsbClassView {
                    line_coding: default_line_coding(),
                    dtr: false,
                    rts: false,
                    ..old(self)@.class
                },
                ..old(self)@
            }),
    {
        self.class.reset()
    }
}

} // verus!
