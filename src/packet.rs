use vstd::prelude::*;

verus! {

/// What a `PacketWriter` holds.
pub struct WriterView {
    /// Bytes accepted and not yet sent.
    pub pending: Seq<u8>,
    /// Most bytes that may wait at once.
    pub capacity: nat,
    /// Maximum packet size of the endpoint.
    pub max_packet: nat,
    /// The last packet sent was full and emptied the queue: a zero-length
    /// packet must go out before anything else.
    pub zlp_due: bool,
}

/// Well-formed writer state: a packet size of at least one byte, room for
/// at least one full packet, and the queue within its capacity.
pub open spec fn writer_wf(v: WriterView) -> bool {
    0 < v.max_packet <= v.capacity && v.pending.len() <= v.capacity
}

pub open spec fn min_nat(a: nat, b: nat) -> nat {
    if a <= b {
        a
    } else {
        b
    }
}

/// How many bytes of `data` a write takes: as many as there is room for.
pub open spec fn accepted_len(v: WriterView, data: Seq<u8>) -> nat {
    min_nat(data.len(), (v.capacity - v.pending.len()) as nat)
}

/// The writer after a write of `data`.
pub open spec fn after_write(v: WriterView, data: Seq<u8>) -> WriterView {
    WriterView { pending: v.pending + data.take(accepted_len(v, data) as int), ..v }
}

/// Size of the next data packet: a full packet, or what is left.
pub open spec fn packet_len(v: WriterView) -> nat {
    min_nat(v.pending.len(), v.max_packet)
}

/// The packet to send next, if any: a due zero-length packet comes first,
/// then the queued bytes, at most one full packet at a time.
pub open spec fn next_packet(v: WriterView) -> Option<Seq<u8>> {
    if v.zlp_due {
        Some(Seq::<u8>::empty())
    } else if v.pending.len() == 0 {
        None
    } else {
        Some(v.pending.take(packet_len(v) as int))
    }
}

/// The writer once the endpoint has taken the packet `next_packet` gave.
pub open spec fn after_sent(v: WriterView) -> WriterView {
    if v.zlp_due {
        WriterView { zlp_due: false, ..v }
    } else {
        let n = packet_len(v);
        WriterView {
            pending: v.pending.skip(n as int),
            zlp_due: n == v.max_packet && n == v.pending.len(),
            ..v
        }
    }
}

/// The writer after `k` packets have gone out.
pub open spec fn after_sent_n(v: WriterView, k: nat) -> WriterView
    decreases k,
{
    if k == 0 {
        v
    } else {
        after_sent(after_sent_n(v, (k - 1) as nat))
    }
}

/// Outbound side of a bulk endpoint: a fixed byte region, allocated once,
/// whose first `len` bytes wait to go out in packets; a run of full packets
/// ends with a zero-length packet.
pub struct PacketWriter {
    buf: Vec<u8>,
    len: usize,
    max_packet: usize,
    zlp_due: bool,
}

impl View for PacketWriter {
    type V = WriterView;

    closed spec fn view(&self) -> WriterView {
        WriterView {
            pending: self.buf@.take(self.len as int),
            capacity: self.buf@.len(),
            max_packet: self.max_packet as nat,
            zlp_due: self.zlp_due,
        }
    }
}

impl PacketWriter {
    /// Internal consistency: the fill count stays within the region.
    pub closed spec fn inv(&self) -> bool {
        self.len <= self.buf@.len()
    }

    /// An empty writer for packets of `max_packet` bytes that holds up to
    /// `capacity` bytes.
    pub fn new(capacity: usize, max_packet: usize) -> (r: PacketWriter)
        requires
            0 < max_packet <= capacity,
        ensures
            r.inv(),
            writer_wf(r@),
            r@ == (WriterView {
                pending: Seq::<u8>::empty(),
                capacity: capacity as nat,
                max_packet: max_packet as nat,
                zlp_due: false,
            }),
    {
        let r = PacketWriter { buf: vec![0u8; capacity], len: 0, max_packet, zlp_due: false };
        assert(r@.pending =~= Seq::<u8>::empty());
        r
    }

    /// Number of bytes waiting to be sent.
    pub fn pending_len(&self) -> (r: usize)
        requires
            self.inv(),
        ensures
            r == self@.pending.len(),
    {
        self.len
    }

    /// Queues as many bytes of `data` as there is room for and returns how
    /// many; 0 for a non-empty `data` means the caller should try later.
    pub fn write(&mut self, data: &[u8]) -> (r: usize)
        requires
            old(self).inv(),
            writer_wf(old(self)@),
        ensures
            final(self).inv(),
            writer_wf(final(self)@),
            r == accepted_len(old(self)@, data@),
            final(self)@ == after_write(old(self)@, data@),
    {
        let cap = self.buf.len();
        let start = self.len;
        let room = cap - start;
        let n = if data.len() <= room {
            data.len()
        } else {
            room
        };
        let mut i: usize = 0;
        while i < n
            invariant
                i <= n,
                n <= data@.len(),
                start + n <= cap,
                cap == self.buf@.len(),
                self.len == start,
                self.max_packet == old(self).max_packet,
                self.zlp_due == old(self).zlp_due,
                self.buf@.take(start as int) == old(self)@.pending,
                self.buf@.subrange(start as int, start + i) == data@.take(i as int),
            decreases n - i,
        {
            self.buf[start + i] = data[i];
            i += 1;
            assert(self.buf@.take(start as int) =~= old(self)@.pending);
            assert(self.buf@.subrange(start as int, start + i) =~= data@.take(i as int));
        }
        self.len = start + n;
        assert(self.buf@.take(self.len as int) =~= old(self)@.pending + data@.take(n as int)) by {
            assert(self.buf@.take(self.len as int) =~= self.buf@.take(start as int)
                + self.buf@.subrange(start as int, start + n));
        }
        n
    }

    /// The packet to send next, if any.
    pub fn next_packet(&self) -> (r: Option<Vec<u8>>)
        requires
            self.inv(),
            writer_wf(self@),
        ensures
            r is None <==> next_packet(self@) is None,
            r matches Some(p) ==> next_packet(self@) == Some(p@),
    {
        if self.zlp_due {
            return Some(Vec::new());
        }
        if self.len == 0 {
            return None;
        }
        let n = if self.len <= self.max_packet {
            self.len
        } else {
            self.max_packet
        };
        let mut p: Vec<u8> = Vec::new();
        let mut i: usize = 0;
        while i < n
            invariant
                i <= n,
                n <= self.len <= self.buf@.len(),
                p@ == self.buf@.take(i as int),
            decreases n - i,
        {
            p.push(self.buf[i]);
            i += 1;
            assert(p@ =~= self.buf@.take(i as int));
        }
        assert(p@ =~= self@.pending.take(n as int));
        Some(p)
    }

    /// Records that the endpoint took the packet that `next_packet` gave.
    pub fn packet_sent(&mut self)
        requires
            old(self).inv(),
            writer_wf(old(self)@),
            next_packet(old(self)@) is Some,
        ensures
            final(self).inv(),
            writer_wf(final(self)@),
            final(self)@ == after_sent(old(self)@),
    {
        if self.zlp_due {
            self.zlp_due = false;
            return;
        }
        let len = self.len;
        let n = if len <= self.max_packet {
            len
        } else {
            self.max_packet
        };
        let mut i: usize = n;
        while i < len
            invariant
                n <= i <= len,
                len == old(self).len,
                self.len == len,
                len <= self.buf@.len(),
                self.buf@.len() == old(self).buf@.len(),
                self.max_packet == old(self).max_packet,
                self.zlp_due == old(self).zlp_due,
                forall|j: int| 0 <= j < i - n ==> #[trigger] self.buf@[j] == old(self).buf@[j + n],
                forall|j: int| i <= j < len ==> #[trigger] self.buf@[j] == old(self).buf@[j],
            decreases len - i,
        {
            let b = self.buf[i];
            self.buf[i - n] = b;
            i += 1;
        }
        self.zlp_due = n == self.max_packet && n == len;
        self.len = len - n;
        assert(self@.pending =~= old(self)@.pending.skip(n as int));
    }
}

/// What a `PacketReader` holds.
pub struct ReaderView {
    /// Bytes received and not yet read.
    pub pending: Seq<u8>,
    /// Most bytes that may wait at once.
    pub capacity: nat,
}

/// Inbound side of a bulk endpoint: a fixed byte region, allocated once,
/// whose first `len` bytes are received and wait to be read.
pub struct PacketReader {
    buf: Vec<u8>,
    len: usize,
}

impl View for PacketReader {
    type V = ReaderView;

    closed spec fn view(&self) -> ReaderView {
        ReaderView { pending: self.buf@.take(self.len as int), capacity: self.buf@.len() }
    }
}

impl PacketReader {
    /// Internal consistency: the fill count stays within the region.
    pub closed spec fn inv(&self) -> bool {
        self.len <= self.buf@.len()
    }

    /// An empty reader that holds up to `capacity` bytes.
    pub fn new(capacity: usize) -> (r: PacketReader)
        ensures
            r.inv(),
            r@ == (ReaderView { pending: Seq::<u8>::empty(), capacity: capacity as nat }),
    {
        let r = PacketReader { buf: vec![0u8; capacity], len: 0 };
        assert(r@.pending =~= Seq::<u8>::empty());
        r
    }

    /// Number of bytes waiting to be read.
    pub fn pending_len(&self) -> (r: usize)
        requires
            self.inv(),
        ensures
            r == self@.pending.len(),
    {
        self.len
    }

    /// Whether a packet of `len` bytes fits beside what waits.
    pub fn has_room(&self, len: usize) -> (r: bool)
        requires
            self.inv(),
        ensures
            r == (self@.pending.len() + len <= self@.capacity),
    {
        len <= self.buf.len() - self.len
    }

    /// Queues a received packet.
    pub fn packet_received(&mut self, data: &[u8])
        requires
            old(self).inv(),
            old(self)@.pending.len() + data@.len() <= old(self)@.capacity,
        ensures
            final(self).inv(),
            final(self)@ == (ReaderView { pending: old(self)@.pending + data@, ..old(self)@ }),
    {
        let cap = self.buf.len();
        let start = self.len;
        let n = data.len();
        let mut i: usize = 0;
        while i < n
            invariant
                i <= n,
                n == data@.len(),
                start + n <= cap,
                cap == self.buf@.len(),
                self.len == start,
                self.buf@.take(start as int) == old(self)@.pending,
                self.buf@.subrange(start as int, start + i) == data@.take(i as int),
            decreases n - i,
        {
            self.buf[start + i] = data[i];
            i += 1;
            assert(self.buf@.take(start as int) =~= old(self)@.pending);
            assert(self.buf@.subrange(start as int, start + i) =~= data@.take(i as int));
        }
        self.len = start + n;
        assert(self.buf@.take(self.len as int) =~= old(self)@.pending + data@) by {
            assert(data@.take(n as int) =~= data@);
            assert(self.buf@.take(self.len as int) =~= self.buf@.take(start as int)
                + self.buf@.subrange(start as int, start + n));
        }
    }

    /// Takes up to `max` of the waiting bytes, oldest first.
    pub fn read(&mut self, max: usize) -> (r: Vec<u8>)
        requires
            old(self).inv(),
        ensures
            final(self).inv(),
            r@.len() == if max <= old(self)@.pending.len() {
                max as nat
            } else {
                old(self)@.pending.len()
            },
            r@ == old(self)@.pending.take(r@.len() as int),
            final(self)@ == (ReaderView {
                pending: old(self)@.pending.skip(r@.len() as int),
                ..old(self)@
            }),
    {
        let len = self.len;
        let n = if max <= len {
            max
        } else {
            len
        };
        let mut out: Vec<u8> = Vec::new();
        let mut i: usize = 0;
        while i < n
            invariant
                i <= n <= len,
                len == self.len,
                self.len <= self.buf@.len(),
                self.buf@ == old(self).buf@,
                out@ == self.buf@.take(i as int),
            decreases n - i,
        {
            out.push(self.buf[i]);
            i += 1;
            assert(out@ =~= self.buf@.take(i as int));
        }
        let mut k: usize = n;
        while k < len
            invariant
                n <= k <= len,
                len == old(self).len,
                self.len == len,
                len <= self.buf@.len(),
                self.buf@.len() == old(self).buf@.len(),
                forall|j: int| 0 <= j < k - n ==> #[trigger] self.buf@[j] == old(self).buf@[j + n],
                forall|j: int| k <= j < len ==> #[trigger] self.buf@[j] == old(self).buf@[j],
            decreases len - k,
        {
            let b = self.buf[k];
            self.buf[k - n] = b;
            k += 1;
        }
        self.len = len - n;
        assert(out@ =~= old(self)@.pending.take(n as int));
        assert(self@.pending =~= old(self)@.pending.skip(n as int));
        out
    }
}

/// The state after `j` of the `k` full packets that a queue of exactly `k`
/// packets' worth of bytes goes out in.
proof fn lemma_sent_prefix(v: WriterView, k: nat, j: nat)
    requires
        writer_wf(v),
        !v.zlp_due,
        k > 0,
        v.pending.len() == k * v.max_packet,
        j <= k,
    ensures
        after_sent_n(v, j) == (WriterView {
            pending: v.pending.skip((j * v.max_packet) as int),
            zlp_due: j == k,
            ..v
        }),
    decreases j,
{
    let m = v.max_packet;
    if j == 0 {
        assert(j * m == 0) by (nonlinear_arith)
            requires
                j == 0,
        ;
        assert(v.pending.skip(0) =~= v.pending);
    } else {
        let i = (j - 1) as nat;
        lemma_sent_prefix(v, k, i);
        let s = after_sent_n(v, i);
        assert((k - i) * m >= m && i * m <= k * m) by (nonlinear_arith)
            requires
                i < k,
                m > 0,
        ;
        assert(s.pending.len() == (k - i) * m) by (nonlinear_arith)
            requires
                s.pending.len() == k * m - i * m,
                i <= k,
        ;
        assert(((k - i) * m == m) == (j == k)) by (nonlinear_arith)
            requires
                m > 0,
                i < k,
                j == i + 1,
        ;
        assert(i * m + m == j * m) by (nonlinear_arith)
            requires
                j == i + 1,
        ;
        assert(s.pending.skip(m as int) =~= v.pending.skip((j * m) as int));
        assert(packet_len(s) == m);
        assert(after_sent_n(v, j) == after_sent(s));
    }
}

/// A run of bytes that fills whole packets ends with a zero-length packet:
/// from a writer with no zero-length packet due whose queue holds exactly
/// `k` full packets' worth, the next `k` packets are full, each the next
/// `max_packet` bytes in order, and the packet after them is zero-length,
/// whatever is written after the run.
pub proof fn lemma_full_run_ends_short(v: WriterView, k: nat, data: Seq<u8>)
    requires
        writer_wf(v),
        !v.zlp_due,
        k > 0,
        v.pending.len() == k * v.max_packet,
    ensures
        forall|j: nat|
            j < k ==> #[trigger] next_packet(after_sent_n(v, j)) == Some(
                v.pending.subrange((j * v.max_packet) as int, ((j + 1) * v.max_packet) as int),
            ),
        after_sent_n(v, k).pending.len() == 0,
        next_packet(after_write(after_sent_n(v, k), data)) == Some(Seq::<u8>::empty()),
{
    let m = v.max_packet;
    assert forall|j: nat| j < k implies #[trigger] next_packet(after_sent_n(v, j)) == Some(
        v.pending.subrange((j * m) as int, ((j + 1) * m) as int),
    ) by {
        lemma_sent_prefix(v, k, j);
        assert((k - j) * m >= m && j * m + m == (j + 1) * m && (j + 1) * m <= k * m)
            by (nonlinear_arith)
            requires
                j < k,
                m > 0,
        ;
        assert(v.pending.skip((j * m) as int).take(m as int) =~= v.pending.subrange((j * m) as int, ((j + 1) * m) as int));
    }
    lemma_sent_prefix(v, k, k);
}

} // verus!
