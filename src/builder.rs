use vstd::prelude::*;

verus! {

/// Little-endian bytes of a 16-bit value.
pub open spec fn le16(v: u16) -> Seq<u8> {
    seq![(v % 256) as u8, (v / 256) as u8]
}

/// Little-endian bytes of a 32-bit value.
pub open spec fn le32(v: u32) -> Seq<u8> {
    seq![(v % 256) as u8, ((v / 256) % 256) as u8, ((v / 65536) % 256) as u8, (v / 16777216) as u8]
}

/// UTF-16 code units of one character: one unit inside the basic plane,
/// a surrogate pair above it.
pub open spec fn char_utf16(c: char) -> Seq<u16> {
    let v = c as u32;
    if v < 0x10000 {
        seq![v as u16]
    } else {
        let w = v - 0x10000;
        seq![(0xD800 + w / 0x400) as u16, (0xDC00 + w % 0x400) as u16]
    }
}

/// UTF-16 code units of a character sequence.
pub open spec fn utf16_units(s: Seq<char>) -> Seq<u16>
    decreases s.len(),
{
    if s.len() == 0 {
        seq![]
    } else {
        utf16_units(s.drop_last()) + char_utf16(s.last())
    }
}

/// Little-endian bytes of a sequence of 16-bit units.
pub open spec fn units_le(u: Seq<u16>) -> Seq<u8>
    decreases u.len(),
{
    if u.len() == 0 {
        seq![]
    } else {
        units_le(u.drop_last()) + le16(u.last())
    }
}

/// UTF-16LE encoding of a character sequence, without byte order mark.
pub open spec fn utf16le(s: Seq<char>) -> Seq<u8> {
    units_le(utf16_units(s))
}

/// Relies on `str::encode_utf16`: the UTF-16 code units of the string, in order.
#[verifier::external_body]
fn encode_utf16_units(s: &str) -> (r: Vec<u16>)
    ensures
        r@ == utf16_units(s@),
{
    s.encode_utf16().collect()
}

/// A serializer that appends fields to a fixed-size byte region at a
/// running cursor. It never grows the region.
pub struct DescriptorBuilder {
    buf: Vec<u8>,
    position: usize,
}

impl DescriptorBuilder {
    /// Size of the backing region.
    pub closed spec fn capacity(&self) -> nat {
        self.buf@.len()
    }

    /// The bytes written so far.
    pub closed spec fn written(&self) -> Seq<u8> {
        self.buf@.take(self.position as int)
    }

    /// The cursor never passes the end of the region.
    pub closed spec fn wf(&self) -> bool {
        self.position <= self.buf@.len()
    }

    /// Wraps a byte region; nothing is written yet.
    pub fn new(buf: Vec<u8>) -> (r: DescriptorBuilder)
        ensures
            r.wf(),
            r.capacity() == buf@.len(),
            r.written() == Seq::<u8>::empty(),
    {
        DescriptorBuilder { buf, position: 0 }
    }

    /// Number of bytes written so far.
    pub fn position(&self) -> (r: usize)
        requires
            self.wf(),
        ensures
            r == self.written().len(),
    {
        self.position
    }

    /// Appends raw bytes.
    pub fn write(&mut self, bytes: &[u8])
        requires
            old(self).wf(),
            old(self).written().len() + bytes@.len() <= old(self).capacity(),
        ensures
            final(self).wf(),
            final(self).capacity() == old(self).capacity(),
            final(self).written() == old(self).written() + bytes@,
    {
        let length = bytes.len();
        let start = self.position;
        let cap = self.buf.len();
        let mut i: usize = 0;
        while i < length
            invariant
                self.position == start,
                start + length <= cap,
                cap == self.buf@.len(),
                length == bytes@.len(),
                self.buf@.len() == old(self).buf@.len(),
                i <= length,
                self.buf@.take(start as int) == old(self).written(),
                self.buf@.subrange(start as int, start + i) == bytes@.take(i as int),
            decreases length - i,
        {
            self.buf[start + i] = bytes[i];
            i += 1;
            assert(self.buf@.subrange(start as int, start + i) =~= bytes@.take(i as int));
            assert(self.buf@.take(start as int) =~= old(self).written());
        }
        self.position = start + length;
        assert(self.buf@.take(self.position as int) =~= old(self).written() + bytes@) by {
            assert(bytes@.take(length as int) =~= bytes@);
            assert(self.buf@.take(self.position as int) =~= self.buf@.take(start as int)
                + self.buf@.subrange(start as int, start + length));
        }
    }

    /// Appends a 16-bit value, least significant byte first.
    pub fn write_u16(&mut self, val: u16)
        requires
            old(self).wf(),
            old(self).written().len() + 2 <= old(self).capacity(),
        ensures
            final(self).wf(),
            final(self).capacity() == old(self).capacity(),
            final(self).written() == old(self).written() + le16(val),
    {
        let p = self.position;
        let _cap = self.buf.len();
        self.buf[p] = (val % 256) as u8;
        self.buf[p + 1] = (val / 256) as u8;
        self.position = p + 2;
        assert(self.buf@.take(self.position as int) =~= old(self).written() + le16(val));
    }

    /// Appends a 32-bit value, least significant byte first.
    pub fn write_u32(&mut self, val: u32)
        requires
            old(self).wf(),
            old(self).written().len() + 4 <= old(self).capacity(),
        ensures
            final(self).wf(),
            final(self).capacity() == old(self).capacity(),
            final(self).written() == old(self).written() + le32(val),
    {
        let p = self.position;
        let _cap = self.buf.len();
        self.buf[p] = (val % 256) as u8;
        self.buf[p + 1] = ((val / 256) % 256) as u8;
        self.buf[p + 2] = ((val / 65536) % 256) as u8;
        self.buf[p + 3] = (val / 16777216) as u8;
        self.position = p + 4;
        assert(self.buf@.take(self.position as int) =~= old(self).written() + le32(val));
    }

    /// Appends a string as UTF-16LE code units, without byte order mark.
    pub fn write_utf16(&mut self, val: &str)
        requires
            old(self).wf(),
            old(self).written().len() + utf16le(val@).len() <= old(self).capacity(),
        ensures
            final(self).wf(),
            final(self).capacity() == old(self).capacity(),
            final(self).written() == old(self).written() + utf16le(val@),
    {
        let units = encode_utf16_units(val);
        let n = units.len();
        proof {
            lemma_units_le_len(units@);
        }
        let mut i: usize = 0;
        while i < n
            invariant
                self.wf(),
                n == units@.len(),
                i <= n,
                units@ == utf16_units(val@),
                units_le(units@).len() == 2 * units@.len(),
                self.capacity() == old(self).capacity(),
                old(self).written().len() + 2 * n <= old(self).capacity(),
                self.written() == old(self).written() + units_le(units@.take(i as int)),
            decreases n - i,
        {
            proof {
                lemma_units_le_len(units@.take(i as int));
            }
            self.write_u16(units[i]);
            proof {
                assert(units@.take(i + 1).drop_last() =~= units@.take(i as int));
                assert(units@.take(i + 1).last() == units@[i as int]);
            }
            i += 1;
        }
        assert(units@.take(n as int) =~= units@);
    }

    /// The written prefix of the region.
    pub fn buf(&self) -> (r: &[u8])
        requires
            self.wf(),
        ensures
            r@ == self.written(),
    {
        vstd::slice::slice_subrange(self.buf.as_slice(), 0, self.position)
    }
}

/// Two bytes per unit.
pub proof fn lemma_units_le_len(u: Seq<u16>)
    ensures
        units_le(u).len() == 2 * u.len(),
    decreases u.len(),
{
    if u.len() > 0 {
        lemma_units_le_len(u.drop_last());
    }
}

/// An ASCII string takes one UTF-16 unit, two bytes, per character.
pub proof fn lemma_ascii_utf16_len(s: Seq<char>)
    requires
        vstd::utf8::is_ascii_chars(s),
    ensures
        utf16_units(s).len() == s.len(),
        utf16le(s).len() == 2 * s.len(),
    decreases s.len(),
{
    if s.len() > 0 {
        let t = s.drop_last();
        assert(vstd::utf8::is_ascii_chars(t)) by {
            assert forall|i| 0 <= i < t.len() implies '\0' <= #[trigger] t[i] <= '\u{7f}' by {
                assert(t[i] == s[i]);
            }
        }
        assert('\0' <= s[s.len() - 1] <= '\u{7f}');
        lemma_ascii_utf16_len(t);
    }
    lemma_units_le_len(utf16_units(s));
}

/// Writing a field whole leaves the same bytes as writing its
/// little-endian bytes one at a time: two for a 16-bit value, four for a
/// 32-bit value, and two per UTF-16 unit for a string.
pub proof fn lemma_field_writes_bytewise(w: Seq<u8>, a: u16, b: u32, s: Seq<char>)
    ensures
        w + le16(a) == w + seq![(a % 256) as u8] + seq![(a / 256) as u8],
        w + le32(b) == w + seq![(b % 256) as u8] + seq![((b / 256) % 256) as u8] + seq![
            ((b / 65536) % 256) as u8,
        ] + seq![(b / 16777216) as u8],
        s.len() > 0 ==> w + utf16le(s) == w + utf16le(s.drop_last()) + units_le(
            char_utf16(s.last()),
        ),
{
    assert(w + le16(a) =~= w + seq![(a % 256) as u8] + seq![(a / 256) as u8]);
    assert(w + le32(b) =~= w + seq![(b % 256) as u8] + seq![((b / 256) % 256) as u8] + seq![
        ((b / 65536) % 256) as u8,
    ] + seq![(b / 16777216) as u8]);
    if s.len() > 0 {
        lemma_units_le_concat(utf16_units(s.drop_last()), char_utf16(s.last()));
        assert(w + utf16le(s) =~= w + utf16le(s.drop_last()) + units_le(char_utf16(s.last())));
    }
}

/// The bytes of two runs of units are the bytes of each, in order.
pub proof fn lemma_units_le_concat(a: Seq<u16>, b: Seq<u16>)
    ensures
        units_le(a + b) == units_le(a) + units_le(b),
    decreases b.len(),
{
    if b.len() == 0 {
        assert(a + b =~= a);
        assert(units_le(a) + units_le(b) =~= units_le(a));
    } else {
        lemma_units_le_concat(a, b.drop_last());
        assert((a + b).drop_last() =~= a + b.drop_last());
        assert((a + b).last() == b.last());
        assert(units_le(a) + units_le(b) =~= units_le(a) + units_le(b.drop_last()) + le16(
            b.last(),
        ));
    }
}

} // verus!
