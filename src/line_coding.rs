use vstd::prelude::*;
use crate::builder::le32;

verus! {

/// Number of stop bits of a serial line.
#[derive(Clone, Copy, Debug, PartialEq, Eq, Structural)]
pub enum StopBits {
    One,
    OnePointFive,
    Two,
}

/// Parity of a serial line.
#[derive(Clone, Copy, Debug, PartialEq, Eq, Structural)]
pub enum ParityType {
    NoParity,
    Odd,
    Even,
    Mark,
    Space,
}

/// Wire code of a stop-bits setting.
pub open spec fn stop_bits_code(s: StopBits) -> u8 {
    match s {
        StopBits::One => 0,
        StopBits::OnePointFive => 1,
        StopBits::Two => 2,
    }
}

/// Stop-bits setting of a wire code; codes past the last one read as `One`.
pub open spec fn stop_bits_of(b: u8) -> StopBits {
    if b == 1 {
        StopBits::OnePointFive
    } else if b == 2 {
        StopBits::Two
    } else {
        StopBits::One
    }
}

/// Wire code of a parity setting.
pub open spec fn parity_code(p: ParityType) -> u8 {
    match p {
        ParityType::NoParity => 0,
        ParityType::Odd => 1,
        ParityType::Even => 2,
        ParityType::Mark => 3,
        ParityType::Space => 4,
    }
}

/// Parity setting of a wire code; codes past the last one read as `NoParity`.
pub open spec fn parity_of(b: u8) -> ParityType {
    if b == 1 {
        ParityType::Odd
    } else if b == 2 {
        ParityType::Even
    } else if b == 3 {
        ParityType::Mark
    } else if b == 4 {
        ParityType::Space
    } else {
        ParityType::NoParity
    }
}

impl StopBits {
    /// The wire code of this setting.
    pub fn code(self) -> (r: u8)
        ensures
            r == stop_bits_code(self),
    {
        match self {
            StopBits::One => 0,
            StopBits::OnePointFive => 1,
            StopBits::Two => 2,
        }
    }
}

impl ParityType {
    /// The wire code of this setting.
    pub fn code(self) -> (r: u8)
        ensures
            r == parity_code(self),
    {
        match self {
            ParityType::NoParity => 0,
            ParityType::Odd => 1,
            ParityType::Even => 2,
            ParityType::Mark => 3,
            ParityType::Space => 4,
        }
    }
}

impl From<u8> for StopBits {
    fn from(value: u8) -> (r: StopBits) {
        if value == 1 {
            StopBits::OnePointFive
        } else if value == 2 {
            StopBits::Two
        } else {
            StopBits::One
        }
    }
}

impl vstd::std_specs::convert::FromSpecImpl<u8> for StopBits {
    open spec fn obeys_from_spec() -> bool {
        true
    }

    open spec fn from_spec(v: u8) -> StopBits {
        stop_bits_of(v)
    }
}

impl From<u8> for ParityType {
    fn from(value: u8) -> (r: ParityType) {
        if value == 1 {
            ParityType::Odd
        } else if value == 2 {
            ParityType::Even
        } else if value == 3 {
            ParityType::Mark
        } else if value == 4 {
            ParityType::Space
        } else {
            ParityType::NoParity
        }
    }
}

impl vstd::std_specs::convert::FromSpecImpl<u8> for ParityType {
    open spec fn obeys_from_spec() -> bool {
        true
    }

    open spec fn from_spec(v: u8) -> ParityType {
        parity_of(v)
    }
}

/// Line coding parameters set by the host: data rate, stop bits, parity
/// and data bits.
pub struct LineCoding {
    stop_bits: StopBits,
    data_bits: u8,
    parity_type: ParityType,
    data_rate: u32,
}

/// What a line coding holds: data rate, stop bits, parity, data bits.
pub type LineCodingView = (u32, StopBits, ParityType, u8);

impl View for LineCoding {
    type V = LineCodingView;

    closed spec fn view(&self) -> LineCodingView {
        (self.data_rate, self.stop_bits, self.parity_type, self.data_bits)
    }
}

/// The line coding after power-up and after a bus reset: 8000 bit/s, one
/// stop bit, no parity, eight data bits.
pub open spec fn default_line_coding() -> LineCodingView {
    (8000u32, StopBits::One, ParityType::NoParity, 8u8)
}

/// The seven bytes of a line coding on the wire: the data rate little-endian,
/// then the stop-bits code, the parity code and the data bits.
pub open spec fn line_coding_bytes(v: LineCodingView) -> Seq<u8> {
    le32(v.0) + seq![stop_bits_code(v.1), parity_code(v.2), v.3]
}

/// The 32-bit value of four little-endian bytes.
pub open spec fn u32_of_le(d: Seq<u8>) -> u32 {
    (d[0] + 256 * d[1] + 65536 * d[2] + 16777216 * d[3]) as u32
}

/// The line coding that a payload of at least seven bytes sets.
pub open spec fn line_coding_of(d: Seq<u8>) -> LineCodingView {
    (u32_of_le(d), stop_bits_of(d[4]), parity_of(d[5]), d[6])
}

impl LineCoding {
    /// Gets the number of stop bits.
    pub fn stop_bits(&self) -> (r: StopBits)
        ensures
            r == self@.1,
    {
        self.stop_bits
    }

    /// Gets the number of data bits.
    pub fn data_bits(&self) -> (r: u8)
        ensures
            r == self@.3,
    {
        self.data_bits
    }

    /// Gets the parity type.
    pub fn parity_type(&self) -> (r: ParityType)
        ensures
            r == self@.2,
    {
        self.parity_type
    }

    /// Gets the data rate in bits per second.
    pub fn data_rate(&self) -> (r: u32)
        ensures
            r == self@.0,
    {
        self.data_rate
    }

    /// The seven-byte wire form of this line coding.
    pub fn to_bytes(&self) -> (r: Vec<u8>)
        ensures
            r@ == line_coding_bytes(self@),
    {
        let v = self.data_rate;
        let r = vec![
            (v % 256) as u8,
            ((v / 256) % 256) as u8,
            ((v / 65536) % 256) as u8,
            (v / 16777216) as u8,
            self.stop_bits.code(),
            self.parity_type.code(),
            self.data_bits,
        ];
        assert(r@ =~= line_coding_bytes(self@));
        r
    }

    /// Decodes a line coding payload; `None` when it holds fewer than seven
    /// bytes. Out-of-range stop-bits and parity codes read as the defaults.
    pub fn from_bytes(data: &[u8]) -> (r: Option<LineCoding>)
        ensures
            data@.len() < 7 <==> r is None,
            r matches Some(lc) ==> lc@ == line_coding_of(data@),
    {
        if data.len() < 7 {
            return None;
        }
        let rate = (data[0] as u32) + 256 * (data[1] as u32) + 65536 * (data[2] as u32)
            + 16777216 * (data[3] as u32);
        Some(
            LineCoding {
                stop_bits: StopBits::from(data[4]),
                data_bits: data[6],
                parity_type: ParityType::from(data[5]),
                data_rate: rate,
            },
        )
    }
}

impl Default for LineCoding {
    fn default() -> (r: LineCoding)
        ensures
            r@ == default_line_coding(),
    {
        LineCoding {
            stop_bits: StopBits::One,
            data_bits: 8,
            parity_type: ParityType::NoParity,
            data_rate: 8_000,
        }
    }
}

/// Bytes that decode to a line coding encode back to the same seven bytes,
/// as long as their stop-bits and parity codes are in range.
pub proof fn lemma_line_coding_round_trip(d: Seq<u8>)
    requires
        d.len() >= 7,
        d[4] <= 2,
        d[5] <= 4,
    ensures
        line_coding_bytes(line_coding_of(d)) == d.take(7),
{
    let b0 = d[0];
    let b1 = d[1];
    let b2 = d[2];
    let b3 = d[3];
    let v = u32_of_le(d);
    assert(v % 256 == b0 && (v / 256) % 256 == b1 && (v / 65536) % 256 == b2 && v / 16777216 == b3)
        by {
        lemma_le32_parts(b0, b1, b2, b3);
    }
    assert(line_coding_bytes(line_coding_of(d)) =~= d.take(7));
}

proof fn lemma_le32_parts(b0: u8, b1: u8, b2: u8, b3: u8)
    ensures
        ({
            let v = (b0 + 256 * b1 + 65536 * b2 + 16777216 * b3) as u32;
            v % 256 == b0 && (v / 256) % 256 == b1 && (v / 65536) % 256 == b2 && v / 16777216
                == b3
        }),
{
    let x0 = b0 as u32;
    let x1 = b1 as u32;
    let x2 = b2 as u32;
    let x3 = b3 as u32;
    assert(x0 < 256 && x1 < 256 && x2 < 256 && x3 < 256);
    assert({
        let v = (x0 + 256 * x1 + 65536 * x2 + 16777216 * x3) as u32;
        v % 256 == x0 && (v / 256) % 256 == x1 && (v / 65536) % 256 == x2 && v / 16777216 == x3
    }) by (bit_vector)
        requires
            x0 < 256 && x1 < 256 && x2 < 256 && x3 < 256,
    ;
}

/// Every payload of at least seven bytes decodes to defined settings: an
/// out-of-range stop-bits code reads as one stop bit, an out-of-range
/// parity code as `NoParity`.
pub proof fn lemma_out_of_range_codes_default(d: Seq<u8>)
    requires
        d.len() >= 7,
    ensures
        d[4] > 2 ==> line_coding_of(d).1 == StopBits::One,
        d[5] > 4 ==> line_coding_of(d).2 == ParityType::NoParity,
        stop_bits_code(line_coding_of(d).1) <= 2,
        parity_code(line_coding_of(d).2) <= 4,
{
}

} // verus!
