//! The byte reader that every parser draws from, the outcome type that the
//! parsers' specs use, and the little-endian primitives.

use byteorder::ByteOrder;
use vstd::prelude::*;
use vstd::utf8::{decode_utf8, valid_utf8};
use crate::error::{ParserError, ParserResult};
use crate::text::{decimal, decimal_text, decode_utf16, join, pop_char, text, utf16_text, utf8_text};

verus! {

/// What a parser makes of the bytes at a position.
pub enum Parse<V> {
    /// A value, and the position where reading stopped.
    Parsed(V, int),
    /// The messages of the `ParserError` that comes back, and the position
    /// where reading stopped.
    Failed(Seq<Seq<char>>, int),
    /// The input is one on which the format's reader gives up altogether
    /// (where it panics); the parsers' preconditions leave such inputs out.
    Aborted,
}

impl<V> Parse<V> {
    /// A failure with one more message of context.
    pub open spec fn context(self, msg: Seq<char>) -> Parse<V> {
        match self {
            Parse::Failed(m, e) => Parse::Failed(m.push(msg), e),
            other => other,
        }
    }

    /// The same failure, for a parser of another type.
    pub open spec fn pass<W>(self) -> Parse<W> {
        match self {
            Parse::Failed(m, e) => Parse::Failed(m, e),
            _ => Parse::Aborted,
        }
    }

    pub open spec fn value(self) -> V
        recommends
            self is Parsed,
    {
        match self {
            Parse::Parsed(v, _) => v,
            _ => arbitrary(),
        }
    }

    pub open spec fn end(self) -> int
        recommends
            self is Parsed,
    {
        match self {
            Parse::Parsed(_, e) => e,
            _ => 0,
        }
    }
}

/// The message of a read past the end of the input.
pub open spec fn eof_message() -> Seq<char> {
    "File Error: failed to fill whole buffer"@
}

/// A read past the end of `b`: the reader moves to the end.
pub open spec fn eof<V>(b: Seq<u8>) -> Parse<V> {
    Parse::Failed(seq![eof_message()], b.len() as int)
}

/// The bytes in a reader, and its position (which may lie past the end).
pub struct Reader {
    pub data: Vec<u8>,
    pub pos: u64,
}

impl Reader {
    pub open spec fn bytes(&self) -> Seq<u8> {
        self.data@
    }

    pub open spec fn at(&self) -> int {
        self.pos as int
    }

    pub fn new(data: Vec<u8>) -> (r: Self)
        ensures
            r.bytes() == data@,
            r.at() == 0,
    {
        Reader { data, pos: 0 }
    }

    pub fn position(&self) -> (p: u64)
        ensures
            p == self.at(),
    {
        self.pos
    }

    pub fn len(&self) -> (n: usize)
        ensures
            n == self.bytes().len(),
    {
        self.data.len()
    }

    /// Moves to an absolute position (any position, as a cursor allows).
    pub fn seek_to(&mut self, pos: u64)
        ensures
            final(self).bytes() == old(self).bytes(),
            final(self).at() == pos,
    {
        self.pos = pos;
    }

    /// Whether `n` bytes can be read at the position.
    pub fn has(&self, n: u64) -> (b: bool)
        ensures
            b == (self.at() + n <= self.bytes().len()),
            self.bytes().len() <= usize::MAX,
    {
        let len = self.data.len();
        self.pos <= len as u64 && (len as u64) - self.pos >= n
    }

    /// The error of a read past the end; the reader moves to the end.
    fn fail_eof<T>(&mut self) -> (r: ParserResult<T>)
        ensures
            final(self).bytes() == old(self).bytes(),
            final(self).at() == old(self).bytes().len(),
            r matches Err(e) && e@ == seq![eof_message()],
    {
        let len = self.data.len();
        self.pos = len as u64;
        Err(ParserError::new(text("File Error: failed to fill whole buffer")))
    }
}

/// The outcome of a parser matches its spec: the value and the final
/// position when it parsed, the messages when it failed.
pub open spec fn outcome<T: DeepView>(res: ParserResult<T>, spec: Parse<T::V>, after: Reader) -> bool {
    match spec {
        Parse::Parsed(v, e) => res matches Ok(x) && x.deep_view() == v && after.at() == e,
        Parse::Failed(m, e) => res matches Err(er) && er@ == m && after.at() == e,
        Parse::Aborted => true,
    }
}

/// As [`outcome`], with the value viewed through `view`.
pub open spec fn outcome_as<T, V>(res: ParserResult<T>, spec: Parse<V>, after: Reader, view: spec_fn(T) -> V) -> bool {
    match spec {
        Parse::Parsed(v, e) => res matches Ok(x) && view(x) == v && after.at() == e,
        Parse::Failed(m, e) => res matches Err(er) && er@ == m && after.at() == e,
        Parse::Aborted => true,
    }
}

pub open spec fn le_u16(b: Seq<u8>, p: int) -> u16 {
    (b[p] as int + b[p + 1] as int * 0x100) as u16
}

pub open spec fn le_u32(b: Seq<u8>, p: int) -> u32 {
    (b[p] as int + b[p + 1] as int * 0x100 + b[p + 2] as int * 0x1_0000 + b[p + 3] as int
        * 0x100_0000) as u32
}

pub open spec fn le_u64(b: Seq<u8>, p: int) -> u64 {
    (le_u32(b, p) as int + le_u32(b, p + 4) as int * 0x1_0000_0000) as u64
}

/// Two's complement reinterpretation.
pub open spec fn signed8(u: u8) -> i8 {
    if u < 0x80 { u as i8 } else { (u - 0x100) as i8 }
}

pub open spec fn signed16(u: u16) -> i16 {
    if u < 0x8000 { u as i16 } else { (u - 0x1_0000) as i16 }
}

pub open spec fn signed32(u: u32) -> i32 {
    if u < 0x8000_0000 { u as i32 } else { (u - 0x1_0000_0000) as i32 }
}

pub open spec fn signed64(u: u64) -> i64 {
    if u < 0x8000_0000_0000_0000 { u as i64 } else { (u - 0x1_0000_0000_0000_0000) as i64 }
}

/// A fixed-size read: `n` bytes at `p`, or the end-of-input error.
pub open spec fn fits(b: Seq<u8>, p: int, n: int) -> bool {
    0 <= p && p + n <= b.len()
}

pub open spec fn take_u8(b: Seq<u8>, p: int) -> Parse<u8> {
    if fits(b, p, 1) { Parse::Parsed(b[p], p + 1) } else { eof(b) }
}

pub open spec fn take_i8(b: Seq<u8>, p: int) -> Parse<i8> {
    if fits(b, p, 1) { Parse::Parsed(signed8(b[p]), p + 1) } else { eof(b) }
}

pub open spec fn take_u16(b: Seq<u8>, p: int) -> Parse<u16> {
    if fits(b, p, 2) { Parse::Parsed(le_u16(b, p), p + 2) } else { eof(b) }
}

pub open spec fn take_i16(b: Seq<u8>, p: int) -> Parse<i16> {
    if fits(b, p, 2) { Parse::Parsed(signed16(le_u16(b, p)), p + 2) } else { eof(b) }
}

pub open spec fn take_u32(b: Seq<u8>, p: int) -> Parse<u32> {
    if fits(b, p, 4) { Parse::Parsed(le_u32(b, p), p + 4) } else { eof(b) }
}

pub open spec fn take_i32(b: Seq<u8>, p: int) -> Parse<i32> {
    if fits(b, p, 4) { Parse::Parsed(signed32(le_u32(b, p)), p + 4) } else { eof(b) }
}

pub open spec fn take_u64(b: Seq<u8>, p: int) -> Parse<u64> {
    if fits(b, p, 8) { Parse::Parsed(le_u64(b, p), p + 8) } else { eof(b) }
}

pub open spec fn take_i64(b: Seq<u8>, p: int) -> Parse<i64> {
    if fits(b, p, 8) { Parse::Parsed(signed64(le_u64(b, p)), p + 8) } else { eof(b) }
}

/// `n` raw bytes.
pub open spec fn take_bytes(b: Seq<u8>, p: int, n: int) -> Parse<Seq<u8>> {
    if fits(b, p, n) { Parse::Parsed(b.subrange(p, p + n), p + n) } else { eof(b) }
}

/// `LittleEndian::read_u16` of byteorder: the first two bytes, low byte first.
#[verifier::external_body]
fn bytes_u16(buf: &[u8]) -> (r: u16)
    requires
        buf@.len() >= 2,
    ensures
        r == le_u16(buf@, 0),
{
    byteorder::LittleEndian::read_u16(buf)
}

/// `LittleEndian::read_i16` of byteorder: `read_u16` reinterpreted as signed.
#[verifier::external_body]
fn bytes_i16(buf: &[u8]) -> (r: i16)
    requires
        buf@.len() >= 2,
    ensures
        r == signed16(le_u16(buf@, 0)),
{
    byteorder::LittleEndian::read_i16(buf)
}

/// `LittleEndian::read_u32` of byteorder: the first four bytes, lowest first.
#[verifier::external_body]
fn bytes_u32(buf: &[u8]) -> (r: u32)
    requires
        buf@.len() >= 4,
    ensures
        r == le_u32(buf@, 0),
{
    byteorder::LittleEndian::read_u32(buf)
}

/// `LittleEndian::read_i32` of byteorder: `read_u32` reinterpreted as signed.
#[verifier::external_body]
fn bytes_i32(buf: &[u8]) -> (r: i32)
    requires
        buf@.len() >= 4,
    ensures
        r == signed32(le_u32(buf@, 0)),
{
    byteorder::LittleEndian::read_i32(buf)
}

/// `LittleEndian::read_u64` of byteorder: the first eight bytes, lowest first.
#[verifier::external_body]
fn bytes_u64(buf: &[u8]) -> (r: u64)
    requires
        buf@.len() >= 8,
    ensures
        r == le_u64(buf@, 0),
{
    byteorder::LittleEndian::read_u64(buf)
}

/// `LittleEndian::read_i64` of byteorder: `read_u64` reinterpreted as signed.
#[verifier::external_body]
fn bytes_i64(buf: &[u8]) -> (r: i64)
    requires
        buf@.len() >= 8,
    ensures
        r == signed64(le_u64(buf@, 0)),
{
    byteorder::LittleEndian::read_i64(buf)
}

impl Reader {
    /// The `n` bytes at the position, which must all be there.
    fn window(&self, n: usize) -> (s: &[u8])
        requires
            self.at() + n <= self.bytes().len(),
        ensures
            s@ == self.bytes().subrange(self.at(), self.at() + n),
    {
        let len = self.data.len();
        let start = self.pos as usize;
        let s = self.data.as_slice();
        &s[start..start + n]
    }

    pub fn read_u8(&mut self) -> (r: ParserResult<u8>)
        ensures
            final(self).bytes() == old(self).bytes(),
            outcome(r, take_u8(old(self).bytes(), old(self).at()), *final(self)),
    {
        if !self.has(1) {
            return self.fail_eof();
        }
        let v = self.data[self.pos as usize];
        self.pos = self.pos + 1;
        Ok(v)
    }

    pub fn read_i8(&mut self) -> (r: ParserResult<i8>)
        ensures
            final(self).bytes() == old(self).bytes(),
            outcome(r, take_i8(old(self).bytes(), old(self).at()), *final(self)),
    {
        let v = self.read_u8()?;
        let s: i8 = if v < 0x80 { v as i8 } else { (v as i16 - 0x100) as i8 };
        Ok(s)
    }

    pub fn read_u16(&mut self) -> (r: ParserResult<u16>)
        ensures
            final(self).bytes() == old(self).bytes(),
            outcome(r, take_u16(old(self).bytes(), old(self).at()), *final(self)),
    {
        if !self.has(2) {
            return self.fail_eof();
        }
        let v = bytes_u16(self.window(2));
        self.pos = self.pos + 2;
        Ok(v)
    }

    pub fn read_i16(&mut self) -> (r: ParserResult<i16>)
        ensures
            final(self).bytes() == old(self).bytes(),
            outcome(r, take_i16(old(self).bytes(), old(self).at()), *final(self)),
    {
        if !self.has(2) {
            return self.fail_eof();
        }
        let v = bytes_i16(self.window(2));
        self.pos = self.pos + 2;
        Ok(v)
    }

    pub fn read_u32(&mut self) -> (r: ParserResult<u32>)
        ensures
            final(self).bytes() == old(self).bytes(),
            outcome(r, take_u32(old(self).bytes(), old(self).at()), *final(self)),
    {
        if !self.has(4) {
            return self.fail_eof();
        }
        let v = bytes_u32(self.window(4));
        self.pos = self.pos + 4;
        Ok(v)
    }

    pub fn read_i32(&mut self) -> (r: ParserResult<i32>)
        ensures
            final(self).bytes() == old(self).bytes(),
            outcome(r, take_i32(old(self).bytes(), old(self).at()), *final(self)),
    {
        if !self.has(4) {
            return self.fail_eof();
        }
        let v = bytes_i32(self.window(4));
        self.pos = self.pos + 4;
        Ok(v)
    }

    pub fn read_u64(&mut self) -> (r: ParserResult<u64>)
        ensures
            final(self).bytes() == old(self).bytes(),
            outcome(r, take_u64(old(self).bytes(), old(self).at()), *final(self)),
    {
        if !self.has(8) {
            return self.fail_eof();
        }
        let v = bytes_u64(self.window(8));
        self.pos = self.pos + 8;
        Ok(v)
    }

    pub fn read_i64(&mut self) -> (r: ParserResult<i64>)
        ensures
            final(self).bytes() == old(self).bytes(),
            outcome(r, take_i64(old(self).bytes(), old(self).at()), *final(self)),
    {
        if !self.has(8) {
            return self.fail_eof();
        }
        let v = bytes_i64(self.window(8));
        self.pos = self.pos + 8;
        Ok(v)
    }

    /// `n` raw bytes, as `read_exact` fills a buffer of that length.
    pub fn read_bytes(&mut self, n: usize) -> (r: ParserResult<Vec<u8>>)
        ensures
            final(self).bytes() == old(self).bytes(),
            outcome(r, take_bytes(old(self).bytes(), old(self).at(), n as int), *final(self)),
    {
        if !self.has(n as u64) {
            return self.fail_eof();
        }
        let w = self.window(n);
        let mut out: Vec<u8> = Vec::new();
        let mut i: usize = 0;
        while i < n
            invariant
                i <= n,
                w@.len() == n,
                out@ == w@.subrange(0, i as int),
            decreases n - i,
        {
            out.push(w[i]);
            i = i + 1;
            assert(out@ =~= w@.subrange(0, i as int));
        }
        assert(w@.subrange(0, n as int) =~= w@);
        assert(out.deep_view() =~= out@);
        self.pos = self.pos + n as u64;
        Ok(out)
    }
}

/// The text without its last character, if it has one (as `String::pop`).
pub open spec fn without_last(s: Seq<char>) -> Seq<char> {
    if s.len() > 0 { s.drop_last() } else { s }
}

/// The message of a string length out of bounds.
pub open spec fn string_length_message(len: i32) -> Seq<char> {
    "String length too large ("@ + decimal(len as int) + "), likely a read error."@
}

/// The 16-bit units at `p`, `n` of them.
pub open spec fn units_at(b: Seq<u8>, p: int, n: int) -> Seq<u16> {
    Seq::new(n as nat, |i: int| le_u16(b, p + 2 * i))
}

/// An FString: an `i32` length, then that many UTF-8 bytes (a positive
/// length) or `-length` UTF-16 units (a negative one), ending in a
/// terminator that is dropped.
pub open spec fn take_string(b: Seq<u8>, p: int) -> Parse<Seq<char>> {
    match take_i32(b, p) {
        Parse::Parsed(len, q) => {
            if len > 65536 || len < -65536 {
                Parse::Failed(seq![string_length_message(len)], q)
            } else if len == 0 {
                Parse::Parsed(Seq::<char>::empty(), q)
            } else if len < 0 {
                let n = -len;
                if fits(b, q, 2 * n) {
                    match decode_utf16(units_at(b, q, n).drop_last()) {
                        Some(s) => Parse::Parsed(s, q + 2 * n),
                        None => Parse::Failed(seq!["UTF16 Error"@], q + 2 * n),
                    }
                } else {
                    eof(b)
                }
            } else if fits(b, q, len as int) {
                let bytes = b.subrange(q, q + len);
                if valid_utf8(bytes) {
                    Parse::Parsed(without_last(decode_utf8(bytes)), q + len)
                } else {
                    Parse::Failed(seq!["UTF8 Error"@], q + len)
                }
            } else {
                eof(b)
            }
        },
        other => other.pass(),
    }
}

/// Reads an FString.
pub fn read_string(reader: &mut Reader) -> (r: ParserResult<String>)
    ensures
        final(reader).bytes() == old(reader).bytes(),
        outcome(r, take_string(old(reader).bytes(), old(reader).at()), *final(reader)),
{
    let ghost b = reader.bytes();
    let length = reader.read_i32()?;
    let q = reader.pos;
    if length > 65536 || length < -65536 {
        let msg = join(join(text("String length too large ("), decimal_text(length as i128).as_str()), "), likely a read error.");
        return Err(ParserError::new(msg));
    }
    if length == 0 {
        return Ok(String::new());
    }
    if length < 0 {
        let n: i32 = -length;
        let count = n as usize;
        let mut units: Vec<u16> = Vec::new();
        let mut i: usize = 0;
        while i < count
            invariant
                reader.bytes() == b,
                b == old(reader).bytes(),
                q == old(reader).at() + 4,
                fits(b, old(reader).at(), 4),
                length == signed32(le_u32(b, old(reader).at())),
                -65536 <= length < 0,
                n == -length,
                count == n,
                i <= count,
                reader.at() == q + 2 * i,
                reader.at() <= b.len(),
                units@ == units_at(b, q as int, i as int),
            decreases count - i,
        {
            let v = reader.read_u16()?;
            units.push(v);
            i = i + 1;
            assert(units@ =~= units_at(b, q as int, i as int));
        }
        let ghost all = units@;
        units.pop();
        assert(units@ =~= units_at(b, q as int, n as int).drop_last());
        assert(q + 2 * n <= b.len());
        assert(reader.at() == q + 2 * n);
        match utf16_text(units.as_slice()) {
            Some(s) => {
                assert(Some(s@) == decode_utf16(units_at(b, q as int, n as int).drop_last()));
                Ok(s)
            },
            None => Err(ParserError::new(text("UTF16 Error"))),
        }
    } else {
        let bytes = reader.read_bytes(length as usize)?;
        assert(bytes.deep_view() =~= bytes@);
        match utf8_text(bytes.as_slice()) {
            Some(s) => {
                let mut s = s.to_owned();
                pop_char(&mut s);
                Ok(s)
            },
            None => Err(ParserError::new(text("UTF8 Error"))),
        }
    }
}


/// How far an FString reaches: its `i32` length `n` is followed by `n` bytes
/// when positive and by `-n` two-byte units when negative; a zero length is
/// the empty string; a length beyond 65536 either way is an error right
/// after the length, whatever follows.
pub proof fn lemma_string_extent(b: Seq<u8>, p: int)
    requires
        fits(b, p, 4),
    ensures
        ({
            let n = signed32(le_u32(b, p)) as int;
            let r = take_string(b, p);
            &&& (n > 65536 || n < -65536) ==> r == Parse::<Seq<char>>::Failed(
                seq![string_length_message(signed32(le_u32(b, p)))],
                p + 4,
            )
            &&& n == 0 ==> r == Parse::Parsed(Seq::<char>::empty(), p + 4)
            &&& 0 < n <= 65536 && fits(b, p + 4, n) ==> (r is Parsed && r->Parsed_1 == p + 4 + n) || (r is Failed
                && r->Failed_1 == p + 4 + n)
            &&& -65536 <= n < 0 && fits(b, p + 4, -2 * n) ==> (r is Parsed && r->Parsed_1 == p + 4 - 2 * n) || (r
                is Failed && r->Failed_1 == p + 4 - 2 * n)
        }),
{
}

} // verus!
