//! Types that read themselves from a reader, and arrays of them.

use vstd::prelude::*;
use crate::error::ParserResult;
use crate::reader::{outcome, read_string, take_i16, take_i32, take_string, take_u16, take_u32, take_u8, Parse, Reader};

verus! {

/// A type with a fixed wire layout that needs nothing but the bytes.
pub trait Newable: Sized + DeepView {
    /// What the layout makes of the bytes at `p`.
    spec fn parse(b: Seq<u8>, p: int) -> Parse<<Self as DeepView>::V>;

    /// Reads a value at the reader's position.
    fn new(reader: &mut Reader) -> (r: ParserResult<Self>)
        requires
            !(Self::parse(old(reader).bytes(), old(reader).at()) is Aborted),
        ensures
            final(reader).bytes() == old(reader).bytes(),
            outcome(r, Self::parse(old(reader).bytes(), old(reader).at()), *final(reader)),
    ;
}

/// `xs` followed by what `rest` parsed.
pub open spec fn prepend<V>(xs: Seq<V>, rest: Parse<Seq<V>>) -> Parse<Seq<V>> {
    match rest {
        Parse::Parsed(ys, e) => Parse::Parsed(xs + ys, e),
        other => other,
    }
}

pub proof fn lemma_prepend_assoc<V>(xs: Seq<V>, x: V, rest: Parse<Seq<V>>)
    ensures
        prepend(xs, prepend(seq![x], rest)) == prepend(xs.push(x), rest),
{
    match rest {
        Parse::Parsed(ys, e) => {
            assert(xs + (seq![x] + ys) =~= xs.push(x) + ys);
        },
        _ => {},
    }
}

/// `n` values, one after another.
pub open spec fn take_items<S: Newable>(b: Seq<u8>, p: int, n: nat) -> Parse<Seq<<S as DeepView>::V>>
    decreases n,
{
    if n == 0 {
        Parse::Parsed(Seq::empty(), p)
    } else {
        match S::parse(b, p) {
            Parse::Parsed(x, q) => prepend(seq![x], take_items::<S>(b, q, (n - 1) as nat)),
            other => other.pass(),
        }
    }
}

/// A TArray: a `u32` count, then the values.
pub open spec fn take_tarray<S: Newable>(b: Seq<u8>, p: int) -> Parse<Seq<<S as DeepView>::V>> {
    match take_u32(b, p) {
        Parse::Parsed(n, q) => take_items::<S>(b, q, n as nat),
        other => other.pass(),
    }
}

/// Reads `count` values.
pub fn read_items<S: Newable>(reader: &mut Reader, count: u32) -> (r: ParserResult<Vec<S>>)
    requires
        !(take_items::<S>(old(reader).bytes(), old(reader).at(), count as nat) is Aborted),
    ensures
        final(reader).bytes() == old(reader).bytes(),
        outcome(r, take_items::<S>(old(reader).bytes(), old(reader).at(), count as nat), *final(reader)),
{
    let ghost b = reader.bytes();
    let ghost q = reader.at();
    let mut container: Vec<S> = Vec::new();
    let mut i: u32 = 0;
    assert(prepend(container.deep_view(), take_items::<S>(b, q, count as nat)) == take_items::<S>(b, q, count as nat)) by {
        match take_items::<S>(b, q, count as nat) {
            Parse::Parsed(ys, e) => { assert(container.deep_view() + ys =~= ys); },
            _ => {},
        }
    }
    while i < count
        invariant
            reader.bytes() == b,
            b == old(reader).bytes(),
            q == old(reader).at(),
            i <= count,
            prepend(container.deep_view(), take_items::<S>(b, reader.at(), (count - i) as nat))
                == take_items::<S>(b, q, count as nat),
            !(take_items::<S>(b, q, count as nat) is Aborted),
        decreases count - i,
    {
        let ghost before = container.deep_view();
        let ghost cur = reader.at();
        let x = S::new(reader)?;
        proof {
            lemma_prepend_assoc(before, x.deep_view(), take_items::<S>(b, reader.at(), (count - i - 1) as nat));
        }
        container.push(x);
        assert(container.deep_view() =~= before.push(x.deep_view()));
        i = i + 1;
    }
    assert(container.deep_view() + Seq::empty() =~= container.deep_view());
    Ok(container)
}

/// Reads a TArray.
pub fn read_tarray<S: Newable>(reader: &mut Reader) -> (r: ParserResult<Vec<S>>)
    requires
        !(take_tarray::<S>(old(reader).bytes(), old(reader).at()) is Aborted),
    ensures
        final(reader).bytes() == old(reader).bytes(),
        outcome(r, take_tarray::<S>(old(reader).bytes(), old(reader).at()), *final(reader)),
{
    let length = reader.read_u32()?;
    read_items::<S>(reader, length)
}

impl Newable for u8 {
    open spec fn parse(b: Seq<u8>, p: int) -> Parse<u8> {
        take_u8(b, p)
    }

    fn new(reader: &mut Reader) -> (r: ParserResult<u8>) {
        reader.read_u8()
    }
}

impl Newable for u16 {
    open spec fn parse(b: Seq<u8>, p: int) -> Parse<u16> {
        take_u16(b, p)
    }

    fn new(reader: &mut Reader) -> (r: ParserResult<u16>) {
        reader.read_u16()
    }
}

impl Newable for i16 {
    open spec fn parse(b: Seq<u8>, p: int) -> Parse<i16> {
        take_i16(b, p)
    }

    fn new(reader: &mut Reader) -> (r: ParserResult<i16>) {
        reader.read_i16()
    }
}

/// Also the raw bits of an `f32`, which this library keeps as they were read.
impl Newable for u32 {
    open spec fn parse(b: Seq<u8>, p: int) -> Parse<u32> {
        take_u32(b, p)
    }

    fn new(reader: &mut Reader) -> (r: ParserResult<u32>) {
        reader.read_u32()
    }
}

impl Newable for i32 {
    open spec fn parse(b: Seq<u8>, p: int) -> Parse<i32> {
        take_i32(b, p)
    }

    fn new(reader: &mut Reader) -> (r: ParserResult<i32>) {
        reader.read_i32()
    }
}

impl Newable for String {
    open spec fn parse(b: Seq<u8>, p: int) -> Parse<Seq<char>> {
        take_string(b, p)
    }

    fn new(reader: &mut Reader) -> (r: ParserResult<String>) {
        read_string(reader)
    }
}


/// Values read `n` at a time come back `n` of them.
pub proof fn lemma_items_len<S: Newable>(b: Seq<u8>, p: int, n: nat)
    ensures
        take_items::<S>(b, p, n) matches Parse::Parsed(xs, _) ==> xs.len() == n,
    decreases n,
{
    if n > 0 {
        match S::parse(b, p) {
            Parse::Parsed(x, q) => lemma_items_len::<S>(b, q, (n - 1) as nat),
            _ => {},
        }
    }
}

} // verus!
