//! The exchange with the host: one run of input words that is read from the
//! front, value by value, and one journal that every commit appends to.
//! Nothing here talks to the host. The caller supplies the input words and
//! sends the journal.

use crate::sexpr::Sexpr;
use crate::wire::{
    decode_at, encode_into, fits, pack, parse, parse_vector, parse_word, push_packed, wire,
    wire_vector, WireError,
};
use vstd::pervasive::unreached;
use vstd::prelude::*;

verus! {

/// The two ends of the exchange: the input that is left to read, and the
/// journal written so far.
pub struct Channel {
    input: Vec<u32>,
    cursor: usize,
    output: Vec<u32>,
}

impl Channel {
    /// Whether the channel is in order: what was read lies within the input.
    pub closed spec fn wf(&self) -> bool {
        self.cursor <= self.input@.len()
    }

    /// The input words that no read has taken yet.
    pub closed spec fn pending(&self) -> Seq<u32> {
        self.input@.skip(self.cursor as int)
    }

    /// The words committed so far, in the order of the commits.
    pub closed spec fn journal(&self) -> Seq<u32> {
        self.output@
    }

    /// A channel with the given input, nothing of it read, and an empty
    /// journal.
    pub fn new(input: Vec<u32>) -> (channel: Channel)
        ensures
            channel.wf(),
            channel.pending() == input@,
            channel.journal() == Seq::<u32>::empty(),
    {
        Channel { input, cursor: 0, output: Vec::new() }
    }

    /// A channel whose input is the words that hold the given bytes, four to
    /// a word, with nothing of it read and an empty journal.
    pub fn from_bytes(bytes: &[u8]) -> (channel: Channel)
        ensures
            channel.wf(),
            channel.pending() == pack(bytes@),
            channel.journal() == Seq::<u32>::empty(),
    {
        let mut input = Vec::new();
        push_packed(&mut input, bytes);
        Channel::new(input)
    }

    /// The journal, for the caller to send.
    pub fn committed(&self) -> (words: &Vec<u32>)
        ensures
            words@ == self.journal(),
    {
        &self.output
    }

    /// The number of input words that no read has taken yet.
    pub fn remaining(&self) -> (n: usize)
        requires
            self.wf(),
        ensures
            n == self.pending().len(),
    {
        self.input.len() - self.cursor
    }
}

/// Reads the value at the front of the input, if one stands there, and takes
/// its words off the input. Where none stands there, says why and leaves the
/// channel as it is.
pub fn try_read_sexpr(channel: &mut Channel) -> (r: Result<Box<Sexpr>, WireError>)
    requires
        old(channel).wf(),
    ensures
        final(channel).wf(),
        final(channel).journal() == old(channel).journal(),
        match parse(old(channel).pending()) {
            Ok((v, n)) => r is Ok && r->Ok_0@ == v && final(channel).pending() == old(
                channel,
            ).pending().skip(n as int),
            Err(e) => r == Err::<Box<Sexpr>, WireError>(e) && final(channel).pending() == old(
                channel,
            ).pending(),
        },
{
    match decode_at(channel.input.as_slice(), channel.cursor) {
        Ok((sexpr, n)) => {
            assert(channel.input@.skip(channel.cursor + n) =~= channel.pending().skip(n as int));
            channel.cursor = channel.cursor + n;
            Ok(Box::new(sexpr))
        },
        Err(e) => Err(e),
    }
}

/// Reads the value at the front of the input and takes its words off the
/// input.
pub fn read_sexpr(channel: &mut Channel) -> (sexpr: Box<Sexpr>)
    requires
        old(channel).wf(),
        parse(old(channel).pending()) is Ok,
    ensures
        final(channel).wf(),
        sexpr@ == parse(old(channel).pending())->Ok_0.0,
        final(channel).pending() == old(channel).pending().skip(
            parse(old(channel).pending())->Ok_0.1 as int,
        ),
        final(channel).journal() == old(channel).journal(),
{
    match try_read_sexpr(channel) {
        Ok(sexpr) => sexpr,
        Err(_) => unreached(),
    }
}

/// Appends the wire form of the value to the journal, and returns the value
/// given, so that calls can be chained. The input is not touched.
pub fn commit_sexpr<'a>(channel: &mut Channel, sexpr: &'a Sexpr) -> (given: &'a Sexpr)
    requires
        old(channel).wf(),
        fits(sexpr@),
    ensures
        final(channel).wf(),
        *given == *sexpr,
        final(channel).journal() == old(channel).journal() + wire(sexpr@),
        final(channel).pending() == old(channel).pending(),
{
    encode_into(sexpr, &mut channel.output);
    sexpr
}

/// Reads the vector at the front of the input, if one stands there, and takes
/// its words off the input. Where none stands there, says why and leaves the
/// channel as it is.
pub fn try_read_vector(channel: &mut Channel) -> (r: Result<Box<Vec<u32>>, WireError>)
    requires
        old(channel).wf(),
    ensures
        final(channel).wf(),
        final(channel).journal() == old(channel).journal(),
        match parse_vector(old(channel).pending()) {
            Ok((vec, n)) => r is Ok && r->Ok_0@ == vec && final(channel).pending() == old(
                channel,
            ).pending().skip(n as int),
            Err(e) => r == Err::<Box<Vec<u32>>, WireError>(e) && final(channel).pending() == old(
                channel,
            ).pending(),
        },
{
    let start = channel.cursor;
    let len = channel.input.len();
    let left = len - start;
    if left == 0 {
        return Err(WireError::UnexpectedEnd);
    }
    let n = channel.input[start];
    if left - 1 < n as usize {
        return Err(WireError::UnexpectedEnd);
    }
    let ghost pending = channel.pending();
    let mut vec: Vec<u32> = Vec::new();
    let mut i: usize = 0;
    while i < n as usize
        invariant
            i <= n,
            len == channel.input@.len(),
            start + 1 + n <= len,
            channel.cursor == start,
            pending == channel.input@.skip(start as int),
            vec@ == pending.subrange(1, 1 + i),
        decreases n - i,
    {
        let word = channel.input[start + 1 + i];
        vec.push(word);
        i += 1;
    }
    channel.cursor = start + 1 + n as usize;
    Ok(Box::new(vec))
}

/// Reads the vector at the front of the input and takes its words off the
/// input.
pub fn read_vector(channel: &mut Channel) -> (vec: Box<Vec<u32>>)
    requires
        old(channel).wf(),
        parse_vector(old(channel).pending()) is Ok,
    ensures
        final(channel).wf(),
        vec@ == parse_vector(old(channel).pending())->Ok_0.0,
        final(channel).pending() == old(channel).pending().skip(
            parse_vector(old(channel).pending())->Ok_0.1 as int,
        ),
        final(channel).journal() == old(channel).journal(),
{
    match try_read_vector(channel) {
        Ok(vec) => vec,
        Err(_) => unreached(),
    }
}

/// Appends the wire form of the vector to the journal, and returns the
/// vector given. The input is not touched.
pub fn commit_vector<'a>(channel: &mut Channel, vec: &'a Vec<u32>) -> (given: &'a Vec<u32>)
    requires
        old(channel).wf(),
        vec@.len() <= u32::MAX,
    ensures
        final(channel).wf(),
        *given == *vec,
        final(channel).journal() == old(channel).journal() + wire_vector(vec@),
        final(channel).pending() == old(channel).pending(),
{
    let n = vec.len();
    let ghost before = channel.output@;
    channel.output.push(n as u32);
    let mut i: usize = 0;
    while i < n
        invariant
            i <= n,
            n == vec@.len(),
            channel.cursor == old(channel).cursor,
            channel.input == old(channel).input,
            channel.cursor <= channel.input@.len(),
            channel.output@ == before.push(n as u32) + vec@.subrange(0, i as int),
        decreases n - i,
    {
        channel.output.push(vec[i]);
        i += 1;
    }
    vec
}

/// Reads the word at the front of the input, if there is one, and takes it
/// off the input. Where the input is at its end, says so and leaves the
/// channel as it is.
pub fn try_read_integer(channel: &mut Channel) -> (r: Result<u32, WireError>)
    requires
        old(channel).wf(),
    ensures
        final(channel).wf(),
        final(channel).journal() == old(channel).journal(),
        match parse_word(old(channel).pending()) {
            Ok((word, n)) => r == Ok::<u32, WireError>(word) && final(channel).pending() == old(
                channel,
            ).pending().skip(n as int),
            Err(e) => r == Err::<u32, WireError>(e) && final(channel).pending() == old(
                channel,
            ).pending(),
        },
{
    let start = channel.cursor;
    if channel.input.len() - start == 0 {
        return Err(WireError::UnexpectedEnd);
    }
    let word = channel.input[start];
    channel.cursor = start + 1;
    Ok(word)
}

/// Reads the word at the front of the input and takes it off the input.
pub fn read_integer(channel: &mut Channel) -> (word: u32)
    requires
        old(channel).wf(),
        old(channel).pending().len() > 0,
    ensures
        final(channel).wf(),
        word == old(channel).pending()[0],
        final(channel).pending() == old(channel).pending().skip(1),
        final(channel).journal() == old(channel).journal(),
{
    match try_read_integer(channel) {
        Ok(word) => word,
        Err(_) => unreached(),
    }
}

/// Appends the word to the journal, and returns it. The input is not touched.
pub fn commit_integer(channel: &mut Channel, word: u32) -> (given: u32)
    requires
        old(channel).wf(),
    ensures
        final(channel).wf(),
        given == word,
        final(channel).journal() == old(channel).journal().push(word),
        final(channel).pending() == old(channel).pending(),
{
    channel.output.push(word);
    word
}

} // verus!
