//! The wire form: how a value, a vector and a word are laid out in 32-bit
//! words for the exchange with the host.
//!
//! A value starts with a tag word that tells its variant. An integer follows
//! its tag as one word in two's complement. A text follows its tag as the
//! number of its bytes and then the bytes, four to a word, the first byte
//! lowest, the last word filled up with zero bytes. The empty value is its
//! tag alone. A pair is its tag, then its head, then its tail. A vector is the
//! number of its words and then the words.

use crate::sexpr::{pair, Sexpr, Value};
use crate::text::text_of;
use vstd::prelude::*;
use vstd::utf8::{decode_utf8, encode_utf8, valid_utf8};

verus! {

/// The tag of an integer.
pub const TAG_INTEGER: u32 = 0;

/// The tag of a text.
pub const TAG_STRING: u32 = 1;

/// The tag of the empty value.
pub const TAG_NULL: u32 = 2;

/// The tag of a pair.
pub const TAG_CONS: u32 = 3;

/// The word made of four bytes, the first one lowest.
pub open spec fn le_word(b0: u8, b1: u8, b2: u8, b3: u8) -> u32 {
    (b0 as int + 256 * (b1 as int) + 65536 * (b2 as int) + 16777216 * (b3 as int)) as u32
}

/// Byte `k` of a word, byte 0 being the lowest.
pub open spec fn le_byte(word: u32, k: int) -> u8
    recommends
        0 <= k < 4,
{
    if k == 0 {
        (word as int % 256) as u8
    } else if k == 1 {
        (word as int / 256 % 256) as u8
    } else if k == 2 {
        (word as int / 65536 % 256) as u8
    } else {
        (word as int / 16777216) as u8
    }
}

/// Byte `i` of a run of bytes that zero bytes follow.
pub open spec fn padded(bytes: Seq<u8>, i: int) -> u8 {
    if 0 <= i < bytes.len() {
        bytes[i]
    } else {
        0
    }
}

/// The number of words that `n` bytes take.
pub open spec fn words_for(n: nat) -> nat {
    (n + 3) / 4
}

/// The words that hold a run of bytes.
pub open spec fn pack(bytes: Seq<u8>) -> Seq<u32> {
    Seq::new(
        words_for(bytes.len()),
        |k: int|
            le_word(
                padded(bytes, 4 * k),
                padded(bytes, 4 * k + 1),
                padded(bytes, 4 * k + 2),
                padded(bytes, 4 * k + 3),
            ),
    )
}

/// The first `n` bytes that the words hold.
pub open spec fn unpack(words: Seq<u32>, n: nat) -> Seq<u8>
    recommends
        words_for(n) <= words.len(),
{
    Seq::new(n, |i: int| le_byte(words[i / 4], i % 4))
}

/// The word of a signed number, in two's complement.
pub open spec fn signed_word(i: int) -> u32
    recommends
        i32::MIN <= i <= i32::MAX,
{
    if i >= 0 {
        i as u32
    } else {
        (i + 0x1_0000_0000) as u32
    }
}

/// The signed number of a word, in two's complement.
pub open spec fn word_signed(word: u32) -> int {
    if word <= i32::MAX {
        word as int
    } else {
        word - 0x1_0000_0000
    }
}

/// Whether the wire form can hold the value: each of its integers is a
/// 32-bit signed number, and the number of bytes of each of its texts fits in
/// a word.
pub open spec fn fits(v: Value) -> bool
    decreases v,
{
    match v {
        Value::Integer(i) => i32::MIN <= i <= i32::MAX,
        Value::Text(s) => encode_utf8(s).len() <= u32::MAX,
        Value::Empty => true,
        Value::Pair(hd, tl) => fits(*hd) && fits(*tl),
    }
}

/// The wire form of a value.
pub open spec fn wire(v: Value) -> Seq<u32>
    decreases v,
{
    match v {
        Value::Integer(i) => seq![TAG_INTEGER, signed_word(i)],
        Value::Text(s) => seq![TAG_STRING, encode_utf8(s).len() as u32] + pack(encode_utf8(s)),
        Value::Empty => seq![TAG_NULL],
        Value::Pair(hd, tl) => seq![TAG_CONS] + wire(*hd) + wire(*tl),
    }
}

/// The wire form of a vector.
pub open spec fn wire_vector(vec: Seq<u32>) -> Seq<u32>
    recommends
        vec.len() <= u32::MAX,
{
    seq![vec.len() as u32] + vec
}

/// The vector that the words start with, and the number of words that it
/// takes.
pub open spec fn parse_vector(words: Seq<u32>) -> Result<(Seq<u32>, nat), WireError> {
    if words.len() == 0 || words.len() - 1 < words[0] {
        Err(WireError::UnexpectedEnd)
    } else {
        Ok((words.subrange(1, 1 + words[0]), (1 + words[0]) as nat))
    }
}

/// The word that the words start with, and the number of words that it
/// takes, which is one.
pub open spec fn parse_word(words: Seq<u32>) -> Result<(u32, nat), WireError> {
    if words.len() == 0 {
        Err(WireError::UnexpectedEnd)
    } else {
        Ok((words[0], 1))
    }
}

/// Packing bytes and unpacking as many gives the bytes back, whatever words
/// follow.
pub proof fn lemma_unpack_pack(bytes: Seq<u8>, rest: Seq<u32>)
    ensures
        unpack(pack(bytes) + rest, bytes.len()) == bytes,
{
    let words = pack(bytes) + rest;
    assert forall|i: int| 0 <= i < bytes.len() implies le_byte(#[trigger] words[i / 4], i % 4)
        == bytes[i] by {
        let k = i / 4;
        lemma_le_byte_le_word(
            padded(bytes, 4 * k),
            padded(bytes, 4 * k + 1),
            padded(bytes, 4 * k + 2),
            padded(bytes, 4 * k + 3),
        );
    }
}

/// The quotient and the remainder of `r + q * d` by `d`, for `r` below `d`.
proof fn lemma_quotient(r: int, q: int, d: int)
    requires
        0 <= r < d,
    ensures
        (r + q * d) / d == q,
        (r + q * d) % d == r,
{
    vstd::arithmetic::div_mod::lemma_fundamental_div_mod_converse(r + q * d, d, q, r);
}

/// The bytes of a word made of four bytes are those four.
pub proof fn lemma_le_byte_le_word(b0: u8, b1: u8, b2: u8, b3: u8)
    ensures
        le_byte(le_word(b0, b1, b2, b3), 0) == b0,
        le_byte(le_word(b0, b1, b2, b3), 1) == b1,
        le_byte(le_word(b0, b1, b2, b3), 2) == b2,
        le_byte(le_word(b0, b1, b2, b3), 3) == b3,
{
    let x = b0 as int + 256 * (b1 as int) + 65536 * (b2 as int) + 16777216 * (b3 as int);
    let high = b2 as int + 256 * (b3 as int);
    assert(le_word(b0, b1, b2, b3) == x);
    assert(x == b0 as int + 256 * (b1 as int + 256 * high));
    lemma_quotient(b0 as int, b1 as int + 256 * high, 256);
    lemma_quotient(b1 as int, high, 256);
    assert(x == (b0 as int + 256 * (b1 as int)) + 65536 * high);
    lemma_quotient(b0 as int + 256 * (b1 as int), high, 65536);
    lemma_quotient(b2 as int, b3 as int, 256);
    lemma_quotient(b0 as int + 256 * (b1 as int) + 65536 * (b2 as int), b3 as int, 16777216);
}

/// Appends the words that hold a run of bytes.
pub fn push_packed(out: &mut Vec<u32>, bytes: &[u8])
    ensures
        final(out)@ == old(out)@ + pack(bytes@),
{
    let n = bytes.len();
    let mut i: usize = 0;
    while i < n
        invariant
            n == bytes@.len(),
            i <= n,
            i % 4 == 0 || i == n,
            out@ == old(out)@ + pack(bytes@).subrange(0, words_for(i as nat) as int),
        decreases n - i,
    {
        let left = n - i;
        let b0 = bytes[i];
        let b1 = if left > 1 {
            bytes[i + 1]
        } else {
            0
        };
        let b2 = if left > 2 {
            bytes[i + 2]
        } else {
            0
        };
        let b3 = if left > 3 {
            bytes[i + 3]
        } else {
            0
        };
        let word: u32 = b0 as u32 + 256 * (b1 as u32) + 65536 * (b2 as u32)
            + 16777216 * (b3 as u32);
        proof {
            let k = (i / 4) as int;
            assert(pack(bytes@).subrange(0, k + 1) =~= pack(bytes@).subrange(0, k).push(word));
        }
        out.push(word);
        i = if left > 4 {
            i + 4
        } else {
            n
        };
    }
}

/// Appends the wire form of a value.
pub fn encode_into(sexpr: &Sexpr, out: &mut Vec<u32>)
    requires
        fits(sexpr@),
    ensures
        final(out)@ == old(out)@ + wire(sexpr@),
    decreases sexpr@.size(),
{
    let mut rest = sexpr;
    loop
        invariant
            fits(rest@),
            rest@.size() <= sexpr@.size(),
            old(out)@ + wire(sexpr@) == out@ + wire(rest@),
        ensures
            !(rest is Cons),
        decreases rest@.size(),
    {
        match rest {
            Sexpr::Cons(hd, tl) => {
                out.push(TAG_CONS);
                encode_into(hd, out);
                rest = &**tl;
            },
            _ => {
                break ;
            },
        }
    }
    match rest {
        Sexpr::Integer(i) => {
            let word: u32 = if *i >= 0 {
                *i as u32
            } else {
                (*i as i64 + 0x1_0000_0000) as u32
            };
            out.push(TAG_INTEGER);
            out.push(word);
        },
        Sexpr::String(s) => {
            let bytes = s.as_str().as_bytes();
            out.push(TAG_STRING);
            out.push(bytes.len() as u32);
            push_packed(out, bytes);
        },
        _ => {
            out.push(TAG_NULL);
        },
    }
}

/// The wire form of a value.
pub fn encode(sexpr: &Sexpr) -> (words: Vec<u32>)
    requires
        fits(sexpr@),
    ensures
        words@ == wire(sexpr@),
{
    let mut words = Vec::new();
    encode_into(sexpr, &mut words);
    words
}

/// Whether the wire form can hold the value, that is, whether `encode` takes
/// it.
pub fn encodable(sexpr: &Sexpr) -> (b: bool)
    ensures
        b == fits(sexpr@),
    decreases sexpr@.size(),
{
    let mut rest = sexpr;
    loop
        invariant
            rest@.size() <= sexpr@.size(),
            fits(sexpr@) == fits(rest@),
        ensures
            !(rest is Cons),
        decreases rest@.size(),
    {
        match rest {
            Sexpr::Cons(hd, tl) => {
                if !encodable(hd) {
                    return false;
                }
                rest = &**tl;
            },
            _ => {
                break ;
            },
        }
    }
    match rest {
        Sexpr::String(s) => s.as_str().as_bytes().len() <= u32::MAX as usize,
        _ => true,
    }
}

/// Why words are not the wire form of a value.
#[derive(Clone, Copy, Debug, PartialEq, Eq, Structural)]
pub enum WireError {
    /// The words end before the value does.
    UnexpectedEnd,
    /// A value starts with a word that is no tag.
    BadTag,
    /// The bytes of a text are not valid UTF-8.
    BadText,
}

/// The value that the words start with, and the number of words that it
/// takes. The filling bytes after a text are not looked at. The head of a
/// pair never takes more words than there are (`lemma_parse_within`): the
/// test for it only shows that the tail is looked for inside the words.
pub open spec fn parse(words: Seq<u32>) -> Result<(Value, nat), WireError>
    decreases words.len(),
{
    if words.len() == 0 {
        Err(WireError::UnexpectedEnd)
    } else if words[0] == TAG_INTEGER {
        if words.len() < 2 {
            Err(WireError::UnexpectedEnd)
        } else {
            Ok((Value::Integer(word_signed(words[1])), 2))
        }
    } else if words[0] == TAG_STRING {
        if words.len() < 2 || words.len() - 2 < words_for(words[1] as nat) {
            Err(WireError::UnexpectedEnd)
        } else {
            let bytes = unpack(words.skip(2), words[1] as nat);
            if valid_utf8(bytes) {
                Ok((Value::Text(decode_utf8(bytes)), 2 + words_for(words[1] as nat)))
            } else {
                Err(WireError::BadText)
            }
        }
    } else if words[0] == TAG_NULL {
        Ok((Value::Empty, 1))
    } else if words[0] == TAG_CONS {
        match parse(words.skip(1)) {
            Err(e) => Err(e),
            Ok((hd, n)) => if 1 + n <= words.len() {
                match parse(words.skip(1 + n as int)) {
                    Err(e) => Err(e),
                    Ok((tl, m)) => Ok((pair(hd, tl), 1 + n + m)),
                }
            } else {
                Err(WireError::UnexpectedEnd)
            },
        }
    } else {
        Err(WireError::BadTag)
    }
}

/// A value takes at least one word and no more words than there are.
pub proof fn lemma_parse_within(words: Seq<u32>)
    ensures
        parse(words) is Ok ==> 1 <= parse(words)->Ok_0.1 <= words.len(),
    decreases words.len(),
{
    if words.len() > 0 && words[0] == TAG_CONS {
        lemma_parse_within(words.skip(1));
        if parse(words.skip(1)) is Ok {
            let n = parse(words.skip(1))->Ok_0.1;
            lemma_parse_within(words.skip(1 + n as int));
        }
    }
}

/// The first `n` bytes that the words from `start` on hold.
fn unpack_at(words: &[u32], start: usize, n: usize) -> (bytes: Vec<u8>)
    requires
        start <= words@.len(),
        words_for(n as nat) <= words@.len() - start,
    ensures
        bytes@ == unpack(words@.skip(start as int), n as nat),
{
    let len = words.len();
    let mut bytes: Vec<u8> = Vec::new();
    let mut i: usize = 0;
    while i < n
        invariant
            i <= n,
            len == words@.len(),
            start <= words@.len(),
            words_for(n as nat) <= words@.len() - start,
            bytes@ == unpack(words@.skip(start as int), i as nat),
        decreases n - i,
    {
        let word = words[start + i / 4];
        let k = i % 4;
        let byte: u8 = if k == 0 {
            (word % 256) as u8
        } else if k == 1 {
            (word / 256 % 256) as u8
        } else if k == 2 {
            (word / 65536 % 256) as u8
        } else {
            (word / 16777216) as u8
        };
        bytes.push(byte);
        i += 1;
    }
    bytes
}

/// Reads the value that starts at `start`. Gives the value and the number of
/// words that it takes, or the reason why no value starts there.
pub fn decode_at(words: &[u32], start: usize) -> (r: Result<(Sexpr, usize), WireError>)
    requires
        start <= words@.len(),
    ensures
        match parse(words@.skip(start as int)) {
            Ok((v, n)) => r is Ok && r->Ok_0.0@ == v && r->Ok_0.1 == n,
            Err(e) => r == Err::<(Sexpr, usize), WireError>(e),
        },
        r is Ok ==> 1 <= r->Ok_0.1 && start + r->Ok_0.1 <= words@.len() <= usize::MAX,
    decreases words@.len() - start,
{
    let ghost from = words@.skip(start as int);
    let left = words.len() - start;
    if left == 0 {
        return Err(WireError::UnexpectedEnd);
    }
    let tag = words[start];
    if tag == TAG_INTEGER {
        if left < 2 {
            return Err(WireError::UnexpectedEnd);
        }
        let word = words[start + 1];
        let value: i32 = if word <= 0x7fff_ffff {
            word as i32
        } else {
            (word as i64 - 0x1_0000_0000) as i32
        };
        Ok((Sexpr::Integer(value), 2))
    } else if tag == TAG_STRING {
        if left < 2 {
            return Err(WireError::UnexpectedEnd);
        }
        let n = words[start + 1];
        let needed = n / 4 + (if n % 4 == 0 {
            0u32
        } else {
            1u32
        });
        if left - 2 < needed as usize {
            return Err(WireError::UnexpectedEnd);
        }
        let bytes = unpack_at(words, start + 2, n as usize);
        assert(words@.skip(start + 2) =~= from.skip(2));
        match text_of(bytes.as_slice()) {
            Some(text) => Ok((Sexpr::String(text), 2 + needed as usize)),
            None => Err(WireError::BadText),
        }
    } else if tag == TAG_NULL {
        Ok((Sexpr::Null, 1))
    } else if tag == TAG_CONS {
        assert(words@.skip(start + 1) =~= from.skip(1));
        let (hd, n) = match decode_at(words, start + 1) {
            Ok(found) => found,
            Err(e) => {
                return Err(e);
            },
        };
        assert(words@.skip(start + 1 + n) =~= from.skip(1 + n as int));
        let (tl, m) = match decode_at(words, start + 1 + n) {
            Ok(found) => found,
            Err(e) => {
                return Err(e);
            },
        };
        Ok((Sexpr::Cons(Box::new(hd), Box::new(tl)), 1 + n + m))
    } else {
        Err(WireError::BadTag)
    }
}

/// Reading the wire form of a value gives that value back, and takes just
/// the words of the wire form, whatever words follow it.
pub proof fn lemma_parse_wire(v: Value, rest: Seq<u32>)
    requires
        fits(v),
    ensures
        parse(wire(v) + rest) == Ok::<(Value, nat), WireError>((v, wire(v).len())),
    decreases v,
{
    let words = wire(v) + rest;
    match v {
        Value::Integer(i) => {
        },
        Value::Text(s) => {
            let bytes = encode_utf8(s);
            assert(words.skip(2) =~= pack(bytes) + rest);
            lemma_unpack_pack(bytes, rest);
            vstd::utf8::encode_utf8_valid_utf8(s);
            vstd::utf8::encode_utf8_decode_utf8(s);
        },
        Value::Empty => {
        },
        Value::Pair(hd, tl) => {
            assert(words.skip(1) =~= wire(*hd) + (wire(*tl) + rest));
            lemma_parse_wire(*hd, wire(*tl) + rest);
            let n = wire(*hd).len();
            assert(words.skip(1 + n as int) =~= wire(*tl) + rest);
            lemma_parse_wire(*tl, rest);
        },
    }
}

/// Two values with the same wire form are the same value.
pub proof fn lemma_wire_injective(v1: Value, v2: Value)
    requires
        fits(v1),
        fits(v2),
        wire(v1) == wire(v2),
    ensures
        v1 == v2,
{
    lemma_parse_wire(v1, Seq::empty());
    lemma_parse_wire(v2, Seq::empty());
}

} // verus!
