//! The operations on values that a foreign caller is offered: constructors,
//! accessors, mutators, predicates and release. A caller owns what a
//! constructor returns and hands it back through a release operation; what an
//! accessor returns is borrowed from its argument.

use crate::sexpr::{pair, Sexpr, Value};
use crate::text::{text_bytes, text_of};
use vstd::pervasive::unreached;
use vstd::prelude::*;
use vstd::slice::slice_to_vec;
use vstd::utf8::{decode_utf8, valid_utf8};

verus! {

/// A new pair that owns a copy of `car` as its head and a copy of `cdr` as
/// its tail.
pub fn cons(car: &Sexpr, cdr: &Sexpr) -> (sexpr: Box<Sexpr>)
    ensures
        *sexpr == Sexpr::Cons(Box::new(*car), Box::new(*cdr)),
        sexpr@ == pair(car@, cdr@),
{
    Box::new(Sexpr::Cons(Box::new(car.clone()), Box::new(cdr.clone())))
}

/// The head of a pair, borrowed from it.
pub fn car(sexpr: &Sexpr) -> (head: &Sexpr)
    requires
        sexpr is Cons,
    ensures
        *head == *sexpr->Cons_0,
        head@ == sexpr@.head(),
{
    match sexpr {
        Sexpr::Cons(hd, _tl) => hd,
        _ => unreached(),
    }
}

/// The tail of a pair, borrowed from it.
pub fn cdr(sexpr: &Sexpr) -> (tail: &Sexpr)
    requires
        sexpr is Cons,
    ensures
        *tail == *sexpr->Cons_1,
        tail@ == sexpr@.tail(),
{
    match sexpr {
        Sexpr::Cons(_hd, tl) => tl,
        _ => unreached(),
    }
}

/// Replaces the head of a pair in place by a copy of `new_hd`, and returns
/// `new_hd`. The tail stays as it is.
pub fn set_car<'a>(sexpr: &mut Sexpr, new_hd: &'a Sexpr) -> (given: &'a Sexpr)
    requires
        *old(sexpr) is Cons,
    ensures
        *final(sexpr) == Sexpr::Cons(Box::new(*new_hd), old(sexpr)->Cons_1),
        final(sexpr)@ == pair(new_hd@, old(sexpr)@.tail()),
        *given == *new_hd,
{
    match sexpr {
        Sexpr::Cons(hd, _tl) => {
            *hd = Box::new(new_hd.clone());
            new_hd
        },
        _ => unreached(),
    }
}

/// Replaces the tail of a pair in place by a copy of `new_tl`, and returns
/// `new_tl`. The head stays as it is.
pub fn set_cdr<'a>(sexpr: &mut Sexpr, new_tl: &'a Sexpr) -> (given: &'a Sexpr)
    requires
        *old(sexpr) is Cons,
    ensures
        *final(sexpr) == Sexpr::Cons(old(sexpr)->Cons_0, Box::new(*new_tl)),
        final(sexpr)@ == pair(old(sexpr)@.head(), new_tl@),
        *given == *new_tl,
{
    match sexpr {
        Sexpr::Cons(_hd, tl) => {
            *tl = Box::new(new_tl.clone());
            new_tl
        },
        _ => unreached(),
    }
}

/// Whether the value is a pair.
pub fn is_pair(sexpr: &Sexpr) -> (b: bool)
    ensures
        b == (sexpr@ is Pair),
        b == (sexpr is Cons),
{
    matches!(sexpr, Sexpr::Cons(_, _))
}

/// Whether the value is the empty value.
pub fn is_null(sexpr: &Sexpr) -> (b: bool)
    ensures
        b == (sexpr@ is Empty),
        b == (sexpr is Null),
{
    matches!(sexpr, Sexpr::Null)
}

/// Whether the value is an integer.
pub fn is_integer(sexpr: &Sexpr) -> (b: bool)
    ensures
        b == (sexpr@ is Integer),
        b == (sexpr is Integer),
{
    matches!(sexpr, Sexpr::Integer(_))
}

/// Whether the value is a text.
pub fn is_string(sexpr: &Sexpr) -> (b: bool)
    ensures
        b == (sexpr@ is Text),
        b == (sexpr is String),
{
    matches!(sexpr, Sexpr::String(_))
}

/// Releases an owned value with all that it owns. The result is always 0.
pub fn drop_sexpr(sexpr: Box<Sexpr>) -> (status: u32)
    ensures
        status == 0,
{
    let _ = sexpr;
    0
}

/// A new integer value.
pub fn integer(value: i32) -> (sexpr: Box<Sexpr>)
    ensures
        sexpr@ == Value::Integer(value as int),
{
    Box::new(Sexpr::Integer(value))
}

/// The empty value. It is shared, and never released.
pub fn null() -> (sexpr: &'static Sexpr)
    ensures
        sexpr@ == Value::Empty,
{
    &Sexpr::Null
}

/// Whether the bytes are valid UTF-8, that is, whether `string` takes them.
pub fn is_unicode(bytes: &[u8]) -> (b: bool)
    ensures
        b == valid_utf8(bytes@),
{
    text_of(bytes).is_some()
}

/// A new text value made of the given bytes, which are UTF-8.
pub fn string(bytes: &[u8]) -> (sexpr: Box<Sexpr>)
    requires
        valid_utf8(bytes@),
    ensures
        sexpr@ == Value::Text(decode_utf8(bytes@)),
        text_bytes(sexpr@) == bytes@,
{
    match text_of(bytes) {
        Some(text) => Box::new(Sexpr::String(text)),
        None => unreached(),
    }
}

/// The number that an integer value holds.
pub fn as_integer(sexpr: &Sexpr) -> (value: i32)
    requires
        sexpr is Integer,
    ensures
        sexpr@ == Value::Integer(value as int),
{
    match sexpr {
        Sexpr::Integer(value) => *value,
        _ => unreached(),
    }
}

/// Whether `alloc_string` takes the value: a text none of whose bytes is the
/// terminator.
pub fn is_c_string(sexpr: &Sexpr) -> (b: bool)
    ensures
        b == (sexpr@ is Text && !text_bytes(sexpr@).contains(0u8)),
{
    match sexpr {
        Sexpr::String(value) => {
            let bytes = value.as_str().as_bytes();
            let mut i: usize = 0;
            while i < bytes.len()
                invariant
                    i <= bytes@.len(),
                    sexpr@ is Text,
                    bytes@ == text_bytes(sexpr@),
                    forall|j: int| 0 <= j < i ==> bytes@[j] != 0u8,
                decreases bytes@.len() - i,
            {
                if bytes[i] == 0 {
                    return false;
                }
                i += 1;
            }
            true
        },
        _ => false,
    }
}

/// A fresh buffer with the bytes of a text and the terminator after them. The
/// caller owns the buffer and releases it with `drop_string`.
pub fn alloc_string(sexpr: &Sexpr) -> (buffer: Vec<u8>)
    requires
        sexpr@ is Text,
        !text_bytes(sexpr@).contains(0u8),
    ensures
        buffer@ == text_bytes(sexpr@).push(0u8),
        buffer@.last() == 0u8,
        forall|i: int| 0 <= i < buffer@.len() - 1 ==> buffer@[i] != 0u8,
{
    match sexpr {
        Sexpr::String(value) => {
            let mut buffer = slice_to_vec(value.as_str().as_bytes());
            buffer.push(0);
            buffer
        },
        _ => unreached(),
    }
}

/// Releases a buffer that `alloc_string` returned. The result is always 0.
pub fn drop_string(buffer: Vec<u8>) -> (status: u32)
    ensures
        status == 0,
{
    let _ = buffer;
    0
}

/// Whether two values are equal: the same variant, and the same number, the
/// same text, or equal heads and equal tails.
pub fn is_equal(sexpr1: &Sexpr, sexpr2: &Sexpr) -> (b: bool)
    ensures
        b == (sexpr1@ == sexpr2@),
{
    *sexpr1 == *sexpr2
}

} // verus!
