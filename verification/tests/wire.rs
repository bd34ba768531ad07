use risc0_zkvm::serde::{from_slice, to_vec};
use scheme_core::boundary::{cons, integer, null, string};
use scheme_core::sexpr::Sexpr;
use scheme_core::wire::{decode_at, encodable, encode, encode_into, WireError};
use serde::ser::SerializeTupleVariant;

/// An enum of the shape of `Sexpr`, which hands each variant to a serializer
/// under its index.
enum Mirror {
    Integer(i32),
    String(String),
    Null,
    Cons(Box<Mirror>, Box<Mirror>),
}

impl serde::Serialize for Mirror {
    fn serialize<S: serde::Serializer>(&self, serializer: S) -> Result<S::Ok, S::Error> {
        match self {
            Mirror::Integer(i) => serializer.serialize_newtype_variant("Sexpr", 0, "Integer", i),
            Mirror::String(s) => serializer.serialize_newtype_variant("Sexpr", 1, "String", s),
            Mirror::Null => serializer.serialize_unit_variant("Sexpr", 2, "Null"),
            Mirror::Cons(hd, tl) => {
                let mut fields = serializer.serialize_tuple_variant("Sexpr", 3, "Cons", 2)?;
                fields.serialize_field(hd)?;
                fields.serialize_field(tl)?;
                fields.end()
            }
        }
    }
}

fn mirror(sexpr: &Sexpr) -> Mirror {
    match sexpr {
        Sexpr::Integer(i) => Mirror::Integer(*i),
        Sexpr::String(s) => Mirror::String(s.clone()),
        Sexpr::Null => Mirror::Null,
        Sexpr::Cons(hd, tl) => Mirror::Cons(Box::new(mirror(hd)), Box::new(mirror(tl))),
    }
}

fn samples() -> Vec<Sexpr> {
    vec![
        Sexpr::Null,
        Sexpr::Integer(0),
        Sexpr::Integer(1),
        Sexpr::Integer(-1),
        Sexpr::Integer(i32::MAX),
        Sexpr::Integer(i32::MIN),
        Sexpr::String(String::new()),
        Sexpr::String("a".to_string()),
        Sexpr::String("ab".to_string()),
        Sexpr::String("abc".to_string()),
        Sexpr::String("abcd".to_string()),
        Sexpr::String("abcde".to_string()),
        Sexpr::String("gr\u{fc}n \u{1f600} \u{0}".to_string()),
        *cons(&integer(1), null()),
        *cons(&integer(1), &integer(2)),
        *cons(
            &cons(&string(b"k"), &integer(-7)),
            &cons(&string(b"hello, world"), &cons(null(), null())),
        ),
    ]
}

#[test]
fn the_empty_value_is_its_tag() {
    assert_eq!(encode(null()), vec![2]);
}

#[test]
fn an_integer_is_its_tag_and_one_word() {
    assert_eq!(encode(&integer(5)), vec![0, 5]);
    assert_eq!(encode(&integer(-1)), vec![0, 0xffff_ffff]);
    assert_eq!(encode(&integer(-6)), vec![0, 0xffff_fffa]);
    assert_eq!(encode(&integer(i32::MIN)), vec![0, 0x8000_0000]);
    assert_eq!(encode(&integer(i32::MAX)), vec![0, 0x7fff_ffff]);
}

#[test]
fn a_text_is_its_tag_its_length_and_its_bytes() {
    assert_eq!(encode(&string(b"")), vec![1, 0]);
    assert_eq!(encode(&string(b"a")), vec![1, 1, 0x0000_0061]);
    assert_eq!(encode(&string(b"abc")), vec![1, 3, 0x0063_6261]);
    assert_eq!(encode(&string(b"abcd")), vec![1, 4, 0x6463_6261]);
    assert_eq!(
        encode(&string(b"abcde")),
        vec![1, 5, 0x6463_6261, 0x0000_0065]
    );
}

#[test]
fn a_pair_is_its_tag_its_head_and_its_tail() {
    assert_eq!(encode(&cons(&integer(1), null())), vec![3, 0, 1, 2]);
    assert_eq!(
        encode(&cons(&integer(1), &cons(&string(b"x"), null()))),
        vec![3, 0, 1, 3, 1, 1, 0x78, 2]
    );
}

#[test]
fn encoding_appends() {
    let mut out = vec![9, 9];
    encode_into(&integer(4), &mut out);
    encode_into(null(), &mut out);
    assert_eq!(out, vec![9, 9, 0, 4, 2]);
}

#[test]
fn decoding_gives_back_what_was_encoded() {
    for sample in samples() {
        assert!(encodable(&sample));
        let mut words = encode(&sample);
        let n = words.len();
        assert_eq!(decode_at(&words, 0), Ok((sample.clone(), n)));
        words.push(77);
        assert_eq!(decode_at(&words, 0), Ok((sample.clone(), n)));
        let mut shifted = vec![5, 5, 5];
        shifted.extend_from_slice(&words);
        assert_eq!(decode_at(&shifted, 3), Ok((sample, n)));
    }
}

#[test]
fn the_words_are_those_of_the_zkvm_serializer() {
    for sample in samples() {
        assert_eq!(encode(&sample), to_vec(&mirror(&sample)).unwrap());
    }
}

#[test]
fn integers_and_texts_are_read_back_by_the_zkvm_deserializer() {
    for n in [0, 1, -1, 255, -256, i32::MAX, i32::MIN] {
        let words = encode(&integer(n));
        assert_eq!(from_slice::<i32, u32>(&words[1..]), Ok(n));
        assert_eq!(to_vec(&n).unwrap(), words[1..]);
    }
    for text in ["", "a", "ab", "abc", "abcd", "abcde", "gr\u{fc}n \u{1f600}"] {
        let words = encode(&string(text.as_bytes()));
        assert_eq!(from_slice::<String, u32>(&words[1..]), Ok(text.to_string()));
        assert_eq!(to_vec(text).unwrap(), words[1..]);
    }
}

#[test]
fn the_filling_bytes_of_a_text_are_not_looked_at() {
    assert_eq!(
        decode_at(&[1, 1, 0xaabb_cc61], 0),
        Ok((Sexpr::String("a".to_string()), 3))
    );
    assert_eq!(
        from_slice::<String, u32>(&[1, 0xaabb_cc61]),
        Ok("a".to_string())
    );
}

#[test]
fn words_that_end_too_early() {
    assert_eq!(decode_at(&[], 0), Err(WireError::UnexpectedEnd));
    assert_eq!(decode_at(&[0], 0), Err(WireError::UnexpectedEnd));
    assert_eq!(decode_at(&[1], 0), Err(WireError::UnexpectedEnd));
    assert_eq!(decode_at(&[1, 5, 0x6463_6261], 0), Err(WireError::UnexpectedEnd));
    assert_eq!(decode_at(&[1, 0xffff_ffff], 0), Err(WireError::UnexpectedEnd));
    assert_eq!(decode_at(&[3], 0), Err(WireError::UnexpectedEnd));
    assert_eq!(decode_at(&[3, 2], 0), Err(WireError::UnexpectedEnd));
    assert_eq!(decode_at(&[3, 0, 1], 0), Err(WireError::UnexpectedEnd));
    assert_eq!(decode_at(&[2], 1), Err(WireError::UnexpectedEnd));
}

#[test]
fn a_word_that_is_no_tag() {
    assert_eq!(decode_at(&[4], 0), Err(WireError::BadTag));
    assert_eq!(decode_at(&[0xffff_ffff, 0], 0), Err(WireError::BadTag));
    assert_eq!(decode_at(&[3, 2, 9], 0), Err(WireError::BadTag));
    assert_eq!(decode_at(&[3, 7, 2], 0), Err(WireError::BadTag));
}

#[test]
fn bytes_that_are_no_text() {
    assert_eq!(decode_at(&[1, 1, 0xff], 0), Err(WireError::BadText));
    assert_eq!(decode_at(&[1, 2, 0x41c3], 0), Err(WireError::BadText));
    assert_eq!(decode_at(&[3, 1, 1, 0x80, 2], 0), Err(WireError::BadText));
}

#[test]
fn the_first_fault_is_the_one_reported() {
    assert_eq!(decode_at(&[3, 4, 1], 0), Err(WireError::BadTag));
    assert_eq!(decode_at(&[3, 1, 1, 0xff], 0), Err(WireError::BadText));
    assert_eq!(decode_at(&[3, 1, 1, 0x61], 0), Err(WireError::UnexpectedEnd));
}

#[test]
fn every_value_of_ordinary_size_can_be_encoded() {
    assert!(encodable(null()));
    assert!(encodable(&string(b"text")));
    assert!(encodable(&cons(&string(b"a"), &cons(&integer(1), null()))));
}
