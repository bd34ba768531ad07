use risc0_zkvm::serde::{from_slice, to_vec};
use scheme_core::boundary::{cons, integer, is_equal, null, string};
use scheme_core::channel::{
    commit_integer, commit_sexpr, commit_vector, read_integer, read_sexpr, read_vector,
    try_read_integer, try_read_sexpr, try_read_vector, Channel,
};
use scheme_core::sexpr::Sexpr;
use scheme_core::wire::{encode, WireError};

#[test]
fn what_is_read_and_committed_is_what_was_supplied() {
    let supplied = cons(
        &string(b"answer"),
        &cons(&integer(42), &cons(null(), null())),
    );
    let mut channel = Channel::new(encode(&supplied));
    let read = read_sexpr(&mut channel);
    let committed = commit_sexpr(&mut channel, &read);
    assert!(is_equal(committed, &supplied));
    assert_eq!(*channel.committed(), encode(&supplied));
    assert_eq!(channel.remaining(), 0);
}

#[test]
fn a_new_channel_has_an_empty_journal() {
    let channel = Channel::new(vec![1, 2, 3]);
    assert!(channel.committed().is_empty());
    assert_eq!(channel.remaining(), 3);
}

#[test]
fn every_commit_appends_to_the_journal() {
    let mut channel = Channel::new(Vec::new());
    let v = integer(1);
    assert_eq!(*commit_sexpr(&mut channel, &v), Sexpr::Integer(1));
    assert_eq!(*channel.committed(), vec![0, 1]);
    assert_eq!(*commit_sexpr(&mut channel, &v), Sexpr::Integer(1));
    assert_eq!(*channel.committed(), vec![0, 1, 0, 1]);
    assert_eq!(commit_integer(&mut channel, 8), 8);
    assert_eq!(*channel.committed(), vec![0, 1, 0, 1, 8]);
    let vec = vec![5, 6];
    assert_eq!(*commit_vector(&mut channel, &vec), vec![5, 6]);
    assert_eq!(*channel.committed(), vec![0, 1, 0, 1, 8, 2, 5, 6]);
    assert_eq!(channel.remaining(), 0);
}

#[test]
fn reads_take_the_input_from_the_front() {
    let mut input = encode(&cons(&integer(1), null()));
    input.extend_from_slice(&[2, 10, 20]);
    input.push(99);
    input.extend_from_slice(&encode(&string(b"last")));
    let mut channel = Channel::new(input);
    assert_eq!(read_sexpr(&mut channel).to_string(), "(1)");
    assert_eq!(*read_vector(&mut channel), vec![10, 20]);
    assert_eq!(read_integer(&mut channel), 99);
    assert_eq!(read_sexpr(&mut channel).to_string(), "\"last\"");
    assert_eq!(channel.remaining(), 0);
    assert!(channel.committed().is_empty());
}

#[test]
fn a_read_that_fails_leaves_the_input() {
    let mut channel = Channel::new(vec![3, 2]);
    assert_eq!(try_read_sexpr(&mut channel), Err(WireError::UnexpectedEnd));
    assert_eq!(channel.remaining(), 2);
    assert_eq!(try_read_vector(&mut channel), Err(WireError::UnexpectedEnd));
    assert_eq!(channel.remaining(), 2);
    assert_eq!(try_read_integer(&mut channel), Ok(3));
    assert_eq!(try_read_sexpr(&mut channel), Ok(Box::new(Sexpr::Null)));
    assert_eq!(try_read_integer(&mut channel), Err(WireError::UnexpectedEnd));
    assert_eq!(try_read_sexpr(&mut channel), Err(WireError::UnexpectedEnd));
    assert_eq!(try_read_vector(&mut channel), Err(WireError::UnexpectedEnd));
    assert_eq!(channel.remaining(), 0);
}

#[test]
fn a_read_reports_a_bad_tag_and_a_bad_text() {
    let mut channel = Channel::new(vec![9]);
    assert_eq!(try_read_sexpr(&mut channel), Err(WireError::BadTag));
    let mut channel = Channel::new(vec![1, 1, 0xff]);
    assert_eq!(try_read_sexpr(&mut channel), Err(WireError::BadText));
    assert_eq!(channel.remaining(), 3);
}

#[test]
fn an_empty_vector_is_its_length() {
    let mut channel = Channel::new(vec![0, 7]);
    assert_eq!(*read_vector(&mut channel), Vec::<u32>::new());
    assert_eq!(channel.remaining(), 1);
    let empty = Vec::new();
    commit_vector(&mut channel, &empty);
    assert_eq!(*channel.committed(), vec![0]);
}

#[test]
fn vectors_and_words_are_laid_out_as_the_zkvm_serializer_lays_them_out() {
    let vec: Vec<u32> = vec![3, 0, u32::MAX, 17];
    let mut channel = Channel::new(to_vec(&vec).unwrap());
    assert_eq!(*read_vector(&mut channel), vec);
    commit_vector(&mut channel, &vec);
    assert_eq!(*channel.committed(), to_vec(&vec).unwrap());
    assert_eq!(from_slice::<Vec<u32>, u32>(channel.committed()), Ok(vec));

    let word: u32 = 0xdead_beef;
    let mut channel = Channel::new(to_vec(&word).unwrap());
    assert_eq!(read_integer(&mut channel), word);
    commit_integer(&mut channel, word);
    assert_eq!(*channel.committed(), to_vec(&word).unwrap());
    assert_eq!(from_slice::<u32, u32>(channel.committed()), Ok(word));
}

#[test]
fn input_bytes_are_taken_four_to_a_word() {
    let mut channel = Channel::from_bytes(&[1, 0, 0, 0, 0x78, 0x56, 0x34, 0x12, 0xff]);
    assert_eq!(channel.remaining(), 3);
    assert_eq!(read_integer(&mut channel), 1);
    assert_eq!(read_integer(&mut channel), 0x1234_5678);
    assert_eq!(read_integer(&mut channel), 0xff);
    assert_eq!(channel.remaining(), 0);
    assert_eq!(Channel::from_bytes(&[]).remaining(), 0);
}

#[test]
fn input_bytes_of_a_value() {
    let words = encode(&cons(&string(b"hello"), &integer(-2)));
    let mut bytes = Vec::new();
    for word in &words {
        bytes.extend_from_slice(&word.to_le_bytes());
    }
    let mut channel = Channel::from_bytes(&bytes);
    assert_eq!(read_sexpr(&mut channel).to_string(), "(\"hello\" . -2)");
}
