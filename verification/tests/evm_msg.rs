use ethabi::Token;
use ica_controller::types::evm_msg::{EVMMessage, Transaction};

fn transaction(value: u128, data: &str, target: &str) -> Transaction {
    Transaction { value, data: data.to_string(), target: target.to_string() }
}

fn word(number: u64) -> Vec<u8> {
    let mut bytes = vec![0u8; 24];
    bytes.extend_from_slice(&number.to_be_bytes());
    bytes
}

fn padded(text: &[u8], len: usize) -> Vec<u8> {
    let mut bytes = text.to_vec();
    bytes.resize(len, 0);
    bytes
}

#[test]
fn transaction_becomes_a_tuple_of_value_data_and_target() {
    let token = Token::from(&transaction(100, "0xabc", "0xT1"));
    assert_eq!(
        token,
        Token::Tuple(vec![
            Token::Uint(100u64.into()),
            Token::String("0xabc".to_string()),
            Token::String("0xT1".to_string()),
        ])
    );
    let token: Token = (&transaction(u128::MAX, "", "")).into();
    assert_eq!(
        token,
        Token::Tuple(vec![
            Token::Uint(u128::MAX.into()),
            Token::String(String::new()),
            Token::String(String::new()),
        ])
    );
}

#[test]
fn empty_batch_encodes_as_the_empty_array() {
    let message = EVMMessage { messages: vec![] };
    let mut expected = word(0x20);
    expected.extend(word(0));
    assert_eq!(message.encode(), expected);
    assert_eq!(message.encode().len(), 64);
}

#[test]
fn batch_of_one_has_the_expected_bytes() {
    let message = EVMMessage { messages: vec![transaction(100, "0xabc", "0xT1")] };
    let mut expected = Vec::new();
    expected.extend(word(0x20)); // where the array starts
    expected.extend(word(1)); // its length
    expected.extend(word(0x20)); // where the first tuple starts
    expected.extend(word(100)); // value
    expected.extend(word(0x60)); // where data starts
    expected.extend(word(0xa0)); // where target starts
    expected.extend(word(5));
    expected.extend(padded(b"0xabc", 32));
    expected.extend(word(4));
    expected.extend(padded(b"0xT1", 32));
    assert_eq!(message.encode(), expected);
}

#[test]
fn encoding_is_the_same_every_time() {
    let message = EVMMessage { messages: vec![transaction(100, "0xabc", "0xT1")] };
    let first = message.encode();
    let second = message.encode();
    assert_eq!(first, second);
    let again = EVMMessage { messages: vec![transaction(100, "0xabc", "0xT1")] };
    assert_eq!(first, again.encode());
}

#[test]
fn encoding_depends_on_the_value() {
    let one = EVMMessage { messages: vec![transaction(100, "0xabc", "0xT1")] };
    let other = EVMMessage { messages: vec![transaction(101, "0xabc", "0xT1")] };
    assert_ne!(one.encode(), other.encode());
}

#[test]
fn encoding_depends_on_data_and_target() {
    let base = EVMMessage { messages: vec![transaction(100, "0xabc", "0xT1")] };
    let data = EVMMessage { messages: vec![transaction(100, "0xabd", "0xT1")] };
    let target = EVMMessage { messages: vec![transaction(100, "0xabc", "0xT2")] };
    let swapped = EVMMessage { messages: vec![transaction(100, "0xT1", "0xabc")] };
    assert_ne!(base.encode(), data.encode());
    assert_ne!(base.encode(), target.encode());
    assert_ne!(base.encode(), swapped.encode());
}

#[test]
fn encoding_depends_on_the_order() {
    let a = transaction(1, "0xaa", "0xA");
    let b = transaction(2, "0xbb", "0xB");
    let forth = EVMMessage { messages: vec![a.clone(), b.clone()] };
    let back = EVMMessage { messages: vec![b, a] };
    assert_ne!(forth.encode(), back.encode());
    assert_eq!(forth.encode().len(), back.encode().len());
}

#[test]
fn batch_of_two_has_the_expected_bytes() {
    let message = EVMMessage {
        messages: vec![transaction(1, "0xaa", "0xA"), transaction(2, "", "0xB")],
    };
    let mut expected = Vec::new();
    expected.extend(word(0x20));
    expected.extend(word(2));
    expected.extend(word(0x40)); // first tuple, after the two offsets
    expected.extend(word(0x40 + 0xe0)); // second tuple, after the seven words of the first
    // first tuple: three words, then two strings of two words each
    expected.extend(word(1));
    expected.extend(word(0x60));
    expected.extend(word(0xa0));
    expected.extend(word(4));
    expected.extend(padded(b"0xaa", 32));
    expected.extend(word(3));
    expected.extend(padded(b"0xA", 32));
    // second tuple: its data is empty and takes the length word alone
    expected.extend(word(2));
    expected.extend(word(0x60));
    expected.extend(word(0x80));
    expected.extend(word(0));
    expected.extend(word(3));
    expected.extend(padded(b"0xB", 32));
    assert_eq!(message.encode(), expected);
}

#[test]
fn value_takes_a_whole_word() {
    let message = EVMMessage { messages: vec![transaction(u128::MAX, "", "")] };
    let bytes = message.encode();
    assert_eq!(bytes.len(), 64 + 192);
    let mut value = vec![0u8; 16];
    value.extend(vec![0xffu8; 16]);
    assert_eq!(&bytes[96..128], value.as_slice());
}

#[test]
fn strings_are_padded_to_whole_words() {
    let long = "x".repeat(33);
    let message = EVMMessage { messages: vec![transaction(0, &long, "é")] };
    let bytes = message.encode();
    // two words for the array, six for the tuple, two for the data, one for the target
    assert_eq!(bytes.len(), 64 + 192 + 64 + 32);
    assert_eq!(&bytes[192..224], word(33).as_slice());
    assert_eq!(&bytes[224..288], padded(long.as_bytes(), 64).as_slice());
    // the target is counted in bytes, not in characters
    assert_eq!(&bytes[288..320], word(2).as_slice());
    assert_eq!(&bytes[320..352], padded("é".as_bytes(), 32).as_slice());
}

#[test]
fn string_of_a_whole_word_gets_no_padding() {
    let exact = "y".repeat(32);
    let message = EVMMessage { messages: vec![transaction(0, &exact, &exact)] };
    assert_eq!(message.encode().len(), 64 + 192 + 32 + 32);
}

#[test]
fn small_batches_are_encodable() {
    let empty = EVMMessage { messages: vec![] };
    assert!(empty.is_encodable());
    let message = EVMMessage {
        messages: vec![transaction(1, "0xaa", "0xA"), transaction(2, "0xbb", "0xB")],
    };
    assert!(message.is_encodable());
}

#[test]
fn try_encode_gives_what_encode_gives() {
    let message = EVMMessage {
        messages: vec![transaction(1, "0xaa", "0xA"), transaction(2, "0xbb", "0xB")],
    };
    assert_eq!(message.try_encode(), Some(message.encode()));
    let empty = EVMMessage { messages: vec![] };
    assert_eq!(empty.try_encode(), Some(empty.encode()));
}

#[test]
fn encoding_is_what_ethabi_makes_of_the_array_of_tuples() {
    let message = EVMMessage {
        messages: vec![transaction(7, "0x1234", "0xdead"), transaction(8, "0x", "0xbeef")],
    };
    let tuples: Vec<Token> = message.messages.iter().map(Token::from).collect();
    assert_eq!(message.encode(), ethabi::encode(&[Token::Array(tuples)]));
}
