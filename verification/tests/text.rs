use zaino_state::error::StateServiceError;
use zaino_state::text::{
    encode_transaction_ids, parse_hash_or_height, BlockHash, HashOrHeight, TransactionId,
};

fn counting() -> [u8; 32] {
    let mut bytes = [0u8; 32];
    for i in 0..32u8 {
        bytes[i as usize] = i;
    }
    bytes
}

const COUNTING_TEXT: &str = "1f1e1d1c1b1a191817161514131211100f0e0d0c0b0a09080706050403020100";

fn is_refused(text: &str) -> bool {
    match parse_hash_or_height(text) {
        Err(StateServiceError::SerializationError(message)) => {
            message == "could not convert the input string to a hash or height"
        }
        _ => false,
    }
}

#[test]
fn heights_are_decimal_numbers() {
    assert_eq!(parse_hash_or_height("1").unwrap(), HashOrHeight::Height(1));
    assert_eq!(parse_hash_or_height("0").unwrap(), HashOrHeight::Height(0));
    assert_eq!(parse_hash_or_height("007").unwrap(), HashOrHeight::Height(7));
    assert_eq!(parse_hash_or_height("+419200").unwrap(), HashOrHeight::Height(419200));
}

#[test]
fn greatest_height_is_accepted_and_the_next_refused() {
    assert_eq!(parse_hash_or_height("2147483647").unwrap(), HashOrHeight::Height(2147483647));
    assert!(is_refused("2147483648"));
    assert!(is_refused("4294967296"));
    assert!(is_refused("99999999999999999999"));
}

#[test]
fn other_texts_are_refused() {
    assert!(is_refused(""));
    assert!(is_refused("+"));
    assert!(is_refused("-1"));
    assert!(is_refused(" 1"));
    assert!(is_refused("1a"));
    assert!(is_refused("tip"));
    assert!(is_refused("１"));
}

#[test]
fn hashes_are_read_last_byte_first() {
    assert_eq!(
        parse_hash_or_height(COUNTING_TEXT).unwrap(),
        HashOrHeight::Hash(BlockHash(counting()))
    );
    assert_eq!(
        parse_hash_or_height(&COUNTING_TEXT.to_uppercase()).unwrap(),
        HashOrHeight::Hash(BlockHash(counting()))
    );
}

#[test]
fn sixty_four_decimal_digits_are_a_hash() {
    let text = "0".repeat(63) + "7";
    let mut bytes = [0u8; 32];
    bytes[0] = 7;
    assert_eq!(parse_hash_or_height(&text).unwrap(), HashOrHeight::Hash(BlockHash(bytes)));
}

#[test]
fn hashes_of_the_wrong_length_are_refused() {
    assert!(is_refused(&COUNTING_TEXT[1..]));
    assert!(is_refused(&COUNTING_TEXT[2..]));
    assert!(is_refused(&(COUNTING_TEXT.to_string() + "00")));
    assert!(is_refused(&COUNTING_TEXT.replace('f', "g")));
}

#[test]
fn transaction_ids_are_written_last_byte_first() {
    let ids = vec![TransactionId(counting()), TransactionId([0xab; 32])];
    let texts = encode_transaction_ids(&ids);
    assert_eq!(texts, vec![COUNTING_TEXT.to_string(), "ab".repeat(32)]);
}

#[test]
fn no_transaction_ids_give_no_texts() {
    assert_eq!(encode_transaction_ids(&Vec::new()), Vec::<String>::new());
}

#[test]
fn hash_text_round_trip() {
    let texts = encode_transaction_ids(&vec![TransactionId(counting())]);
    assert_eq!(
        parse_hash_or_height(&texts[0]).unwrap(),
        HashOrHeight::Hash(BlockHash(counting()))
    );
}

#[test]
fn different_ids_have_different_texts() {
    let mut other = counting();
    other[17] ^= 1;
    let texts = encode_transaction_ids(&vec![TransactionId(counting()), TransactionId(other)]);
    assert_ne!(texts[0], texts[1]);
}

#[test]
fn height_text_round_trip() {
    for height in [0, 9, 10, 419_200, 2_147_483_647] {
        let digits = height.to_string();
        assert_eq!(parse_hash_or_height(&digits).unwrap(), HashOrHeight::Height(height));
        let signed = format!("+{}", digits);
        assert_eq!(parse_hash_or_height(&signed).unwrap(), HashOrHeight::Height(height));
    }
}
