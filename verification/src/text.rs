//! The texts by which callers name blocks, and in which transaction ids are written.

use vstd::prelude::*;

use hex::ToHex;
use zebra_chain::serialization::SerializationError;

use crate::error::{ErrorView, StateServiceError};

verus! {

/// The greatest height that a block can have.
pub const MAX_HEIGHT: u32 = 0x7fff_ffff;

/// The hash of a block, in the order in which blocks store it.
#[derive(Clone, Copy, Debug, PartialEq, Eq)]
pub struct BlockHash(pub [u8; 32]);

impl View for BlockHash {
    type V = Seq<u8>;

    open spec fn view(&self) -> Seq<u8> {
        self.0@
    }
}

/// The id of a transaction, in the order in which transactions store it.
#[derive(Clone, Copy, Debug, PartialEq, Eq)]
pub struct TransactionId(pub [u8; 32]);

impl View for TransactionId {
    type V = Seq<u8>;

    open spec fn view(&self) -> Seq<u8> {
        self.0@
    }
}

/// A block, named by its hash or by its height.
#[derive(Clone, Copy, Debug, PartialEq, Eq)]
pub enum HashOrHeight {
    Hash(BlockHash),
    Height(u32),
}

/// The block that a [`HashOrHeight`] names.
pub ghost enum BlockId {
    Hash(Seq<u8>),
    Height(u32),
}

impl View for HashOrHeight {
    type V = BlockId;

    open spec fn view(&self) -> BlockId {
        match *self {
            HashOrHeight::Hash(hash) => BlockId::Hash(hash@),
            HashOrHeight::Height(height) => BlockId::Height(height),
        }
    }
}

/// The value of a hexadecimal digit, in lower or upper case.
pub open spec fn hex_value(c: char) -> Option<int> {
    if '0' <= c <= '9' {
        Some(c as int - '0' as int)
    } else if 'a' <= c <= 'f' {
        Some(c as int - 'a' as int + 10)
    } else if 'A' <= c <= 'F' {
        Some(c as int - 'A' as int + 10)
    } else {
        None
    }
}

/// The lower-case hexadecimal digit of a value below sixteen.
pub open spec fn hex_digit(value: int) -> char {
    if value < 10 {
        ('0' as int + value) as char
    } else {
        ('a' as int + value - 10) as char
    }
}

/// Whether a text is a hash: sixty-four hexadecimal digits.
pub open spec fn is_hash_text(text: Seq<char>) -> bool {
    &&& text.len() == 64
    &&& forall|i: int| 0 <= i < 64 ==> hex_value(#[trigger] text[i]) is Some
}

/// The bytes that a hash text stands for: two digits each, the last byte first.
pub open spec fn hash_of_text(text: Seq<char>) -> Seq<u8> {
    Seq::new(
        32,
        |i: int| (16 * hex_value(text[62 - 2 * i])->0 + hex_value(text[63 - 2 * i])->0) as u8,
    )
}

/// The text of a hash: two lower-case digits for each byte, the last byte first.
pub open spec fn hash_text(bytes: Seq<u8>) -> Seq<char> {
    Seq::new(
        64,
        |i: int|
            if i % 2 == 0 {
                hex_digit(bytes[31 - i / 2] as int / 16)
            } else {
                hex_digit(bytes[31 - i / 2] as int % 16)
            },
    )
}

/// Whether a text is a number: one or more decimal digits.
pub open spec fn is_decimal(text: Seq<char>) -> bool {
    &&& text.len() > 0
    &&& forall|i: int| 0 <= i < text.len() ==> '0' <= #[trigger] text[i] <= '9'
}

/// The number that decimal digits stand for.
pub open spec fn decimal_value(digits: Seq<char>) -> int
    decreases digits.len(),
{
    if digits.len() == 0 {
        0
    } else {
        10 * decimal_value(digits.drop_last()) + (digits.last() as int - '0' as int)
    }
}

/// The digits of a number that may have a plus sign in front.
pub open spec fn without_plus(text: Seq<char>) -> Seq<char> {
    if text.len() > 0 && text[0] == '+' {
        text.drop_first()
    } else {
        text
    }
}

/// The height that a text stands for, if it stands for one.
pub open spec fn height_of_text(text: Seq<char>) -> Option<u32> {
    let digits = without_plus(text);
    if is_decimal(digits) && decimal_value(digits) <= MAX_HEIGHT {
        Some(decimal_value(digits) as u32)
    } else {
        None
    }
}

/// The block that a text names: by hash where it is a hash, else by height.
pub open spec fn block_of_text(text: Seq<char>) -> Option<BlockId> {
    if is_hash_text(text) {
        Some(BlockId::Hash(hash_of_text(text)))
    } else {
        match height_of_text(text) {
            Some(height) => Some(BlockId::Height(height)),
            None => None,
        }
    }
}

/// The error about a text that names no block.
pub open spec fn no_block_named() -> ErrorView {
    ErrorView::SerializationError("could not convert the input string to a hash or height"@)
}

/// `zebra_chain::serialization::SerializationError`, the error of the parsers below.
#[verifier::external_type_specification]
#[verifier::external_body]
pub struct ExSerializationError(SerializationError);

/// Calls `<zebra_chain::block::Hash as FromStr>::from_str`.
///
/// Claims that it accepts the texts of sixty-four hexadecimal digits and no others, and that the
/// hash holds the bytes that the digits stand for in reverse.
#[verifier::external_body]
fn parse_block_hash(text: &str) -> (hash: Result<BlockHash, SerializationError>)
    ensures
        hash is Ok <==> is_hash_text(text@),
        hash matches Ok(bytes) ==> bytes@ == hash_of_text(text@),
{
    text.parse::<zebra_chain::block::Hash>().map(|hash| BlockHash(hash.0))
}

/// Calls `<zebra_chain::block::Height as FromStr>::from_str`.
///
/// Claims that it accepts the decimal numbers up to the greatest height, with or without a plus
/// sign in front, and no other text.
#[verifier::external_body]
fn parse_height(text: &str) -> (height: Result<u32, SerializationError>)
    ensures
        height is Ok <==> height_of_text(text@) is Some,
        height matches Ok(number) ==> height_of_text(text@) == Some(number),
{
    text.parse::<zebra_chain::block::Height>().map(|height| height.0)
}

/// Calls `hex::ToHex::encode_hex` on a `zebra_chain::transaction::Hash`.
///
/// Claims that the text has two lower-case hexadecimal digits for each byte of the id, the last
/// byte first.
#[verifier::external_body]
fn encode_transaction_id(id: &TransactionId) -> (text: String)
    ensures
        text@ == hash_text(id@),
{
    zebra_chain::transaction::Hash(id.0).encode_hex::<String>()
}

/// Reads the name of a block.
pub fn parse_hash_or_height(text: &str) -> (block: Result<HashOrHeight, StateServiceError>)
    ensures
        match block_of_text(text@) {
            Some(id) => block is Ok && block->Ok_0@ == id,
            None => block is Err && block->Err_0@ == no_block_named(),
        },
{
    match parse_block_hash(text) {
        Ok(hash) => Ok(HashOrHeight::Hash(hash)),
        Err(_) => match parse_height(text) {
            Ok(height) => Ok(HashOrHeight::Height(height)),
            Err(_) => Err(
                StateServiceError::SerializationError(
                    "could not convert the input string to a hash or height".to_string(),
                ),
            ),
        },
    }
}

/// The texts of some transaction ids, in order.
pub open spec fn transaction_texts(ids: Seq<TransactionId>) -> Seq<Seq<char>> {
    ids.map_values(|id: TransactionId| hash_text(id@))
}

/// The contents of some texts.
pub open spec fn texts_view(texts: Seq<String>) -> Seq<Seq<char>> {
    texts.map_values(|text: String| text@)
}

/// Writes each transaction id as text.
pub fn encode_transaction_ids(ids: &Vec<TransactionId>) -> (texts: Vec<String>)
    ensures
        texts_view(texts@) == transaction_texts(ids@),
        texts@.len() == ids@.len(),
        forall|i: int| 0 <= i < ids@.len() ==> (#[trigger] texts@[i])@ == hash_text(ids@[i].0@),
{
    let mut texts: Vec<String> = Vec::new();
    let mut i: usize = 0;
    while i < ids.len()
        invariant
            i <= ids.len(),
            texts.len() == i,
            forall|j: int| 0 <= j < i ==> (#[trigger] texts@[j])@ == hash_text(ids@[j]@),
        decreases ids.len() - i,
    {
        texts.push(encode_transaction_id(&ids[i]));
        i = i + 1;
    }
    assert(texts_view(texts@) =~= transaction_texts(ids@));
    texts
}

/// Reading the text of a hash gives back the hash.
pub proof fn law_hash_text_round_trip(bytes: Seq<u8>)
    requires
        bytes.len() == 32,
    ensures
        is_hash_text(hash_text(bytes)),
        hash_of_text(hash_text(bytes)) == bytes,
        block_of_text(hash_text(bytes)) == Some(BlockId::Hash(bytes)),
{
    let text = hash_text(bytes);
    assert forall|v: int| 0 <= v < 16 implies hex_value(#[trigger] hex_digit(v)) == Some(v) by {}
    assert forall|i: int| 0 <= i < 64 implies hex_value(#[trigger] text[i]) is Some by {
        let byte = bytes[31 - i / 2] as int;
        assert(hex_value(hex_digit(byte / 16)) == Some(byte / 16));
        assert(hex_value(hex_digit(byte % 16)) == Some(byte % 16));
    }
    assert forall|i: int| 0 <= i < 32 implies #[trigger] hash_of_text(text)[i] == bytes[i] by {
        let byte = bytes[i] as int;
        assert(text[62 - 2 * i] == hex_digit(byte / 16));
        assert(text[63 - 2 * i] == hex_digit(byte % 16));
        assert(hex_value(hex_digit(byte / 16)) == Some(byte / 16));
        assert(hex_value(hex_digit(byte % 16)) == Some(byte % 16));
    }
    assert(hash_of_text(text) =~= bytes);
}

/// The decimal digits of a number.
pub open spec fn decimal_text(number: nat) -> Seq<char>
    decreases number,
{
    let digit = ('0' as int + number % 10) as char;
    if number < 10 {
        seq![digit]
    } else {
        decimal_text(number / 10).push(digit)
    }
}

proof fn lemma_decimal_text(number: nat)
    ensures
        is_decimal(decimal_text(number)),
        decimal_value(decimal_text(number)) == number,
    decreases number,
{
    let text = decimal_text(number);
    if number < 10 {
        assert(text.drop_last() =~= Seq::empty());
        reveal_with_fuel(decimal_value, 2);
    } else {
        lemma_decimal_text(number / 10);
        assert(text.drop_last() =~= decimal_text(number / 10));
    }
}

/// Reading the decimal digits of a height, with or without a plus sign in front, gives back the
/// height.
pub proof fn law_height_text_round_trip(height: u32)
    requires
        height <= MAX_HEIGHT,
    ensures
        block_of_text(decimal_text(height as nat)) == Some(BlockId::Height(height)),
        block_of_text(seq!['+'] + decimal_text(height as nat)) == Some(BlockId::Height(height)),
{
    let text = decimal_text(height as nat);
    let signed = seq!['+'] + text;
    lemma_decimal_text(height as nat);
    assert(text.len() <= 10) by {
        reveal_with_fuel(decimal_text, 11);
    }
    assert('0' <= text[0] <= '9');
    assert(signed.drop_first() =~= text);
}

/// Transactions with different ids have different texts.
pub proof fn law_transaction_texts_tell_ids_apart(a: TransactionId, b: TransactionId)
    requires
        hash_text(a@) == hash_text(b@),
    ensures
        a == b,
{
    law_hash_text_round_trip(a@);
    law_hash_text_round_trip(b@);
    assert(a.0 =~= b.0);
}

/// The texts of a block's transaction ids stand in the order of the ids: there is one for each, and
/// reading the one at any index gives back the id at that index.
pub proof fn law_transaction_texts_keep_the_order_of_ids(ids: Seq<TransactionId>, i: int)
    requires
        0 <= i < ids.len(),
    ensures
        transaction_texts(ids).len() == ids.len(),
        transaction_texts(ids)[i] == hash_text(ids[i].0@),
        is_hash_text(transaction_texts(ids)[i]),
        hash_of_text(transaction_texts(ids)[i]) == ids[i].0@,
{
    law_hash_text_round_trip(ids[i]@);
}

/// Putting blocks of ids one behind the other puts their texts one behind the other.
pub proof fn law_transaction_texts_of_joined_ids(a: Seq<TransactionId>, b: Seq<TransactionId>)
    ensures
        transaction_texts(a + b) == transaction_texts(a) + transaction_texts(b),
        transaction_texts(Seq::empty()).len() == 0,
{
    assert(transaction_texts(a + b) =~= transaction_texts(a) + transaction_texts(b));
}

/// The view of some texts holds the text at each index.
pub proof fn law_texts_view_shows_each_text(texts: Seq<String>, i: int)
    requires
        0 <= i < texts.len(),
    ensures
        texts_view(texts).len() == texts.len(),
        texts_view(texts)[i] == texts[i]@,
{
}

/// The sixteen digits are written in lower case, and read in lower and upper case.
pub proof fn law_hex_digits(value: int)
    requires
        0 <= value < 16,
    ensures
        hex_digit(value) == "0123456789abcdef"@[value],
        hex_value("0123456789abcdef"@[value]) == Some(value),
        hex_value("0123456789ABCDEF"@[value]) == Some(value),
{
    reveal_strlit("0123456789abcdef");
    reveal_strlit("0123456789ABCDEF");
}

/// No other character is a digit.
pub proof fn law_only_hex_digits_have_a_value(c: char)
    requires
        hex_value(c) is Some,
    ensures
        0 <= hex_value(c)->0 < 16,
        c == "0123456789abcdef"@[hex_value(c)->0] || c == "0123456789ABCDEF"@[hex_value(c)->0],
{
    reveal_strlit("0123456789abcdef");
    reveal_strlit("0123456789ABCDEF");
}

/// The text of a hash spells each byte with its high digit first, and the last byte first.
pub proof fn law_hash_text_spells_each_byte(bytes: Seq<u8>, i: int)
    requires
        bytes.len() == 32,
        0 <= i < 32,
    ensures
        hash_text(bytes).len() == 64,
        hash_text(bytes)[62 - 2 * i] == "0123456789abcdef"@[bytes[i] as int / 16],
        hash_text(bytes)[63 - 2 * i] == "0123456789abcdef"@[bytes[i] as int % 16],
{
    law_hex_digits(bytes[i] as int / 16);
    law_hex_digits(bytes[i] as int % 16);
}

/// Hashes are read alike in lower and upper case: a text with digits of the same values names the
/// same block.
pub proof fn law_hash_texts_are_read_without_regard_to_case(a: Seq<char>, b: Seq<char>)
    requires
        is_hash_text(a),
        b.len() == a.len(),
        forall|i: int| 0 <= i < 64 ==> hex_value(#[trigger] a[i]) == hex_value(b[i]),
    ensures
        is_hash_text(b),
        block_of_text(a) is Some,
        block_of_text(a) == block_of_text(b),
{
    assert forall|i: int| 0 <= i < 64 implies hex_value(#[trigger] b[i]) is Some by {
        assert(hex_value(a[i]) == hex_value(b[i]));
    }
    assert(hash_of_text(a) =~= hash_of_text(b)) by {
        assert forall|i: int| 0 <= i < 32 implies hash_of_text(a)[i] == hash_of_text(b)[i] by {
            assert(hex_value(a[62 - 2 * i]) == hex_value(b[62 - 2 * i]));
            assert(hex_value(a[63 - 2 * i]) == hex_value(b[63 - 2 * i]));
        }
    }
}

/// Sixty-four hexadecimal digits name a block by the hash that they spell, the last byte first.
pub proof fn law_hexadecimal_digits_name_a_block_by_hash(text: Seq<char>, i: int)
    requires
        text.len() == 64,
        forall|k: int| 0 <= k < 64 ==> hex_value(#[trigger] text[k]) is Some,
        0 <= i < 32,
    ensures
        block_of_text(text) is Some,
        block_of_text(text)->0 is Hash,
        block_of_text(text)->0->Hash_0.len() == 32,
        block_of_text(text)->0->Hash_0[i] as int == 16 * hex_value(text[62 - 2 * i])->0 + hex_value(
            text[63 - 2 * i],
        )->0,
{
    assert(hex_value(text[62 - 2 * i]) is Some);
    assert(hex_value(text[63 - 2 * i]) is Some);
}

/// Decimal digits of a number up to the greatest height name a block by that height, with or
/// without a plus sign in front, unless they are so many that they are a hash.
pub proof fn law_decimal_digits_name_a_block_by_height(digits: Seq<char>)
    requires
        digits.len() > 0,
        forall|k: int| 0 <= k < digits.len() ==> '0' <= #[trigger] digits[k] <= '9',
        decimal_value(digits) <= 0x7fff_ffff,
    ensures
        digits.len() != 64 ==> block_of_text(digits) is Some && block_of_text(digits)->0 is Height
            && block_of_text(digits)->0->Height_0 == decimal_value(digits),
        block_of_text(seq!['+'] + digits) is Some,
        block_of_text(seq!['+'] + digits)->0 is Height,
        block_of_text(seq!['+'] + digits)->0->Height_0 == decimal_value(digits),
{
    let signed = seq!['+'] + digits;
    lemma_decimal_value_is_not_negative(digits);
    assert('0' <= digits[0] <= '9');
    assert(signed.drop_first() =~= digits);
    assert(hex_value(signed[0]) is None);
}

/// A text that names a block is sixty-four hexadecimal digits, or a decimal number up to the
/// greatest height, perhaps with a plus sign in front.
pub proof fn law_no_other_text_names_a_block(text: Seq<char>)
    requires
        block_of_text(text) is Some,
    ensures
        block_of_text(text)->0 is Hash ==> text.len() == 64 && forall|k: int|
            0 <= k < 64 ==> hex_value(#[trigger] text[k]) is Some,
        block_of_text(text)->0 is Height ==> exists|digits: Seq<char>|
            {
                &&& text == digits || text == seq!['+'] + digits
                &&& digits.len() > 0
                &&& forall|k: int| 0 <= k < digits.len() ==> '0' <= #[trigger] digits[k] <= '9'
                &&& #[trigger] decimal_value(digits) == block_of_text(text)->0->Height_0
                &&& decimal_value(digits) <= 0x7fff_ffff
            },
{
    let digits = without_plus(text);
    if block_of_text(text)->0 is Height {
        lemma_decimal_value_is_not_negative(digits);
        assert(text =~= digits || text =~= seq!['+'] + digits);
        assert(decimal_value(digits) == block_of_text(text)->0->Height_0);
    }
}

proof fn lemma_decimal_value_is_not_negative(digits: Seq<char>)
    requires
        forall|i: int| 0 <= i < digits.len() ==> '0' <= #[trigger] digits[i] <= '9',
    ensures
        decimal_value(digits) >= 0,
    decreases digits.len(),
{
    if digits.len() > 0 {
        lemma_decimal_value_is_not_negative(digits.drop_last());
        assert('0' <= digits[digits.len() - 1] <= '9');
    }
}

/// Numbers above the greatest height name no block.
pub proof fn law_numbers_above_the_greatest_height_name_no_block(number: nat)
    requires
        number > 0x7fff_ffff,
        decimal_text(number).len() != 64,
    ensures
        block_of_text(decimal_text(number)) is None,
{
    lemma_decimal_text(number);
    assert('0' <= decimal_text(number)[0] <= '9');
}

/// A zero in front changes no number.
pub proof fn law_leading_zeros_count_for_nothing(digits: Seq<char>)
    ensures
        decimal_value(seq!['0'] + digits) == decimal_value(digits),
    decreases digits.len(),
{
    let longer = seq!['0'] + digits;
    if digits.len() == 0 {
        assert(longer.drop_last() =~= Seq::empty());
        reveal_with_fuel(decimal_value, 2);
    } else {
        assert(longer.drop_last() =~= seq!['0'] + digits.drop_last());
        law_leading_zeros_count_for_nothing(digits.drop_last());
    }
}

/// The name of a block shows whether it is a hash or a height, and which.
pub proof fn law_block_names_show_what_they_name(hash: BlockHash, id: TransactionId, height: u32)
    ensures
        HashOrHeight::Hash(hash)@ == BlockId::Hash(hash.0@),
        HashOrHeight::Height(height)@ == BlockId::Height(height),
        hash@ == hash.0@,
        id@ == id.0@,
{
}

} // verus!
