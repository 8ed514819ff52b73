//! The batch of transactions that the controller sends to a chain that runs
//! the Ethereum virtual machine, and its binary form.

use crate::types::abi::{
    abi_encode, abi_encoding, array_token, len_fits, padded_len, string_token, token_len,
    token_value, token_values, tokens_len, tuple_token, uint_token, utf8_len, AbiValue,
};
use ethabi::Token;
use vstd::prelude::*;

verus! {

/// One instruction for the remote chain.
#[derive(Clone, Debug, PartialEq, Eq)]
pub struct Transaction {
    /// The amount of native currency to send along.
    pub value: u128,
    /// The call data, as text.
    pub data: String,
    /// The address that the transaction goes to.
    pub target: String,
}

/// A transaction as a mathematical value.
pub struct TransactionView {
    pub value: nat,
    pub data: Seq<char>,
    pub target: Seq<char>,
}

impl View for Transaction {
    type V = TransactionView;

    open spec fn view(&self) -> TransactionView {
        TransactionView { value: self.value as nat, data: self.data@, target: self.target@ }
    }
}

impl TransactionView {
    /// The tuple that is encoded for the transaction: the value as an
    /// unsigned integer, then the call data and the target as strings.
    pub open spec fn abi_value(self) -> AbiValue {
        AbiValue::Tuple(
            seq![AbiValue::Uint(self.value), AbiValue::Text(self.data), AbiValue::Text(self.target)],
        )
    }

    /// The bytes that the transaction takes in an encoded batch: six words
    /// and the two strings, each padded to whole words.
    pub open spec fn encoded_len(self) -> nat {
        192 + padded_len(utf8_len(self.data)) + padded_len(utf8_len(self.target))
    }
}

/// The conversion below is described by the contract of `from` and by no
/// spec function: a spec function cannot write a token down.
impl vstd::std_specs::convert::FromSpecImpl<&Transaction> for Token {
    open spec fn obeys_from_spec() -> bool {
        false
    }

    open spec fn from_spec(transaction: &Transaction) -> Token {
        arbitrary()
    }
}

impl From<&Transaction> for Token {
    /// The token for a transaction: a tuple of its value, its call data and
    /// its target.
    fn from(transaction: &Transaction) -> (token: Token)
        ensures
            token_value(token) == transaction@.abi_value(),
            token_len(token) <= transaction@.encoded_len(),
    {
        let mut fields: Vec<Token> = Vec::new();
        fields.push(uint_token(transaction.value));
        fields.push(string_token(transaction.data.clone()));
        fields.push(string_token(transaction.target.clone()));
        proof {
            assert(token_values(fields@) =~= transaction@.abi_value()->Tuple_0);
            reveal_with_fuel(tokens_len, 4);
        }
        tuple_token(fields)
    }
}

/// The batch of transactions of one packet. Their order is the order in
/// which the remote chain executes them.
#[derive(Clone, Debug, PartialEq, Eq)]
pub struct EVMMessage {
    pub messages: Vec<Transaction>,
}

impl View for EVMMessage {
    type V = Seq<TransactionView>;

    open spec fn view(&self) -> Seq<TransactionView> {
        self.messages@.map_values(|transaction: Transaction| transaction@)
    }
}

/// The array that is encoded for a batch: one tuple for each transaction, in
/// the order of the batch.
pub open spec fn batch_value(batch: Seq<TransactionView>) -> AbiValue {
    AbiValue::Array(batch.map_values(|transaction: TransactionView| transaction.abi_value()))
}

/// The bytes that the transactions of a batch take in its encoding.
pub open spec fn transactions_len(batch: Seq<TransactionView>) -> nat
    decreases batch.len(),
{
    if batch.len() == 0 {
        0
    } else {
        transactions_len(batch.drop_last()) + batch.last().encoded_len()
    }
}

/// The length of the encoding of a batch: one word that points to the array,
/// one word for its length, and the transactions.
pub open spec fn batch_len(batch: Seq<TransactionView>) -> nat {
    64 + transactions_len(batch)
}

/// Whether the batch is short enough to be encoded.
pub open spec fn encodable(batch: Seq<TransactionView>) -> bool {
    len_fits(batch_len(batch))
}

/// The binary form of a batch: the encoding of its array of tuples.
pub open spec fn batch_encoding(batch: Seq<TransactionView>) -> Seq<u8> {
    abi_encoding(seq![batch_value(batch)])
}

/// Encoding is a function of the transactions and their order: two batches
/// that hold the same transactions in the same order have the same binary
/// form, so encoding a batch again gives the same bytes.
pub proof fn lemma_encoding_is_deterministic(first: EVMMessage, second: EVMMessage)
    requires
        first@ == second@,
    ensures
        batch_encoding(first@) == batch_encoding(second@),
{
}

/// Nothing of a batch is lost on the way to the encoder: batches for which
/// the same array is encoded hold the same transactions in the same order.
pub proof fn lemma_batch_value_is_injective(
    first: Seq<TransactionView>,
    second: Seq<TransactionView>,
)
    requires
        batch_value(first) == batch_value(second),
    ensures
        first == second,
{
    let first_rows = first.map_values(|transaction: TransactionView| transaction.abi_value());
    let second_rows = second.map_values(|transaction: TransactionView| transaction.abi_value());
    assert(first_rows == second_rows);
    assert(first.len() == second.len());
    assert forall|i: int| 0 <= i < first.len() implies first[i] == second[i] by {
        assert(first_rows[i] == second_rows[i]);
        let first_fields = first[i].abi_value()->Tuple_0;
        let second_fields = second[i].abi_value()->Tuple_0;
        assert(first_fields[0] == second_fields[0]);
        assert(first_fields[1] == second_fields[1]);
        assert(first_fields[2] == second_fields[2]);
    }
    assert(first =~= second);
}

/// The order of a batch shows in what is encoded: for two transactions that
/// differ, the array encoded for one order is not the array encoded for the
/// other. Whether the bytes differ as well is up to the encoder.
pub proof fn lemma_order_shows_in_batch_value(a: TransactionView, b: TransactionView)
    requires
        a != b,
    ensures
        batch_value(seq![a, b]) != batch_value(seq![b, a]),
{
    if batch_value(seq![a, b]) == batch_value(seq![b, a]) {
        lemma_batch_value_is_injective(seq![a, b], seq![b, a]);
    }
}

/// The first transactions of a batch take no more bytes than all of them.
pub proof fn lemma_transactions_len_grows(batch: Seq<TransactionView>, n: int)
    requires
        0 <= n <= batch.len(),
    ensures
        transactions_len(batch.take(n)) <= transactions_len(batch),
    decreases batch.len(),
{
    if n == batch.len() {
        assert(batch.take(n) =~= batch);
    } else {
        assert(batch.drop_last().take(n) =~= batch.take(n));
        lemma_transactions_len_grows(batch.drop_last(), n);
    }
}

/// The bytes of a string in memory, rounded up to whole words.
fn padded_string_len(text: &String) -> (len: u128)
    ensures
        len == padded_len(utf8_len(text@)),
        len <= usize::MAX + 31,
{
    let bytes: usize = text.as_str().as_bytes().len();
    let words: u128 = (bytes as u128 + 31) / 32;
    words * 32
}

impl EVMMessage {
    /// Whether the batch is short enough to be encoded.
    pub fn is_encodable(&self) -> (fits: bool)
        ensures
            fits == encodable(self@),
    {
        let limit: u128 = if (u32::MAX as u128) < (isize::MAX as u128) / 32 {
            u32::MAX as u128
        } else {
            (isize::MAX as u128) / 32
        };
        let mut total: u128 = 64;
        let mut i: usize = 0;
        while i < self.messages.len()
            invariant
                i <= self.messages.len(),
                limit <= u32::MAX,
                forall|len: nat| len_fits(len) <==> len <= limit,
                total == batch_len(self@.take(i as int)),
                total <= limit,
            decreases self.messages.len() - i,
        {
            let transaction = &self.messages[i];
            let row: u128 = 192 + padded_string_len(&transaction.data) + padded_string_len(
                &transaction.target,
            );
            proof {
                assert(self@.take(i + 1).drop_last() =~= self@.take(i as int));
            }
            total = total + row;
            if total > limit {
                proof {
                    lemma_transactions_len_grows(self@, i + 1);
                }
                return false;
            }
            i = i + 1;
        }
        proof {
            assert(self@.take(i as int) =~= self@);
        }
        true
    }

    /// Encodes the batch for the remote chain: the array of the transactions'
    /// tuples, in the order of the batch, in the binary form of `ethabi`.
    /// The batch has to be short enough for that.
    pub fn encode(&self) -> (bytes: Vec<u8>)
        requires
            encodable(self@),
        ensures
            bytes@ == batch_encoding(self@),
    {
        let mut tuples: Vec<Token> = Vec::new();
        let mut i: usize = 0;
        while i < self.messages.len()
            invariant
                i <= self.messages.len(),
                tuples@.len() == i,
                forall|j: int| 0 <= j < i ==> token_value(#[trigger] tuples@[j]) == self@[j].abi_value(),
                tokens_len(tuples@) <= transactions_len(self@.take(i as int)),
            decreases self.messages.len() - i,
        {
            let ghost before = tuples@;
            let token = Token::from(&self.messages[i]);
            tuples.push(token);
            proof {
                assert(tuples@.drop_last() =~= before);
                assert(self@.take(i + 1).drop_last() =~= self@.take(i as int));
            }
            i = i + 1;
        }
        let ghost items = tuples@;
        let mut tokens: Vec<Token> = Vec::new();
        tokens.push(array_token(tuples));
        proof {
            assert(self@.take(i as int) =~= self@);
            assert(token_values(items) =~= batch_value(self@)->Array_0);
            assert(token_values(tokens@) =~= seq![batch_value(self@)]);
            assert(tokens_len(tokens@) == tokens_len(tokens@.drop_last()) + token_len(
                tokens@.last(),
            ));
        }
        abi_encode(&tokens)
    }

    /// Encodes the batch as `encode` does, or gives `None` where the batch is
    /// too long to be encoded.
    pub fn try_encode(&self) -> (bytes: Option<Vec<u8>>)
        ensures
            match bytes {
                Some(bytes) => encodable(self@) && bytes@ == batch_encoding(self@),
                None => !encodable(self@),
            },
    {
        if self.is_encodable() {
            Some(self.encode())
        } else {
            None
        }
    }
}

} // verus!
