//! What the provider reads of Ethereum's own formats: addresses, transaction
//! requests, and the Keccak-256 hash. ethers does the reading and the hashing.

use crate::json::str_view;
use ethers::types::NameOrAddress;
use ethers::types::TransactionRequest as EthersTransactionRequest;
use jsonrpsee::types::Params;
use vstd::prelude::*;

verus! {

/// To whom a transaction goes.
#[derive(Debug, Clone, PartialEq, Eq)]
pub enum Recipient {
    /// An ENS name.
    Name(String),
    /// An address of twenty bytes.
    Address([u8; 20]),
}

pub enum RecipientView {
    Name(Seq<char>),
    Address([u8; 20]),
}

impl View for Recipient {
    type V = RecipientView;

    open spec fn view(&self) -> RecipientView {
        match self {
            Recipient::Name(name) => RecipientView::Name(name@),
            Recipient::Address(address) => RecipientView::Address(*address),
        }
    }
}

/// The parameters of a transaction that a dapp asks to send. A quantity of 256
/// bits is held as four words of 64 bits, the lowest first.
#[derive(Debug, Clone, PartialEq, Eq)]
pub struct TransactionRequest {
    pub from: Option<[u8; 20]>,
    pub to: Option<Recipient>,
    pub gas: Option<[u64; 4]>,
    pub gas_price: Option<[u64; 4]>,
    pub value: Option<[u64; 4]>,
    pub data: Option<Vec<u8>>,
    /// Nothing here lets the signer take the next nonce of the account.
    pub nonce: Option<[u64; 4]>,
    pub chain_id: Option<u64>,
}

pub struct TransactionRequestView {
    pub from: Option<[u8; 20]>,
    pub to: Option<RecipientView>,
    pub gas: Option<[u64; 4]>,
    pub gas_price: Option<[u64; 4]>,
    pub value: Option<[u64; 4]>,
    pub data: Option<Seq<u8>>,
    pub nonce: Option<[u64; 4]>,
    pub chain_id: Option<u64>,
}

impl View for TransactionRequest {
    type V = TransactionRequestView;

    open spec fn view(&self) -> TransactionRequestView {
        TransactionRequestView {
            from: self.from,
            to: match self.to {
                Some(to) => Some(to@),
                None => None,
            },
            gas: self.gas,
            gas_price: self.gas_price,
            value: self.value,
            data: match self.data {
                Some(data) => Some(data@),
                None => None,
            },
            nonce: self.nonce,
            chain_id: self.chain_id,
        }
    }
}

impl TransactionRequestView {
    /// The same transaction with no nonce of its own.
    pub open spec fn without_nonce(self) -> TransactionRequestView {
        TransactionRequestView { nonce: None, ..self }
    }
}

impl TransactionRequest {
    /// Drops the nonce, whatever the dapp wrote there. A nonce from a dapp may be
    /// stale, and a stale nonce gives a stuck or a doubled transaction.
    pub fn without_nonce(self) -> (cleared: TransactionRequest)
        ensures
            cleared@ == self@.without_nonce(),
            cleared.nonce is None,
    {
        let mut cleared = self;
        cleared.nonce = None;
        cleared
    }
}

/// The Keccak-256 hash of some bytes.
pub uninterp spec fn keccak256_of(bytes: Seq<u8>) -> Seq<u8>;

/// `ethers::core::utils::keccak256`: the hash, as a vector of its 32 bytes.
#[verifier::external_body]
pub(crate) fn keccak256(bytes: &Vec<u8>) -> (hash: Vec<u8>)
    ensures
        hash@ == keccak256_of(bytes@),
        hash@.len() == 32,
{
    ethers::core::utils::keccak256(bytes).to_vec()
}

/// The bytes of an address written as text, if the text is an address.
pub uninterp spec fn address_of_text(text: Seq<char>) -> Option<Seq<u8>>;

/// `Address::from_str` of ethers (`str::parse`), and the twenty bytes of the
/// address it gives. Which error it was is dropped.
#[verifier::external_body]
pub(crate) fn parse_address(text: &str) -> (address: Option<Vec<u8>>)
    ensures
        match address {
            Some(bytes) => address_of_text(text@) == Some(bytes@),
            None => address_of_text(text@) is None,
        },
        address matches Some(bytes) ==> bytes@.len() == 20,
{
    text.parse::<ethers::core::types::Address>().ok().map(|address| address.0.to_vec())
}

/// The one transaction request that the parameters hold, if they hold just that.
pub uninterp spec fn transaction_param_of(params: Option<Seq<char>>) -> Option<TransactionRequestView>;

/// `Params::one` of jsonrpsee, reading a `TransactionRequest` of ethers, whose
/// fields are moved into a [`TransactionRequest`]: addresses by their bytes,
/// quantities by their words, the data as a vector. Which error it was is
/// dropped.
#[verifier::external_body]
pub(crate) fn transaction_param(params: Option<&str>) -> (transaction: Option<TransactionRequest>)
    ensures
        match transaction {
            Some(request) => transaction_param_of(str_view(params)) == Some(request@),
            None => transaction_param_of(str_view(params)) is None,
        },
{
    let request: EthersTransactionRequest = Params::new(params).one().ok()?;
    Some(TransactionRequest {
        from: request.from.map(|from| from.0),
        to: request.to.map(|to| match to {
            NameOrAddress::Name(name) => Recipient::Name(name),
            NameOrAddress::Address(address) => Recipient::Address(address.0),
        }),
        gas: request.gas.map(|gas| gas.0),
        gas_price: request.gas_price.map(|price| price.0),
        value: request.value.map(|value| value.0),
        data: request.data.map(|data| data.to_vec()),
        nonce: request.nonce.map(|nonce| nonce.0),
        chain_id: request.chain_id.map(|chain| chain.as_u64()),
    })
}

} // verus!
