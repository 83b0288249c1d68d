//! The chains that the wallet supports.
//!
//! The set is closed: a dapp can switch between these chains, and cannot add one.

use crate::encoding::{
    all_hex, has_0x_prefix, hex_digits, hex_quantity, hex_quantity_text, hex_value, is_hex_char,
    is_lower_hex_char, lemma_lower_hex_digit_value, lower_hex_digit, parse_hex_quantity,
    parse_hex_u64, strip_0x_hex_prefix, without_0x_prefix,
};
use crate::error::{invalid_params, Error, ErrorView};
use vstd::prelude::*;

verus! {

/// A supported chain.
#[derive(Debug, Clone, Copy, PartialEq, Eq, Hash, Structural)]
pub enum ChainId {
    EthMainnet,
    EthGoerli,
    PolygonMainnet,
    PolygonMumbai,
}

impl ChainId {
    /// The chain's number, as EIP-155 assigns it.
    pub open spec fn spec_to_u64(&self) -> u64 {
        match *self {
            ChainId::EthMainnet => 1,
            ChainId::EthGoerli => 5,
            ChainId::PolygonMainnet => 137,
            ChainId::PolygonMumbai => 80001,
        }
    }

    #[verifier::when_used_as_spec(spec_to_u64)]
    pub fn to_u64(&self) -> (number: u64)
        ensures
            number == self.spec_to_u64(),
    {
        match self {
            ChainId::EthMainnet => 1,
            ChainId::EthGoerli => 5,
            ChainId::PolygonMainnet => 137,
            ChainId::PolygonMumbai => 80001,
        }
    }

    /// The supported chain with this number, if there is one.
    pub open spec fn spec_from_u64(number: u64) -> Option<ChainId> {
        if number == 1 {
            Some(ChainId::EthMainnet)
        } else if number == 5 {
            Some(ChainId::EthGoerli)
        } else if number == 137 {
            Some(ChainId::PolygonMainnet)
        } else if number == 80001 {
            Some(ChainId::PolygonMumbai)
        } else {
            None
        }
    }

    #[verifier::when_used_as_spec(spec_from_u64)]
    pub fn from_u64(number: u64) -> (chain: Option<ChainId>)
        ensures
            chain == Self::spec_from_u64(number),
            chain matches Some(found) ==> found.spec_to_u64() == number,
            chain is None ==> forall|other: ChainId| other.spec_to_u64() != number,
    {
        if number == 1 {
            Some(ChainId::EthMainnet)
        } else if number == 5 {
            Some(ChainId::EthGoerli)
        } else if number == 137 {
            Some(ChainId::PolygonMainnet)
        } else if number == 80001 {
            Some(ChainId::PolygonMumbai)
        } else {
            None
        }
    }

    /// The chain on which a dapp starts out.
    pub open spec fn spec_default_dapp_chain() -> ChainId {
        ChainId::PolygonMainnet
    }

    #[verifier::when_used_as_spec(spec_default_dapp_chain)]
    pub fn default_dapp_chain() -> (chain: ChainId)
        ensures
            chain == ChainId::PolygonMainnet,
            chain == Self::spec_default_dapp_chain(),
    {
        ChainId::PolygonMainnet
    }

    /// All supported chains.
    pub fn all() -> (chains: Vec<ChainId>)
        ensures
            chains@ == seq![
                ChainId::EthMainnet,
                ChainId::EthGoerli,
                ChainId::PolygonMainnet,
                ChainId::PolygonMumbai,
            ],
            forall|chain: ChainId| chains@.contains(chain),
    {
        let chains = vec![
            ChainId::EthMainnet,
            ChainId::EthGoerli,
            ChainId::PolygonMainnet,
            ChainId::PolygonMumbai,
        ];
        proof {
            assert forall|chain: ChainId| chains@.contains(chain) by {
                let at: int = match chain {
                    ChainId::EthMainnet => 0,
                    ChainId::EthGoerli => 1,
                    ChainId::PolygonMainnet => 2,
                    ChainId::PolygonMumbai => 3,
                };
                assert(chains@[at] == chain);
            }
        }
        chains
    }

    /// The network version of the chain: its number in decimal.
    pub open spec fn network_version_text(&self) -> Seq<char> {
        match *self {
            ChainId::EthMainnet => "1"@,
            ChainId::EthGoerli => "5"@,
            ChainId::PolygonMainnet => "137"@,
            ChainId::PolygonMumbai => "80001"@,
        }
    }

    pub fn network_version(&self) -> (version: String)
        ensures
            version@ == self.network_version_text(),
    {
        match self {
            ChainId::EthMainnet => "1".to_owned(),
            ChainId::EthGoerli => "5".to_owned(),
            ChainId::PolygonMainnet => "137".to_owned(),
            ChainId::PolygonMumbai => "80001".to_owned(),
        }
    }

    /// The chain's number as it goes over the wire: a hex quantity.
    pub open spec fn hex_text(&self) -> Seq<char> {
        hex_quantity(self.spec_to_u64() as nat)
    }

    pub fn display_hex(&self) -> (hex: String)
        ensures
            hex@ == self.hex_text(),
    {
        match hex_quantity_text(self.to_u64()) {
            Some(hex) => hex,
            None => String::new(),
        }
    }
}

/// What [`parse_0x_chain_id`] gives for a text.
pub open spec fn parse_chain_id(text: Seq<char>) -> Result<ChainId, ErrorView> {
    if !has_0x_prefix(text) {
        Err(invalid_params("Message must start with 0x"@))
    } else {
        match parse_hex_u64(text.subrange(2, text.len() as int)) {
            None => Err(invalid_params("Invalid U64"@)),
            Some(number) => match ChainId::spec_from_u64(number) {
                Some(chain) => Ok(chain),
                None => Err(invalid_params("Unsupported chain id"@)),
            },
        }
    }
}

/// Reads a chain id as a dapp sends it: a `0x`-prefixed hex quantity that must
/// name a supported chain.
pub fn parse_0x_chain_id(hex_chain_id: &str) -> (parsed: Result<ChainId, Error>)
    ensures
        match parsed {
            Ok(chain) => parse_chain_id(hex_chain_id@) == Ok::<ChainId, ErrorView>(chain),
            Err(error) => parse_chain_id(hex_chain_id@) == Err::<ChainId, ErrorView>(error@),
        },
{
    let digits = strip_0x_hex_prefix(hex_chain_id)?;
    match parse_hex_quantity(digits) {
        None => Err(Error::invalid_params("Invalid U64")),
        Some(number) => match ChainId::from_u64(number) {
            Some(chain) => Ok(chain),
            None => Err(Error::invalid_params("Unsupported chain id")),
        },
    }
}

/// Sixteen to the power of `digits`.
pub open spec fn sixteen_to(digits: nat) -> nat
    decreases digits,
{
    if digits == 0 {
        1
    } else {
        16 * sixteen_to((digits - 1) as nat)
    }
}

/// The digits written for a number are hex digits, none of them an `x`, and
/// they stand for that number.
pub proof fn lemma_hex_digits_value(number: nat)
    ensures
        hex_digits(number).len() >= 1,
        forall|i: int|
            0 <= i < hex_digits(number).len() ==> is_lower_hex_char(#[trigger] hex_digits(number)[i]),
        all_hex(hex_digits(number)),
        hex_value(hex_digits(number)) == number,
    decreases number,
{
    let digits = hex_digits(number);
    if number < 16 {
        lemma_lower_hex_digit_value(number);
        assert(digits.drop_last() =~= Seq::<char>::empty());
        assert(hex_value(digits.drop_last()) == 0);
    } else {
        let upper = hex_digits(number / 16);
        lemma_hex_digits_value(number / 16);
        lemma_lower_hex_digit_value(number % 16);
        assert(digits.drop_last() =~= upper);
        assert(digits.last() == lower_hex_digit(number % 16));
        assert forall|i: int| 0 <= i < digits.len() implies is_lower_hex_char(#[trigger] digits[i]) by {
            if i < upper.len() {
                assert(digits[i] == upper[i]);
            }
        }
    }
    assert forall|i: int| 0 <= i < digits.len() implies is_hex_char(#[trigger] digits[i]) by {
        assert(is_lower_hex_char(digits[i]));
    }
}

/// A number below sixteen to the `places` is written with at most `places` digits.
pub proof fn lemma_hex_digits_len(number: nat, places: nat)
    requires
        places >= 1,
        number < sixteen_to(places),
    ensures
        hex_digits(number).len() <= places,
    decreases places,
{
    reveal_with_fuel(sixteen_to, 2);
    if number >= 16 {
        assert(places >= 2);
        lemma_hex_digits_len(number / 16, (places - 1) as nat);
    }
}

/// Reading back the hex quantity written for a number of 64 bits gives the number.
pub proof fn lemma_hex_quantity_round_trip(number: u64)
    ensures
        has_0x_prefix(hex_quantity(number as nat)),
        parse_hex_u64(hex_quantity(number as nat).subrange(2, hex_quantity(number as nat).len() as int))
            == Some(number),
{
    let digits = hex_digits(number as nat);
    let text = hex_quantity(number as nat);
    lemma_hex_digits_value(number as nat);
    assert(sixteen_to(16) == 0x1_0000_0000_0000_0000) by {
        reveal_with_fuel(sixteen_to, 17);
    }
    lemma_hex_digits_len(number as nat, 16);
    assert(text.subrange(2, text.len() as int) =~= digits);
    assert(!has_0x_prefix(digits)) by {
        if digits.len() >= 2 {
            assert(is_lower_hex_char(digits[1]));
        }
    }
    assert(without_0x_prefix(digits) == digits);
}

/// For every supported chain, the chain id parser reads the chain's hex text back
/// as that chain.
pub proof fn lemma_chain_id_round_trip(chain: ChainId)
    ensures
        parse_chain_id(chain.hex_text()) == Ok::<ChainId, ErrorView>(chain),
{
    lemma_hex_quantity_round_trip(chain.spec_to_u64());
}

} // verus!
