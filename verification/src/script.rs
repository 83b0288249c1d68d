//! The script that is injected into a page, made from a template.
//!
//! The template is an asset of the host. It holds placeholders for what is
//! known only when the script is injected: the names under which the page
//! finds the provider and the host's request handler, and the chain on which
//! a dapp starts out.

use crate::chain::ChainId;
use crate::encoding::chars_of;
use crate::config::{
    DEFAULT_CHAIN_ID_PLACEHOLDER, DEFAULT_NETWORK_VERSION_PLACEHOLDER, REQUEST_HANDLER_PLACEHOLDER,
    RPC_PROVIDER_PLACEHOLDER,
};
use vstd::prelude::*;
use vstd::string::*;

verus! {

/// Whether `pattern` stands in `text` at position `at`.
pub open spec fn occurs_at(text: Seq<char>, pattern: Seq<char>, at: int) -> bool {
    0 <= at && at + pattern.len() <= text.len() && text.subrange(at, at + pattern.len()) == pattern
}

/// A text in which every occurrence of a pattern is replaced by another text.
/// The occurrences are taken from the left, and none overlaps the one before it.
/// The empty pattern occurs nowhere.
pub open spec fn replaced(text: Seq<char>, pattern: Seq<char>, with: Seq<char>) -> Seq<char>
    decreases text.len(),
{
    if pattern.len() == 0 || text.len() < pattern.len() {
        text
    } else if occurs_at(text, pattern, 0) {
        with + replaced(text.subrange(pattern.len() as int, text.len() as int), pattern, with)
    } else {
        seq![text[0]] + replaced(text.subrange(1, text.len() as int), pattern, with)
    }
}

/// The script for a page: the template with the four placeholders replaced, one
/// after the other.
pub open spec fn in_page_provider_script(
    template: Seq<char>,
    rpc_provider_name: Seq<char>,
    request_handler_name: Seq<char>,
) -> Seq<char> {
    let chain_id = ChainId::default_dapp_chain();
    let step1 = replaced(template, RPC_PROVIDER_PLACEHOLDER@, rpc_provider_name);
    let step2 = replaced(step1, REQUEST_HANDLER_PLACEHOLDER@, request_handler_name);
    let step3 = replaced(step2, DEFAULT_CHAIN_ID_PLACEHOLDER@, chain_id.hex_text());
    replaced(step3, DEFAULT_NETWORK_VERSION_PLACEHOLDER@, chain_id.network_version_text())
}

fn matches_at(text: &Vec<char>, pattern: &Vec<char>, at: usize) -> (found: bool)
    requires
        at + pattern@.len() <= text@.len(),
    ensures
        found == occurs_at(text@, pattern@, at as int),
{
    let length: usize = text.len();
    let mut i: usize = 0;
    while i < pattern.len()
        invariant
            i <= pattern@.len(),
            length == text@.len(),
            at + pattern@.len() <= text@.len(),
            forall|j: int| 0 <= j < i ==> text@[at + j] == pattern@[j],
        decreases pattern@.len() - i,
    {
        if text[at + i] != pattern[i] {
            assert(text@.subrange(at as int, at + pattern@.len())[i as int] != pattern@[i as int]);
            return false;
        }
        i = i + 1;
    }
    assert(text@.subrange(at as int, at + pattern@.len()) =~= pattern@);
    true
}

/// Replaces every occurrence of a pattern in a text.
pub fn replace_all(text: &Vec<char>, pattern: &Vec<char>, with: &Vec<char>) -> (result: Vec<char>)
    ensures
        result@ == replaced(text@, pattern@, with@),
{
    if pattern.len() == 0 || text.len() < pattern.len() {
        return text.clone();
    }
    let mut result: Vec<char> = Vec::new();
    let mut at: usize = 0;
    let length: usize = text.len();
    let last: usize = length - pattern.len();
    assert(text@.subrange(0, text@.len() as int) =~= text@);
    while at <= last
        invariant
            pattern@.len() > 0,
            length == text@.len(),
            last == text@.len() - pattern@.len(),
            at <= text@.len(),
            result@ + replaced(text@.subrange(at as int, text@.len() as int), pattern@, with@) == replaced(
                text@,
                pattern@,
                with@,
            ),
        decreases text@.len() - at,
    {
        let ghost rest = text@.subrange(at as int, text@.len() as int);
        if matches_at(text, pattern, at) {
            assert(rest.subrange(0, pattern@.len() as int) =~= text@.subrange(
                at as int,
                at + pattern@.len(),
            ));
            assert(rest.subrange(pattern@.len() as int, rest.len() as int) =~= text@.subrange(
                at + pattern@.len(),
                text@.len() as int,
            ));
            let ghost before = result@;
            let mut i: usize = 0;
            while i < with.len()
                invariant
                    i <= with@.len(),
                    result@ == before + with@.subrange(0, i as int),
                decreases with@.len() - i,
            {
                result.push(with[i]);
                assert(result@ =~= before + with@.subrange(0, i + 1));
                i = i + 1;
            }
            assert(with@.subrange(0, with@.len() as int) =~= with@);
            assert(result@ + replaced(
                text@.subrange(at + pattern@.len(), text@.len() as int),
                pattern@,
                with@,
            ) =~= before + replaced(rest, pattern@, with@));
            at = at + pattern.len();
        } else {
            assert(rest.subrange(0, pattern@.len() as int) =~= text@.subrange(
                at as int,
                at + pattern@.len(),
            ));
            assert(rest.subrange(1, rest.len() as int) =~= text@.subrange(at + 1, text@.len() as int));
            let ghost before = result@;
            result.push(text[at]);
            assert(result@ + replaced(text@.subrange(at + 1, text@.len() as int), pattern@, with@)
                =~= before + replaced(rest, pattern@, with@));
            at = at + 1;
        }
    }
    let ghost before = result@;
    let ghost rest = text@.subrange(at as int, text@.len() as int);
    while at < text.len()
        invariant
            at <= text@.len(),
            text@.len() - at < pattern@.len(),
            result@ + text@.subrange(at as int, text@.len() as int) == replaced(text@, pattern@, with@),
        decreases text@.len() - at,
    {
        let ghost tail = text@.subrange(at as int, text@.len() as int);
        result.push(text[at]);
        assert(result@ + text@.subrange(at + 1, text@.len() as int) =~= (result@.drop_last()) + tail);
        at = at + 1;
    }
    assert(result@ + text@.subrange(at as int, text@.len() as int) =~= result@);
    result
}

/// `String::from_iter` of std on the characters of a vector: the string of those
/// characters, in their order.
#[verifier::external_body]
fn string_of(chars: &Vec<char>) -> (text: String)
    ensures
        text@ == chars@,
{
    String::from_iter(chars.iter())
}

/// Makes the script for a page out of the template: the placeholders for the
/// provider's name, for the request handler's name, for the default chain's id
/// and for its network version are replaced, in this order.
pub fn load_in_page_provider_script(
    template: &str,
    rpc_provider_name: &str,
    request_handler_name: &str,
) -> (script: String)
    ensures
        script@ == in_page_provider_script(template@, rpc_provider_name@, request_handler_name@),
{
    let chain_id = ChainId::default_dapp_chain();
    let network_version = chain_id.network_version();
    let hex_chain_id = chain_id.display_hex();
    let text = chars_of(template);
    let text = replace_all(&text, &chars_of(RPC_PROVIDER_PLACEHOLDER), &chars_of(rpc_provider_name));
    let text = replace_all(
        &text,
        &chars_of(REQUEST_HANDLER_PLACEHOLDER),
        &chars_of(request_handler_name),
    );
    let text = replace_all(
        &text,
        &chars_of(DEFAULT_CHAIN_ID_PLACEHOLDER),
        &chars_of(hex_chain_id.as_str()),
    );
    let text = replace_all(
        &text,
        &chars_of(DEFAULT_NETWORK_VERSION_PLACEHOLDER),
        &chars_of(network_version.as_str()),
    );
    string_of(&text)
}

} // verus!
