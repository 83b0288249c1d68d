//! The parameters of a request, read one after the other.
//!
//! jsonrpsee reads the parameters as a sequence: each read takes one value off
//! the front of the JSON array and leaves the rest. What a read gives, and what
//! it leaves, is jsonrpsee's and serde_json's to say and is named here; in
//! which order the provider reads is fixed in verified code.

use crate::json::str_view;
use vstd::prelude::*;

verus! {

#[verifier::external_type_specification]
#[verifier::external_body]
pub struct ExParams<'a>(jsonrpsee::types::Params<'a>);

#[verifier::external_type_specification]
#[verifier::external_body]
pub struct ExParamsSequence<'a>(jsonrpsee::types::ParamsSequence<'a>);

/// The text that a sequence made of these parameters starts with.
pub uninterp spec fn sequence_start(params: jsonrpsee::types::Params<'_>) -> Seq<char>;

/// The text that a sequence has not read yet.
pub uninterp spec fn unread_params(sequence: jsonrpsee::types::ParamsSequence<'_>) -> Seq<char>;

/// The text that a sequence starts with, for parameters as they were sent.
pub uninterp spec fn new_sequence_text(raw: Option<Seq<char>>) -> Seq<char>;

/// What reading a string off the front of the unread text gives (the string, or
/// the message of the refusal), and what it leaves unread.
pub uninterp spec fn next_string_read(unread: Seq<char>) -> (Result<Seq<char>, Seq<char>>, Seq<char>);

/// What reading an address off the front of the unread text gives (its bytes, or
/// the message of the refusal), and what it leaves unread.
pub uninterp spec fn next_address_read(unread: Seq<char>) -> (Result<Seq<u8>, Seq<char>>, Seq<char>);

/// What reading a string that may be missing or null off the front of the
/// unread text gives, and what it leaves unread.
pub uninterp spec fn optional_string_read(unread: Seq<char>) -> (
    Result<Option<Seq<char>>, Seq<char>>,
    Seq<char>,
);

/// What reading an object off the front of the unread text gives (its members in
/// their order, each with its string where its value is one, or the message of
/// the refusal), and what it leaves unread.
pub uninterp spec fn next_object_read(unread: Seq<char>) -> (
    Result<Seq<(Seq<char>, Option<Seq<char>>)>, Seq<char>>,
    Seq<char>,
);

pub open spec fn text_read_view(read: Result<String, String>) -> Result<Seq<char>, Seq<char>> {
    match read {
        Ok(text) => Ok(text@),
        Err(refusal) => Err(refusal@),
    }
}

pub open spec fn bytes_read_view(read: Result<Vec<u8>, String>) -> Result<Seq<u8>, Seq<char>> {
    match read {
        Ok(bytes) => Ok(bytes@),
        Err(refusal) => Err(refusal@),
    }
}

pub open spec fn optional_text_read_view(read: Result<Option<String>, String>) -> Result<
    Option<Seq<char>>,
    Seq<char>,
> {
    match read {
        Ok(Some(text)) => Ok(Some(text@)),
        Ok(None) => Ok(None),
        Err(refusal) => Err(refusal@),
    }
}

pub open spec fn member_view(member: (String, Option<String>)) -> (Seq<char>, Option<Seq<char>>) {
    (
        member.0@,
        match member.1 {
            Some(text) => Some(text@),
            None => None,
        },
    )
}

pub open spec fn members_view(members: Seq<(String, Option<String>)>) -> Seq<
    (Seq<char>, Option<Seq<char>>),
> {
    members.map_values(|member: (String, Option<String>)| member_view(member))
}

pub open spec fn object_read_view(read: Result<Vec<(String, Option<String>)>, String>) -> Result<
    Seq<(Seq<char>, Option<Seq<char>>)>,
    Seq<char>,
> {
    match read {
        Ok(members) => Ok(members_view(members@)),
        Err(refusal) => Err(refusal@),
    }
}

/// `Params::new` of jsonrpsee. The text that a sequence of the parameters starts
/// with is a function of the text that was sent.
#[verifier::external_body]
pub(crate) fn new_params<'a>(raw: Option<&'a str>) -> (params: jsonrpsee::types::Params<'a>)
    ensures
        sequence_start(params) == new_sequence_text(str_view(raw)),
{
    jsonrpsee::types::Params::new(raw)
}

/// `Params::sequence` of jsonrpsee: a sequence that has read nothing yet.
#[verifier::external_body]
pub(crate) fn params_sequence<'a, 'b>(params: &'b jsonrpsee::types::Params<'a>) -> (sequence:
    jsonrpsee::types::ParamsSequence<'b>)
    ensures
        unread_params(sequence) == sequence_start(*params),
{
    params.sequence()
}

/// `ParamsSequence::next::<String>` of jsonrpsee. What it gives and what it
/// leaves are functions of the unread text. It fails with
/// `CallError::InvalidParams` only; the message is that of the error object
/// which jsonrpsee makes of the error.
#[verifier::external_body]
pub(crate) fn next_string(sequence: &mut jsonrpsee::types::ParamsSequence<'_>) -> (read: Result<
    String,
    String,
>)
    ensures
        text_read_view(read) == next_string_read(unread_params(*old(sequence))).0,
        unread_params(*final(sequence)) == next_string_read(unread_params(*old(sequence))).1,
{
    sequence.next::<String>().map_err(
        |error| jsonrpsee::types::ErrorObject::from(error).message().to_owned(),
    )
}

/// `ParamsSequence::next::<Address>` of jsonrpsee, reading an address of ethers,
/// which is given by its twenty bytes. It fails with `CallError::InvalidParams`
/// only; the message is that of the error object which jsonrpsee makes of the
/// error.
#[verifier::external_body]
pub(crate) fn next_address(sequence: &mut jsonrpsee::types::ParamsSequence<'_>) -> (read: Result<
    Vec<u8>,
    String,
>)
    ensures
        bytes_read_view(read) == next_address_read(unread_params(*old(sequence))).0,
        unread_params(*final(sequence)) == next_address_read(unread_params(*old(sequence))).1,
        read matches Ok(bytes) ==> bytes@.len() == 20,
{
    sequence.next::<ethers::types::Address>().map(|address| address.0.to_vec()).map_err(
        |error| jsonrpsee::types::ErrorObject::from(error).message().to_owned(),
    )
}

/// `ParamsSequence::optional_next::<String>` of jsonrpsee. It fails with
/// `CallError::InvalidParams` only; the message is that of the error object
/// which jsonrpsee makes of the error.
#[verifier::external_body]
pub(crate) fn optional_next_string(sequence: &mut jsonrpsee::types::ParamsSequence<'_>) -> (read:
    Result<Option<String>, String>)
    ensures
        optional_text_read_view(read) == optional_string_read(unread_params(*old(sequence))).0,
        unread_params(*final(sequence)) == optional_string_read(unread_params(*old(sequence))).1,
{
    sequence.optional_next::<String>().map_err(
        |error| jsonrpsee::types::ErrorObject::from(error).message().to_owned(),
    )
}

/// `ParamsSequence::next` of jsonrpsee, reading a `serde_json::Map`, whose members
/// are handed out in the map's order: each key, and the string under it where
/// `Value::as_str` finds one. The read fails with `CallError::InvalidParams`
/// only; the message is that of the error object which jsonrpsee makes of the
/// error.
#[verifier::external_body]
pub(crate) fn next_object(sequence: &mut jsonrpsee::types::ParamsSequence<'_>) -> (read: Result<
    Vec<(String, Option<String>)>,
    String,
>)
    ensures
        object_read_view(read) == next_object_read(unread_params(*old(sequence))).0,
        unread_params(*final(sequence)) == next_object_read(unread_params(*old(sequence))).1,
{
    let object = sequence.next::<serde_json::Map<String, serde_json::Value>>().map_err(
        |error| jsonrpsee::types::ErrorObject::from(error).message().to_owned(),
    )?;
    Ok(object.iter().map(|(key, value)| (key.clone(), value.as_str().map(str::to_owned))).collect())
}

/// The first parameter read as a string, or the message of the refusal.
pub open spec fn first_string_param(params: Option<Seq<char>>) -> Result<Seq<char>, Seq<char>> {
    next_string_read(new_sequence_text(params)).0
}

/// What is unread once the first parameter is read as a string.
pub open spec fn after_first_string(params: Option<Seq<char>>) -> Seq<char> {
    next_string_read(new_sequence_text(params)).1
}

/// The second parameter read as an address, behind a first that was read as a
/// string.
pub open spec fn second_address_param(params: Option<Seq<char>>) -> Result<Seq<u8>, Seq<char>> {
    next_address_read(after_first_string(params)).0
}

/// The third parameter read as a string that may be missing, behind a string and
/// an address.
pub open spec fn third_optional_string_param(params: Option<Seq<char>>) -> Result<
    Option<Seq<char>>,
    Seq<char>,
> {
    optional_string_read(next_address_read(after_first_string(params)).1).0
}

/// The first parameter read as an object.
pub open spec fn first_object_param(params: Option<Seq<char>>) -> Result<
    Seq<(Seq<char>, Option<Seq<char>>)>,
    Seq<char>,
> {
    next_object_read(new_sequence_text(params)).0
}

/// The value of the first member of a name: its string, or nothing where the
/// value is no string. Nothing at all where there is no such member.
pub open spec fn member_of(members: Seq<(Seq<char>, Option<Seq<char>>)>, name: Seq<char>) -> Option<
    Option<Seq<char>>,
>
    decreases members.len(),
{
    if members.len() == 0 {
        None
    } else if members[0].0 == name {
        Some(members[0].1)
    } else {
        member_of(members.drop_first(), name)
    }
}

/// Reads the first parameter as a string.
pub fn string_param(params: Option<&str>) -> (first: Result<String, String>)
    ensures
        text_read_view(first) == first_string_param(str_view(params)),
{
    let params = new_params(params);
    let mut sequence = params_sequence(&params);
    next_string(&mut sequence)
}

/// Reads the first parameter as an object.
pub fn object_param(params: Option<&str>) -> (first: Result<Vec<(String, Option<String>)>, String>)
    ensures
        object_read_view(first) == first_object_param(str_view(params)),
{
    let params = new_params(params);
    let mut sequence = params_sequence(&params);
    next_object(&mut sequence)
}

/// What `personal_sign` reads: a string, an address, and a string that may be
/// missing.
pub struct SignParams {
    pub message: Result<String, String>,
    pub address: Result<Vec<u8>, String>,
    pub password: Result<Option<String>, String>,
}

/// Reads the three parameters of `personal_sign`, in their order: the message
/// first, the address second, the password third.
pub fn sign_params(params: Option<&str>) -> (read: SignParams)
    ensures
        text_read_view(read.message) == first_string_param(str_view(params)),
        bytes_read_view(read.address) == second_address_param(str_view(params)),
        optional_text_read_view(read.password) == third_optional_string_param(str_view(params)),
        read.address matches Ok(bytes) ==> bytes@.len() == 20,
{
    let params = new_params(params);
    let mut sequence = params_sequence(&params);
    let message = next_string(&mut sequence);
    let address = next_address(&mut sequence);
    let password = optional_next_string(&mut sequence);
    SignParams { message, address, password }
}

/// Looks a member up by its name.
pub fn find_member(members: &Vec<(String, Option<String>)>, name: &str) -> (found: Option<
    Option<String>,
>)
    ensures
        match found {
            Some(Some(text)) => member_of(members_view(members@), name@) == Some(Some(text@)),
            Some(None) => member_of(members_view(members@), name@) == Some(None::<Seq<char>>),
            None => member_of(members_view(members@), name@) is None,
        },
{
    let ghost all = members_view(members@);
    assert(all.subrange(0, all.len() as int) =~= all);
    let mut i: usize = 0;
    while i < members.len()
        invariant
            i <= members@.len(),
            all == members_view(members@),
            member_of(all, name@) == member_of(all.subrange(i as int, all.len() as int), name@),
        decreases members@.len() - i,
    {
        let ghost rest = all.subrange(i as int, all.len() as int);
        assert(rest[0] == member_view(members@[i as int]));
        assert(rest.drop_first() =~= all.subrange(i + 1, all.len() as int));
        if crate::encoding::str_eq(members[i].0.as_str(), name) {
            return match &members[i].1 {
                Some(text) => Some(Some(text.clone())),
                None => Some(None),
            };
        }
        i = i + 1;
    }
    None
}

} // verus!
