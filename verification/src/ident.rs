//! Identifiers: UUIDs as 128-bit numbers, and their text.

use vstd::prelude::*;
use vstd::string::StringExecFns;

verus! {

/// The hyphenated lower-case text of the UUID whose 128 bits are `id`, as
/// the `uuid` crate writes it.
pub uninterp spec fn hyphenated_text(id: u128) -> Seq<char>;

/// What the `uuid` crate reads from `text`: the UUID's 128 bits, or nothing
/// where it does not accept the text.
pub uninterp spec fn parsed_text(text: Seq<char>) -> Option<u128>;

/// `Uuid`'s `Display`, on `Uuid::from_u128(id)`: the UUID in hyphenated
/// lower-case text. The contract names that text and claims of it what the
/// crate documents of its parser: it reads back every text that the crate
/// writes, as the value written.
#[verifier::external_body]
fn format_id(id: u128) -> (text: String)
    ensures
        text@ == hyphenated_text(id),
        parsed_text(text@) == Some(id),
{
    uuid::Uuid::from_u128(id).to_string()
}

/// `Uuid::parse_str`, with the UUID handed back as its 128 bits
/// (`Uuid::as_u128`). The contract names the result.
#[verifier::external_body]
fn parse_id(text: &str) -> (id: Option<u128>)
    ensures
        id == parsed_text(text@),
{
    match uuid::Uuid::parse_str(text) {
        Ok(parsed) => Some(parsed.as_u128()),
        Err(_) => None,
    }
}

/// Whether `id` is a UUID of version 4 in the variant of RFC 9562: the
/// version field holds 4, and the variant field starts with the bits 1 and 0.
/// The other 122 bits are free.
pub open spec fn is_random_uuid(id: u128) -> bool {
    id & 0x0000_0000_0000_f000_c000_0000_0000_0000 == 0x0000_0000_0000_4000_8000_0000_0000_0000
}

/// The text of an identifier: the key under which the registry and the vault
/// hold what belongs to a cluster.
pub fn id_text(id: u128) -> (text: String)
    ensures
        text@ == hyphenated_text(id),
        parsed_text(text@) == Some(id),
{
    format_id(id)
}

/// The identifier that `text` stands for. A text that is no UUID stands for
/// the nil identifier.
pub open spec fn id_of_text(text: Seq<char>) -> u128 {
    match parsed_text(text) {
        Some(id) => id,
        None => 0,
    }
}

/// Reads an identifier back from its text.
pub fn id_from_text(text: &str) -> (id: u128)
    ensures
        id == id_of_text(text@),
{
    match parse_id(text) {
        Some(id) => id,
        None => 0,
    }
}

/// A new identifier, drawn at random: a UUID of version 4.
pub fn fresh_id() -> (id: u128)
    ensures
        is_random_uuid(id),
{
    random_id()
}

/// `Uuid::new_v4`, as its 128 bits: a random identifier. The contract claims
/// what the crate sets in every identifier that it draws, the version 4 and
/// the variant, and nothing of the bits that are drawn.
#[verifier::external_body]
fn random_id() -> (id: u128)
    ensures
        is_random_uuid(id),
{
    uuid::Uuid::new_v4().as_u128()
}

/// The name of the consumer group of one sampling read.
pub open spec fn group_name(token: u128) -> Seq<char> {
    "kafkust-consumer-"@ + hyphenated_text(token)
}

/// Builds the name of the throwaway consumer group of one sampling read.
pub fn group_id(token: u128) -> (name: String)
    ensures
        name@ == group_name(token),
{
    let mut name = String::from_str("kafkust-consumer-");
    let text = format_id(token);
    name.append(text.as_str());
    name
}

} // verus!
