//! The replies of the Scheduality HTTP server, and the UUIDs that name its
//! entities.

use crate::calendar::{chrono_parse_compact, CalendarDate};
use vstd::prelude::*;

verus! {

/// `16` to the power `k`.
pub open spec fn pow16(k: nat) -> nat
    decreases k,
{
    if k == 0 {
        1
    } else {
        16 * pow16((k - 1) as nat)
    }
}

/// The lowercase hexadecimal digit of `n` (0 to 15).
pub open spec fn hex_digit(n: nat) -> char {
    if n < 10 {
        (n + 48) as char
    } else {
        (n + 87) as char
    }
}

/// The 32 lowercase hexadecimal digits of a UUID, most significant first.
pub open spec fn uuid_simple_text(value: u128) -> Seq<char> {
    Seq::new(32, |i: int| hex_digit(((value as nat) / pow16((31 - i) as nat)) % 16))
}

/// The hyphenated text of a UUID: its digits grouped 8-4-4-4-12.
pub open spec fn uuid_hyphenated_text(value: u128) -> Seq<char> {
    let s = uuid_simple_text(value);
    s.subrange(0, 8) + seq!['-'] + s.subrange(8, 12) + seq!['-'] + s.subrange(12, 16) + seq!['-']
        + s.subrange(16, 20) + seq!['-'] + s.subrange(20, 32)
}

/// What `uuid::Uuid::parse_str` gives for a text, as the UUID's `u128`
/// value.
pub uninterp spec fn uuid_parse(text: Seq<char>) -> Option<u128>;

/// `uuid::Uuid::parse_str`, with the UUID read back through `as_u128`.
///
/// Claims: the result is `uuid_parse` of the text. Which texts the uuid
/// crate accepts (hyphenated, simple, braced, URN) is left to the name.
#[verifier::external_body]
fn uuid_parse_str(text: &str) -> (r: Option<u128>)
    ensures
        r == uuid_parse(text@),
{
    match uuid::Uuid::parse_str(text) {
        Ok(id) => Some(id.as_u128()),
        Err(_) => None,
    }
}

/// `Display` of `uuid::fmt::Simple` (`Uuid::simple`), on the UUID made by
/// `Uuid::from_u128`.
///
/// Claims: the text is the 32 lowercase hexadecimal digits of the value,
/// most significant first (`from_u128` stores the value big-endian and
/// the simple format writes the bytes in order, high nibble first).
#[verifier::external_body]
fn uuid_simple_string(value: u128) -> (text: String)
    ensures
        text@ == uuid_simple_text(value),
{
    uuid::Uuid::from_u128(value).simple().to_string()
}

/// `Display` of `uuid::Uuid` (the hyphenated format), on the UUID made
/// by `Uuid::from_u128`.
///
/// Claims: the text is the 32 lowercase hexadecimal digits of the value
/// grouped 8-4-4-4-12 with hyphens.
#[verifier::external_body]
fn uuid_hyphenated_string(value: u128) -> (text: String)
    ensures
        text@ == uuid_hyphenated_text(value),
{
    uuid::Uuid::from_u128(value).to_string()
}

/// The reply to a release whose date is not a `%Y%m%d` date.
pub open spec fn invalid_date_text() -> Seq<char> {
    "Invalid Date Format (use yyyymmdd)"@
}

/// The reply to adding a release, once its date has been parsed: the
/// echoed submission where the date parsed, an error text otherwise.
pub fn add_release_reply_for(input: String, parsed: Option<CalendarDate>) -> (r: String)
    ensures
        r@ == if parsed is Some {
            input@
        } else {
            invalid_date_text()
        },
{
    match parsed {
        Some(_) => input,
        None => String::from_str("Invalid Date Format (use yyyymmdd)"),
    }
}

/// The reply to adding a release: `input` (the submission as the server
/// echoes it) where chrono parses `release_date` with `%Y%m%d`, an error
/// text otherwise.
pub fn add_release_reply(input: String, release_date: &str) -> (r: String)
    ensures
        r@ == if chrono_parse_compact(release_date@) is Some {
            input@
        } else {
            invalid_date_text()
        },
{
    let parsed = CalendarDate::parse_compact(release_date);
    add_release_reply_for(input, parsed)
}

/// The reply to creating an entity: the simple text of its UUID.
pub fn create_entity_reply(uid: u128) -> (r: String)
    ensures
        r@ == uuid_simple_text(uid),
{
    uuid_simple_string(uid)
}

/// What deleting an entity comes to.
pub enum DeleteEntityPlan {
    /// Answer at once with this text.
    Reply(String),
    /// Run this query, which deletes the entity with this UUID.
    Delete { query: String, entity: u128 },
}

/// The reply where the given text is no UUID.
pub open spec fn unparsable_uuid_text() -> Seq<char> {
    "Something went wrong: could not parse Guild uuid"@
}

/// The query that deletes the entity with this UUID.
pub open spec fn delete_query_text(entity: u128) -> Seq<char> {
    "DELETE FROM Entity WHERE uid = "@ + uuid_hyphenated_text(entity)
}

/// What deleting an entity comes to once its UUID has been parsed.
pub fn delete_entity_plan(parsed: Option<u128>) -> (r: DeleteEntityPlan)
    ensures
        match parsed {
            None => r matches DeleteEntityPlan::Reply(text) && text@ == unparsable_uuid_text(),
            Some(entity) => r matches DeleteEntityPlan::Delete { query, entity: e } && e == entity
                && query@ == delete_query_text(entity),
        },
{
    match parsed {
        None => DeleteEntityPlan::Reply(
            String::from_str("Something went wrong: could not parse Guild uuid"),
        ),
        Some(entity) => {
            let mut query = String::from_str("DELETE FROM Entity WHERE uid = ");
            let id = uuid_hyphenated_string(entity);
            query.append(id.as_str());
            DeleteEntityPlan::Delete { query, entity }
        },
    }
}

/// What deleting the entity named by the text `info` comes to.
pub fn plan_delete_entity(info: &str) -> (r: DeleteEntityPlan)
    ensures
        match uuid_parse(info@) {
            None => r matches DeleteEntityPlan::Reply(text) && text@ == unparsable_uuid_text(),
            Some(entity) => r matches DeleteEntityPlan::Delete { query, entity: e } && e == entity
                && query@ == delete_query_text(entity),
        },
{
    delete_entity_plan(uuid_parse_str(info))
}

/// The reply once the delete query ran (`deleted`) or failed.
pub fn delete_entity_reply(entity: u128, deleted: bool) -> (r: String)
    ensures
        r@ == if deleted {
            "Entity "@ + uuid_simple_text(entity) + " deleted successfully"@
        } else {
            "Something went wrong: Could not delete Entitiy "@ + uuid_simple_text(entity)
        },
{
    let id = uuid_simple_string(entity);
    if deleted {
        let mut text = String::from_str("Entity ");
        text.append(id.as_str());
        text.append(" deleted successfully");
        text
    } else {
        let mut text = String::from_str("Something went wrong: Could not delete Entitiy ");
        text.append(id.as_str());
        text
    }
}

} // verus!
