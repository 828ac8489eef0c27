//! The JSON texts that a purchase leaves behind: the `extra` field of its
//! audit log entry and the response handed to the buyer.

use vstd::prelude::*;
use vstd::string::*;
use crate::text::{decimal, push_decimal};

verus! {

/// The JSON text of a string value: the string in double quotes, with the
/// characters escaped that JSON does not take as they are.
pub uninterp spec fn json_string(text: Seq<char>) -> Seq<char>;

/// Renders `text` as a JSON string value with `serde_json`: a
/// `serde_json::Value::String` written by the value's `Display`, which is
/// the compact form. Not proved, but taken from `serde_json`: that what is
/// written is `json_string` of `text`, that is, depends on the characters
/// of `text` alone.
#[verifier::external_body]
fn quote(text: &str) -> (quoted: String)
    ensures
        quoted@ == json_string(text@),
{
    serde_json::Value::String(text.to_string()).to_string()
}

/// The `extra` field of a purchase's log entry, given the amount paid and
/// the JSON text of the previous owner.
pub open spec fn purchase_extra(paid: u128, previous_owner_json: Seq<char>) -> Seq<char> {
    "{\"paid\":"@ + decimal(paid as nat) + ",\"previous_owner\":"@ + previous_owner_json + "}"@
}

/// The response to a purchase, given the JSON text of the log entry's
/// identifier.
pub open spec fn purchase_response(transaction_id_json: Seq<char>) -> Seq<char> {
    "{\"message\":\"your purchase is ready\",\"transaction_id\":"@ + transaction_id_json + "}"@
}

/// Frames the `extra` field of a purchase's log entry around the JSON text
/// of the previous owner.
pub fn frame_purchase_extra(paid: u128, previous_owner_json: &str) -> (extra: String)
    ensures
        extra@ == purchase_extra(paid, previous_owner_json@),
{
    let mut extra = String::from_str("{\"paid\":");
    push_decimal(&mut extra, paid);
    extra.append(",\"previous_owner\":");
    extra.append(previous_owner_json);
    extra.append("}");
    extra
}

/// Frames the response to a purchase around the JSON text of the log
/// entry's identifier.
pub fn frame_purchase_response(transaction_id_json: &str) -> (response: String)
    ensures
        response@ == purchase_response(transaction_id_json@),
{
    let mut response = String::from_str(
        "{\"message\":\"your purchase is ready\",\"transaction_id\":",
    );
    response.append(transaction_id_json);
    response.append("}");
    response
}

/// The `extra` field of the log entry of a purchase: what was paid, and
/// who owned the item before.
pub fn render_purchase_extra(paid: u128, previous_owner: &str) -> (extra: String)
    ensures
        extra@ == purchase_extra(paid, json_string(previous_owner@)),
{
    let owner = quote(previous_owner);
    frame_purchase_extra(paid, owner.as_str())
}

/// The response to a purchase: a confirmation and the identifier of the
/// log entry that records it.
pub fn render_purchase_response(transaction_id: &str) -> (response: String)
    ensures
        response@ == purchase_response(json_string(transaction_id@)),
{
    let id = quote(transaction_id);
    frame_purchase_response(id.as_str())
}

} // verus!
