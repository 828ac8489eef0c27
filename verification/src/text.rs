//! Text that the ledger derives: composite keys, decimal numbers and the
//! identifiers of audit log entries.

use vstd::prelude::*;
use vstd::string::*;

verus! {

/// The delimiter between the parts of a derived key.
pub open spec fn delimiter() -> Seq<char> {
    seq!['.']
}

/// The key under which an item of a store is addressed: the store's
/// identifier, the delimiter, the item's identifier.
pub open spec fn composite_key(store_id: Seq<char>, item_id: Seq<char>) -> Seq<char> {
    store_id + delimiter() + item_id
}

/// The character of one decimal digit.
pub open spec fn digit(d: nat) -> char {
    if d == 0 {
        '0'
    } else if d == 1 {
        '1'
    } else if d == 2 {
        '2'
    } else if d == 3 {
        '3'
    } else if d == 4 {
        '4'
    } else if d == 5 {
        '5'
    } else if d == 6 {
        '6'
    } else if d == 7 {
        '7'
    } else if d == 8 {
        '8'
    } else {
        '9'
    }
}

/// A number written in base ten, most significant digit first, without
/// leading zeros.
pub open spec fn decimal(n: nat) -> Seq<char>
    decreases n,
{
    if n < 10 {
        seq![digit(n)]
    } else {
        decimal(n / 10).push(digit(n % 10))
    }
}

/// The identifier of the audit log entry that records an action on `entity`
/// at `timestamp`.
pub open spec fn log_id(entity: Seq<char>, timestamp: u64) -> Seq<char> {
    entity + delimiter() + decimal(timestamp as nat)
}

fn digit_text(d: u8) -> (text: &'static str)
    requires
        d < 10,
    ensures
        text@ == seq![digit(d as nat)],
{
    proof {
        reveal_strlit("0");
        reveal_strlit("1");
        reveal_strlit("2");
        reveal_strlit("3");
        reveal_strlit("4");
        reveal_strlit("5");
        reveal_strlit("6");
        reveal_strlit("7");
        reveal_strlit("8");
        reveal_strlit("9");
    }
    let text = if d == 0 {
        "0"
    } else if d == 1 {
        "1"
    } else if d == 2 {
        "2"
    } else if d == 3 {
        "3"
    } else if d == 4 {
        "4"
    } else if d == 5 {
        "5"
    } else if d == 6 {
        "6"
    } else if d == 7 {
        "7"
    } else if d == 8 {
        "8"
    } else {
        "9"
    };
    assert(text@ =~= seq![digit(d as nat)]);
    text
}

/// Appends `n` in base ten to `out`.
pub fn push_decimal(out: &mut String, n: u128)
    ensures
        final(out)@ == old(out)@ + decimal(n as nat),
    decreases n,
{
    if n >= 10 {
        push_decimal(out, n / 10);
    }
    let last: u8 = (n % 10) as u8;
    out.append(digit_text(last));
    assert(out@ =~= old(out)@ + decimal(n as nat));
}

/// Builds the composite key of an item of a store.
pub fn store_and_item_key(store_id: &str, item_id: &str) -> (key: String)
    ensures
        key@ == composite_key(store_id@, item_id@),
{
    let mut key = String::from_str(store_id);
    key.append(".");
    key.append(item_id);
    proof {
        reveal_strlit(".");
        assert("."@ =~= delimiter());
    }
    key
}

/// Builds the identifier of the audit log entry for `entity` at `timestamp`.
pub fn make_log_id(entity: &str, timestamp: u64) -> (id: String)
    ensures
        id@ == log_id(entity@, timestamp),
{
    let mut id = String::from_str(entity);
    id.append(".");
    push_decimal(&mut id, timestamp as u128);
    proof {
        reveal_strlit(".");
        assert("."@ =~= delimiter());
    }
    id
}

} // verus!
