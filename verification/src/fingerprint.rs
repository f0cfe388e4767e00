//! Content fingerprints: a stable, file-name-safe key for a piece of render
//! content.

use std::collections::hash_map::DefaultHasher;
use std::hash::Hash;
use std::hash::Hasher;
use vstd::prelude::*;
use vstd::std_specs::hash::DefaultHasherAdditionalSpecFns;

verus! {

/// The error type of `serde_json`; carried through, never inspected.
#[verifier::external_type_specification]
#[verifier::external_body]
pub struct ExJsonError(serde_json::Error);

/// The writes that hashing a string appends to a hasher that has already
/// received the writes `before`.
pub uninterp spec fn text_writes(before: Seq<Seq<u8>>, text: Seq<char>) -> Seq<Seq<u8>>;

/// The ten decimal digits, in order.
pub open spec fn digits() -> Seq<char> {
    seq!['0', '1', '2', '3', '4', '5', '6', '7', '8', '9']
}

/// Decimal notation of `n`, most significant digit first, without padding.
pub open spec fn decimal_text(n: nat) -> Seq<char>
    decreases n,
{
    if n < 10 {
        seq![digits()[n as int]]
    } else {
        decimal_text(n / 10).push(digits()[(n % 10) as int])
    }
}

/// The value of a decimal digit; 0 for any other character.
pub open spec fn digit_value(c: char) -> nat {
    if c == '1' {
        1
    } else if c == '2' {
        2
    } else if c == '3' {
        3
    } else if c == '4' {
        4
    } else if c == '5' {
        5
    } else if c == '6' {
        6
    } else if c == '7' {
        7
    } else if c == '8' {
        8
    } else if c == '9' {
        9
    } else {
        0
    }
}

/// The number that `text` denotes when read as decimal digits.
pub open spec fn decimal_value(text: Seq<char>) -> nat
    decreases text.len(),
{
    if text.len() == 0 {
        0
    } else {
        10 * decimal_value(text.drop_last()) + digit_value(text.last())
    }
}

/// The 64-bit hash that a freshly created default hasher reports after it has
/// been fed `text`.
pub open spec fn content_hash(text: Seq<char>) -> u64 {
    DefaultHasher::spec_finish(text_writes(Seq::empty(), text))
}

/// The fingerprint of `text`: its content hash in decimal notation.
pub open spec fn fingerprint(text: Seq<char>) -> Seq<char> {
    decimal_text(content_hash(text) as nat)
}

/// Feeds a string to a hasher through `<String as Hash>::hash`.
///
/// Trusted: the writes that the hasher receives are determined by the
/// string's characters and by what it had received before.
#[verifier::external_body]
fn feed_text(text: &String, state: &mut DefaultHasher)
    ensures
        final(state)@ == text_writes(old(state)@, text@),
{
    text.hash(state)
}

/// Renders a number as JSON through `serde_json::to_string`.
///
/// Trusted: an unsigned integer is written in plain decimal notation into
/// an in-memory buffer, so the call succeeds and the text is `decimal_text`
/// of the value.
#[verifier::external_body]
fn json_number_text(value: u64) -> (r: Result<String, serde_json::Error>)
    ensures
        r is Ok,
        r is Ok ==> r->Ok_0@ == decimal_text(value as nat),
{
    serde_json::to_string(&value)
}

/// Writes a content hash as the text of a fingerprint.
pub fn hash_text(hash: u64) -> (r: String)
    ensures
        r@ == decimal_text(hash as nat),
{
    json_number_text(hash).unwrap()
}

/// Computes the fingerprint of a content string.
pub fn hash_string(s: &String) -> (r: String)
    ensures
        r@ == fingerprint(s@),
{
    let mut hasher = DefaultHasher::new();
    feed_text(s, &mut hasher);
    hash_text(hasher.finish())
}

/// Decimal notation is made of digits only and reads back as the number it
/// was written from, so different numbers have different notations.
pub proof fn lemma_decimal_text_reads_back(n: nat)
    ensures
        decimal_text(n).len() >= 1,
        forall|i: int|
            0 <= i < decimal_text(n).len() ==> digits().contains(#[trigger] decimal_text(n)[i]),
        decimal_value(decimal_text(n)) == n,
    decreases n,
{
    if n < 10 {
        assert(decimal_value(decimal_text(n).drop_last()) == 0);
    } else {
        lemma_decimal_text_reads_back(n / 10);
        let head = decimal_text(n / 10);
        assert(head.push(digits()[(n % 10) as int]).drop_last() =~= head);
    }
}

/// The power of ten with `k` zeros.
pub open spec fn power_of_ten(k: nat) -> nat
    decreases k,
{
    if k == 0 {
        1
    } else {
        10 * power_of_ten((k - 1) as nat)
    }
}

/// A number below the power of ten with `k` zeros is written with at most
/// `k` digits.
pub proof fn lemma_decimal_text_len(n: nat, k: nat)
    requires
        k >= 1,
        n < power_of_ten(k),
    ensures
        decimal_text(n).len() <= k,
    decreases k,
{
    if n >= 10 {
        assert(power_of_ten(1) == 10) by {
            reveal_with_fuel(power_of_ten, 2);
        }
        lemma_decimal_text_len(n / 10, (k - 1) as nat);
    }
}

/// A fingerprint is a non-empty run of at most twenty decimal digits, fit to
/// name a file,
/// and two contents have the same fingerprint exactly if they have the same
/// content hash.
pub proof fn lemma_fingerprint_is_key(first: Seq<char>, second: Seq<char>)
    ensures
        1 <= fingerprint(first).len() <= 20,
        forall|i: int|
            0 <= i < fingerprint(first).len() ==> digits().contains(#[trigger] fingerprint(first)[i]),
        fingerprint(first) == fingerprint(second) <==> content_hash(first) == content_hash(second),
{
    lemma_decimal_text_reads_back(content_hash(first) as nat);
    lemma_decimal_text_reads_back(content_hash(second) as nat);
    assert(power_of_ten(20) == 100_000_000_000_000_000_000nat) by {
        reveal_with_fuel(power_of_ten, 21);
    }
    lemma_decimal_text_len(content_hash(first) as nat, 20);
}

} // verus!
