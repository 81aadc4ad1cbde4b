//! Identities of one-shot tasks and latches.
use vstd::prelude::*;

verus! {

/// The lower-case hexadecimal digit of a value below sixteen.
pub open spec fn hex_digit(value: nat) -> char {
    if value < 10 {
        ('0' as nat + value) as char
    } else {
        ('a' as nat + value - 10) as char
    }
}

/// Sixteen to the power of `n`.
pub open spec fn hex_weight(n: nat) -> nat
    decreases n,
{
    if n == 0 {
        1
    } else {
        16 * hex_weight((n - 1) as nat)
    }
}

/// The hexadecimal digit of `id` that stands `place` places from the left, of thirty-two.
pub open spec fn id_digit(id: u128, place: nat) -> char {
    hex_digit(((id as nat) / hex_weight((31 - place) as nat)) % 16)
}

/// `id` as thirty-two hexadecimal digits in groups of 8, 4, 4, 4 and 12, with hyphens between.
pub open spec fn hyphenated(id: u128) -> Seq<char> {
    Seq::new(
        36,
        |i: int|
            if i == 8 || i == 13 || i == 18 || i == 23 {
                '-'
            } else if i < 8 {
                id_digit(id, i as nat)
            } else if i < 13 {
                id_digit(id, (i - 1) as nat)
            } else if i < 18 {
                id_digit(id, (i - 2) as nat)
            } else if i < 23 {
                id_digit(id, (i - 3) as nat)
            } else {
                id_digit(id, (i - 4) as nat)
            },
    )
}

/// Whether `id` has the layout of a random identity: version digit 4, variant bits `10`.
pub open spec fn is_random_id(id: u128) -> bool {
    &&& (id as nat / 0x1000_0000_0000_0000_0000) % 16 == 4
    &&& (id as nat / 0x4000_0000_0000_0000) % 4 == 2
}

/// Draws a fresh identity with `uuid::Uuid::new_v4`.
///
/// The bits are random, so the contract claims only what that function fixes of every outcome:
/// the version digit and the variant bits. That two draws differ is likely, and not claimed. On a
/// machine that has no random bytes to give, that function panics; no argument decides that.
#[verifier::external_body]
pub(crate) fn random_id() -> (id: u128)
    ensures
        is_random_id(id),
{
    uuid::Uuid::new_v4().as_u128()
}

/// Writes an identity out with the `Display` of `uuid::Uuid`, which the contract claims to be the
/// hyphenated lower-case form.
#[verifier::external_body]
pub(crate) fn id_text(id: u128) -> (text: String)
    ensures
        text@ == hyphenated(id),
{
    uuid::Uuid::from_u128(id).to_string()
}

/// `kind` and the hyphenated form of `id` between angle brackets.
pub open spec fn labelled(kind: Seq<char>, id: u128) -> Seq<char> {
    kind + "<"@ + hyphenated(id) + ">"@
}

/// The label under which a task or latch with this identity appears in logs and in the engine.
pub fn label(kind: &str, id: u128) -> (text: String)
    ensures
        text@ == labelled(kind@, id),
{
    let mut text: String = kind.to_owned();
    text.append("<");
    text.append(id_text(id).as_str());
    text.append(">");
    text
}

} // verus!
