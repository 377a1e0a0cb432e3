//! Identifiers of channels, branches and workers.

use vstd::prelude::*;

verus! {

/// Name of a channel, chosen by the transport layer.
pub type ChannelId = String;

/// Identifier of a branch: the 128-bit value of a version 4 UUID.
pub type BranchId = u128;

/// Identifier of a worker: the 128-bit value of a version 4 UUID.
pub type WorkerId = u128;

/// The logical actor that an observability hook reports for.
pub enum ProcessId {
    Channel(ChannelId),
    Branch(BranchId),
    Worker(WorkerId),
}

/// Whether `id` carries the version and variant bits of a random UUID.
pub open spec fn is_random_uuid(id: u128) -> bool {
    &&& (id >> 76u128) & 0xfu128 == 4u128
    &&& (id >> 62u128) & 0x3u128 == 2u128
}

/// Lower-case hexadecimal digit for a value below sixteen.
pub open spec fn hex_digit(n: u128) -> char {
    if n == 0 {
        '0'
    } else if n == 1 {
        '1'
    } else if n == 2 {
        '2'
    } else if n == 3 {
        '3'
    } else if n == 4 {
        '4'
    } else if n == 5 {
        '5'
    } else if n == 6 {
        '6'
    } else if n == 7 {
        '7'
    } else if n == 8 {
        '8'
    } else if n == 9 {
        '9'
    } else if n == 10 {
        'a'
    } else if n == 11 {
        'b'
    } else if n == 12 {
        'c'
    } else if n == 13 {
        'd'
    } else if n == 14 {
        'e'
    } else {
        'f'
    }
}

/// The `k`-th of the 32 hexadecimal digits of `id`, most significant first.
pub open spec fn id_digit(id: u128, k: int) -> char {
    hex_digit((id >> ((4 * (31 - k)) as u128)) & 0xfu128)
}

/// Hyphenated text of an identifier: 32 lower-case hexadecimal digits,
/// most significant first, in groups of 8, 4, 4, 4 and 12.
pub open spec fn id_text(id: u128) -> Seq<char> {
    Seq::new(
        36,
        |i: int|
            if i == 8 || i == 13 || i == 18 || i == 23 {
                '-'
            } else if i < 8 {
                id_digit(id, i)
            } else if i < 13 {
                id_digit(id, i - 1)
            } else if i < 18 {
                id_digit(id, i - 2)
            } else if i < 23 {
                id_digit(id, i - 3)
            } else {
                id_digit(id, i - 4)
            },
    )
}

/// Draws a fresh identifier with `uuid::Uuid::new_v4` and hands out its 128-bit
/// value (`Uuid::as_u128`). The value is random; what is claimed of every
/// outcome is that the version bits say 4 and the variant bits say RFC 4122.
/// The call panics where the operating system gives no random numbers.
#[verifier::external_body]
pub(crate) fn fresh_id() -> (id: u128)
    ensures
        is_random_uuid(id),
{
    uuid::Uuid::new_v4().as_u128()
}

/// Renders an identifier as `uuid::Uuid` displays it (`Uuid::from_u128`, then
/// `to_string`). What is claimed is the lower-case hyphenated form that
/// [`id_text`] spells out, digit by digit.
#[verifier::external_body]
pub(crate) fn render_id(id: u128) -> (text: String)
    ensures
        text@ == id_text(id),
{
    uuid::Uuid::from_u128(id).to_string()
}

/// Text of a branch or worker identifier.
pub fn id_to_string(id: u128) -> (text: String)
    ensures
        text@ == id_text(id),
        text@.len() == 36,
{
    render_id(id)
}

} // verus!
