//! The toolchain that contracts are built and tested with: only one of the
//! nightly or of the development channel will do.

use vstd::prelude::*;
use crate::error::{Channel, CommandError};
use crate::pattern::{find_first, occurs_at};
use crate::text::chars_of;

verus! {

/// `part` stands somewhere in `text`.
pub open spec fn contains_text(text: Seq<char>, part: Seq<char>) -> bool {
    exists|at: int| 0 <= at && #[trigger] occurs_at(text, part, at)
}

/// The channel that the version of a toolchain names: the one whose name
/// stands behind a hyphen in it, nightly before development before beta, and
/// the stable channel where none does.
pub open spec fn channel_named(version: Seq<char>) -> Channel {
    if contains_text(version, "-nightly"@) {
        Channel::Nightly
    } else if contains_text(version, "-dev"@) {
        Channel::Dev
    } else if contains_text(version, "-beta"@) {
        Channel::Beta
    } else {
        Channel::Stable
    }
}

/// Whether `part` stands somewhere in `text`.
fn has_text(text: &Vec<char>, part: &str) -> (res: bool)
    ensures
        res == contains_text(text@, part@),
{
    let part = chars_of(part);
    match find_first(text, &part, 0) {
        Some(at) => {
            assert(occurs_at(text@, part@, at as int));
            true
        },
        None => false,
    }
}

/// The channel of the toolchain that reports `version` as its version, as in
/// `rustc 1.50.0-nightly (f76ecd066 2020-12-15)`.
pub fn channel_of(version: &str) -> (channel: Channel)
    ensures
        channel == channel_named(version@),
{
    let text = chars_of(version);
    if has_text(&text, "-nightly") {
        Channel::Nightly
    } else if has_text(&text, "-dev") {
        Channel::Dev
    } else if has_text(&text, "-beta") {
        Channel::Beta
    } else {
        Channel::Stable
    }
}

/// Refuses a toolchain that cannot build contracts: one of the stable or of
/// the beta channel.
pub fn assert_channel(channel: Channel) -> (res: Result<(), CommandError>)
    ensures
        res == (if channel == Channel::Nightly || channel == Channel::Dev {
            Ok::<(), CommandError>(())
        } else {
            Err(CommandError::UnsupportedChannel { channel })
        }),
{
    match channel {
        Channel::Dev | Channel::Nightly => Ok(()),
        Channel::Stable | Channel::Beta => Err(CommandError::UnsupportedChannel { channel }),
    }
}

} // verus!
