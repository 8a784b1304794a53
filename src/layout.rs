//! Byte layout of a `Tweet` account.
//!
//! An account's size is fixed when it is created, so a tweet reserves room
//! for the longest topic and content it may hold: four bytes for each
//! character, behind a four-byte length prefix.
use anchor_lang::prelude::Pubkey;
use vstd::prelude::*;

verus! {

/// Bytes of the tag that tells a tweet account apart from other accounts.
pub const DISCRIMINATOR_LENGTH: usize = 8;

/// Bytes of the author's public key.
pub const PUBLIC_KEY_LENGTH: usize = 32;

/// Bytes of the signed timestamp.
pub const TIMESTAMP_LENGTH: usize = 8;

/// Bytes of the prefix that records a string's encoded length.
pub const STRING_LENGTH_PREFIX: usize = 4;

/// Most bytes that a UTF-8 character takes.
pub const MAX_BYTES_PER_CHAR: usize = 4;

/// Most characters in a topic.
pub const MAX_TOPIC_CHARS: usize = 50;

/// Most characters in a content.
pub const MAX_CONTENT_CHARS: usize = 280;

/// Bytes reserved for a topic's text.
pub const MAX_TOPIC_LENGTH: usize = MAX_TOPIC_CHARS * MAX_BYTES_PER_CHAR;

/// Bytes reserved for a content's text.
pub const MAX_CONTENT_LENGTH: usize = MAX_CONTENT_CHARS * MAX_BYTES_PER_CHAR;

/// Bytes that a string field of at most `max_chars` characters reserves:
/// its length prefix and the worst case of its text.
pub open spec fn string_field_space(max_chars: nat) -> nat {
    STRING_LENGTH_PREFIX as nat + max_chars * MAX_BYTES_PER_CHAR as nat
}

/// Bytes that a tweet account reserves, field by field in storage order.
pub open spec fn tweet_space() -> nat {
    DISCRIMINATOR_LENGTH as nat
        + PUBLIC_KEY_LENGTH as nat
        + TIMESTAMP_LENGTH as nat
        + string_field_space(MAX_TOPIC_CHARS as nat)
        + string_field_space(MAX_CONTENT_CHARS as nat)
}

/// Solana's 32-byte public key, carried through as the tweet's author.
#[verifier::external_type_specification]
#[verifier::external_body]
pub struct ExPubkey(Pubkey);

/// One authored post, as it is stored in its account.
pub struct Tweet {
    pub author: Pubkey,
    pub timestamp: i64,
    pub topic: String,
    pub content: String,
}

impl Tweet {
    /// Bytes to allocate for a tweet account.
    pub const LEN: usize = DISCRIMINATOR_LENGTH
        + PUBLIC_KEY_LENGTH
        + TIMESTAMP_LENGTH
        + STRING_LENGTH_PREFIX
        + MAX_TOPIC_LENGTH
        + STRING_LENGTH_PREFIX
        + MAX_CONTENT_LENGTH;
}

/// The allocation size is the field-by-field reservation, 1376 bytes.
pub proof fn lemma_tweet_len()
    ensures
        Tweet::LEN as nat == tweet_space(),
        Tweet::LEN == 1376,
{
}

} // verus!
