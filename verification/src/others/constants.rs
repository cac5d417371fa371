//! The limits that the operations enforce.

use vstd::prelude::*;
use vstd::utf8::encode_utf8;

verus! {

/// A poll's description has at least this many bytes.
pub const MIN_POLL_DESC_CHAR: usize = 16;

/// An option's description has at most this many bytes.
pub const MAX_POLL_DESC_CHAR: usize = 256;

/// An option's title has at most this many bytes.
pub const MAX_POLL_OPTION_TITLE_CHAR: usize = 16;

/// A poll stays open for at least this many seconds (24 hours).
pub const MIN_POLL_DURATION: u64 = 86400;

/// A private poll lists at most this many voters.
pub const MAX_POLL_AUTHORIZED_VOTERS: usize = 16;

/// The length that the limits on texts speak of: the bytes of the text's
/// UTF-8 form, as `str::len` counts them.
pub open spec fn byte_len(text: Seq<char>) -> nat {
    encode_utf8(text).len()
}

} // verus!
