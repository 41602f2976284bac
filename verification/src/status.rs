//! The closed set of reading states and its stored textual form.

use vstd::prelude::*;
use vstd::pervasive::unreached;
use vstd::string::*;

verus! {

/// Where a reader stands with a book.
#[derive(Debug, Clone, Copy, PartialEq, Eq, Structural)]
pub enum ReadingStatus {
    ToRead,
    Reading,
    Completed,
}

/// The token under which a status is stored.
pub open spec fn token_of(status: ReadingStatus) -> Seq<char> {
    match status {
        ReadingStatus::ToRead => "to-read"@,
        ReadingStatus::Reading => "reading"@,
        ReadingStatus::Completed => "completed"@,
    }
}

/// Whether `token` is one of the three stored tokens.
pub open spec fn is_token(token: Seq<char>) -> bool {
    token == "to-read"@ || token == "reading"@ || token == "completed"@
}

/// The status that `token` stands for, if it stands for one.
pub open spec fn status_of(token: Seq<char>) -> Option<ReadingStatus> {
    if token == "to-read"@ {
        Some(ReadingStatus::ToRead)
    } else if token == "reading"@ {
        Some(ReadingStatus::Reading)
    } else if token == "completed"@ {
        Some(ReadingStatus::Completed)
    } else {
        None
    }
}

/// The three tokens are pairwise different.
pub proof fn tokens_distinct()
    ensures
        "to-read"@ != "reading"@,
        "to-read"@ != "completed"@,
        "reading"@ != "completed"@,
{
    reveal_strlit("to-read");
    reveal_strlit("reading");
    reveal_strlit("completed");
    assert("to-read"@.len() == 7);
    assert("reading"@.len() == 7);
    assert("completed"@.len() == 9);
    assert("to-read"@[0] == 't');
    assert("reading"@[0] == 'r');
}

/// Decoding undoes encoding: every status is read back from its own token.
pub proof fn decode_inverts_encode(status: ReadingStatus)
    ensures
        is_token(token_of(status)),
        status_of(token_of(status)) == Some(status),
{
    tokens_distinct();
}

/// Encoding undoes decoding: a token that decodes at all is a stored token,
/// and encoding the decoded status gives the same token back. Every other
/// token decodes to nothing.
pub proof fn encode_inverts_decode(token: Seq<char>)
    ensures
        is_token(token) <==> status_of(token) is Some,
        status_of(token) matches Some(status) ==> token_of(status) == token,
{
}

impl ReadingStatus {
    /// The stored token of this status.
    pub fn encode(&self) -> (token: &'static str)
        ensures
            token@ == token_of(*self),
    {
        match self {
            ReadingStatus::ToRead => "to-read",
            ReadingStatus::Reading => "reading",
            ReadingStatus::Completed => "completed",
        }
    }

    /// Reads a stored token. Anything but the three stored tokens is refused;
    /// no token falls back to a default status.
    pub fn decode(token: &str) -> (status: Option<ReadingStatus>)
        ensures
            status == status_of(token@),
    {
        let owned = token.to_owned();
        if owned == String::from_str("to-read") {
            Some(ReadingStatus::ToRead)
        } else if owned == String::from_str("reading") {
            Some(ReadingStatus::Reading)
        } else if owned == String::from_str("completed") {
            Some(ReadingStatus::Completed)
        } else {
            None
        }
    }

    /// Reads a token that is known to be one of the three stored tokens. A
    /// caller that cannot vouch for the token asks `decode`.
    pub fn from(token: String) -> (status: ReadingStatus)
        requires
            is_token(token@),
        ensures
            status_of(token@) == Some(status),
            token_of(status) == token@,
    {
        match ReadingStatus::decode(token.as_str()) {
            Some(status) => status,
            None => unreached(),
        }
    }

    /// The status chosen by a draw: 0 is to-read, 1 is reading, everything
    /// else is completed.
    pub fn from_draw(draw: u8) -> (status: ReadingStatus)
        ensures
            status == (if draw == 0 {
                ReadingStatus::ToRead
            } else if draw == 1 {
                ReadingStatus::Reading
            } else {
                ReadingStatus::Completed
            }),
    {
        match draw {
            0 => ReadingStatus::ToRead,
            1 => ReadingStatus::Reading,
            _ => ReadingStatus::Completed,
        }
    }
}

} // verus!
