//! The token persistence contract.
//!
//! The bearer token lives in a single file. The shell around this crate does
//! the reading and writing; this module fixes what is written and how a read
//! file is interpreted, so that a save followed by a load always hands the
//! same credential back.

use vstd::prelude::*;

use crate::errors::CoreError;
use crate::text::{trim_blanks, trimmed, lemma_trimmed_idempotent};

verus! {

/// What the token file holds after a save: the token with its surrounding
/// blanks stripped.
pub open spec fn stored_token(token: Seq<char>) -> Seq<char> {
    trimmed(token)
}

/// How the contents of the token file are read back: `None` stands for a
/// missing file. A missing file, and a file holding only blanks, both mean
/// that no operator is logged in.
pub open spec fn loaded_token(contents: Option<Seq<char>>) -> Result<Seq<char>, CoreError> {
    match contents {
        Option::None => Result::Err(CoreError::NotAuthenticated),
        Option::Some(s) => if trimmed(s).len() == 0 {
            Result::Err(CoreError::NotAuthenticated)
        } else {
            Result::Ok(trimmed(s))
        },
    }
}

/// The bytes to write when persisting a token.
pub fn token_file_payload(token: &str) -> (r: String)
    ensures
        r@ == stored_token(token@),
{
    trim_blanks(token)
}

/// Interprets what was (or was not) read from the token file.
pub fn interpret_token_file(contents: Option<&str>) -> (r: Result<String, CoreError>)
    ensures
        match r {
            Result::Ok(t) => loaded_token(view_of(contents)) == Result::<Seq<char>, CoreError>::Ok(
                t@,
            ),
            Result::Err(e) => e is NotAuthenticated && loaded_token(view_of(contents))
                == Result::<Seq<char>, CoreError>::Err(CoreError::NotAuthenticated),
        },
{
    match contents {
        Option::None => Result::Err(CoreError::NotAuthenticated),
        Option::Some(s) => {
            let t = trim_blanks(s);
            if t.as_str().unicode_len() == 0 {
                Result::Err(CoreError::NotAuthenticated)
            } else {
                Result::Ok(t)
            }
        },
    }
}

/// The view of an optional string.
pub open spec fn view_of(contents: Option<&str>) -> Option<Seq<char>> {
    match contents {
        Option::None => Option::None,
        Option::Some(s) => Option::Some(s@),
    }
}

/// Law: saving a token and loading it back yields exactly the token with its
/// surrounding blanks stripped, whenever anything at all was saved that is
/// more than blanks; a token of blanks alone, like a missing file, loads as
/// `NotAuthenticated`.
pub proof fn lemma_token_round_trip(token: Seq<char>)
    ensures
        trimmed(token).len() > 0 ==> loaded_token(Option::Some(stored_token(token)))
            == Result::<Seq<char>, CoreError>::Ok(trimmed(token)),
        trimmed(token).len() == 0 ==> loaded_token(Option::Some(stored_token(token)))
            == Result::<Seq<char>, CoreError>::Err(CoreError::NotAuthenticated),
{
    lemma_trimmed_idempotent(token);
}

} // verus!
