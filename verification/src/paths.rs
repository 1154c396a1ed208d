//! The file names of the application's local state, relative to its data
//! directory. Resolving the directory itself needs the environment and so
//! is the shell's business; these functions fix the layout beneath it.

use vstd::prelude::*;

verus! {

fn join_under(base: &str, leaf: &str) -> (r: String)
    ensures
        r@ == base@ + "/"@ + leaf@,
{
    let mut out = base.to_owned();
    out.append("/");
    out.append(leaf);
    out
}

/// The transient file holding the challenge payload to be signed.
pub fn key_path(base: &str) -> (r: String)
    ensures
        r@ == base@ + "/"@ + "key"@,
{
    join_under(base, "key")
}

/// The transient file the signing tool writes the raw signature to.
pub fn sig_path(base: &str) -> (r: String)
    ensures
        r@ == base@ + "/"@ + "key.sig"@,
{
    join_under(base, "key.sig")
}

/// The durable file holding the bearer token.
pub fn token_path(base: &str) -> (r: String)
    ensures
        r@ == base@ + "/"@ + "token.dat"@,
{
    join_under(base, "token.dat")
}

/// The append-only log file.
pub fn log_path(base: &str) -> (r: String)
    ensures
        r@ == base@ + "/"@ + "debug.log"@,
{
    join_under(base, "debug.log")
}

} // verus!
