//! The platform's endpoints, assembled from verified parts.

use vstd::prelude::*;

use crate::encode::{int_rep, push_i32_dec};

verus! {

/// The platform's API root.
pub open spec fn api_base_spec() -> Seq<char> {
    "https://markirovka.crpt.ru/api/v3/true-api"@
}

pub fn api_base() -> (r: String)
    ensures
        r@ == api_base_spec(),
{
    String::from_str("https://markirovka.crpt.ru/api/v3/true-api")
}

/// The endpoint issuing signing challenges.
pub fn auth_key_url() -> (r: String)
    ensures
        r@ == api_base_spec() + "/auth/key"@,
{
    let mut out = api_base();
    out.append("/auth/key");
    out
}

/// The endpoint confirming a signed challenge.
pub fn sign_in_url() -> (r: String)
    ensures
        r@ == api_base_spec() + "/auth/simpleSignIn"@,
{
    let mut out = api_base();
    out.append("/auth/simpleSignIn");
    out
}

/// The endpoint report requests are posted to.
pub fn tasks_url() -> (r: String)
    ensures
        r@ == api_base_spec() + "/dispenser/tasks"@,
{
    let mut out = api_base();
    out.append("/dispenser/tasks");
    out
}

/// The endpoint answering for one task's current status.
pub fn task_status_url(task_id: &str, product_code: i32) -> (r: String)
    ensures
        r@ == api_base_spec() + "/dispenser/tasks/"@ + task_id@ + "?pg="@ + int_rep(
            product_code as int,
        ),
{
    let mut out = api_base();
    out.append("/dispenser/tasks/");
    out.append(task_id);
    out.append("?pg=");
    push_i32_dec(&mut out, product_code);
    out
}

} // verus!
