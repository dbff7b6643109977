//! The texts of outbound mail. Building a message is computation and
//! lives here; delivering it is the mail worker's concern, decoupled
//! from any request, and a delivery failure never propagates.

use vstd::prelude::*;
use vstd::string::StringExecFns;

verus! {

/// The subject line of the address-confirmation mail.
pub fn confirm_email_subject() -> (r: String)
    ensures
        r@ == "Please confirm your email address"@,
{
    "Please confirm your email address".to_owned()
}

/// The body of the address-confirmation mail: a greeting and the
/// confirmation link carrying the token.
pub fn confirm_email_body(user_name: &str, token: &str) -> (r: String)
    ensures
        r@ == "Hello "@ + user_name@ + "! Welcome to Lako. Please click the\nlink below to verify your email address. Thank you!\n\nhttps://lako.io/confirm/"@
            + token@,
{
    let mut out = String::from_str("Hello ");
    out.append(user_name);
    out.append(
        "! Welcome to Lako. Please click the\nlink below to verify your email address. Thank you!\n\nhttps://lako.io/confirm/",
    );
    out.append(token);
    out
}

} // verus!
