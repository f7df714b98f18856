//! The links that the emails to users carry.
use vstd::prelude::*;
use crate::models::list::List;
use crate::models::user::User;

verus! {

/// The link that confirms an email address.
pub open spec fn confirm_link(base_url: Seq<char>, token: Seq<char>) -> Seq<char> {
    base_url + "/users/verification/"@ + token
}

/// The link that opens the password reset form.
pub open spec fn password_reset_link(base_url: Seq<char>, token: Seq<char>) -> Seq<char> {
    base_url + "/password-reset?token="@ + token
}

/// The link to the integrations of a list.
pub open spec fn integrations_link(slug: Seq<char>) -> Seq<char> {
    "https://listas.io/list/"@ + slug + "/integrations"@
}

/// The link in the email that asks a user to confirm their address: the verification
/// route of the site with the user's verification token.
pub fn confirm_email_link(base_url: &str, user: &User) -> (r: String)
    requires
        user.verification_token is Some,
    ensures
        r@ == confirm_link(base_url@, user.verification_token->0@),
{
    let token = match &user.verification_token {
        Some(t) => t,
        None => vstd::pervasive::unreached(),
    };
    base_url.to_owned().concat("/users/verification/").concat(token.as_str())
}

/// The link in the email that lets a user reset their password: the password reset
/// page of the site with the user's reset token.
pub fn password_reset_email_link(base_url: &str, user: &User) -> (r: String)
    requires
        user.password_reset_token is Some,
    ensures
        r@ == password_reset_link(base_url@, user.password_reset_token->0@),
{
    let token = match &user.password_reset_token {
        Some(t) => t,
        None => vstd::pervasive::unreached(),
    };
    base_url.to_owned().concat("/password-reset?token=").concat(token.as_str())
}

/// The link in the email that tells a user a subscription was removed: the
/// integrations page of their list.
pub fn subscription_removed_link(list: &List) -> (r: String)
    ensures
        r@ == integrations_link(list.slug@),
{
    "https://listas.io/list/".to_owned().concat(list.slug.as_str()).concat("/integrations")
}

} // verus!
