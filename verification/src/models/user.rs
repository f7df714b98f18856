//! Users, their passwords, tokens, slugs and premium subscriptions.
use vstd::prelude::*;
use crate::date::{self, DateTime};
use crate::errors::Error;
use crate::object_id::{ObjectId, encode_hex};
use crate::text::{lowercase, push_char, string_of, chars_of, to_lowercase};
use crate::util::{create_random_string, is_alphanumeric_char, slug_of, to_slug_case};

verus! {

/// A paid subscription of a user.
#[derive(Debug, Clone, PartialEq, Eq)]
pub struct Subscription {
    pub id: String,
    pub plan_id: String,
    pub checkout_id: String,
    pub status: String,
    pub updated_at: DateTime,
    pub next_bill_at: Option<DateTime>,
    pub cancel_url: Option<String>,
    pub update_url: Option<String>,
    /// When a cancelled subscription ends.
    pub cancellation_effective_at: Option<DateTime>,
}

/// A registered user.
#[derive(Debug, Clone, PartialEq, Eq)]
pub struct User {
    pub id: Option<ObjectId>,
    /// The bcrypt hash of the password.
    pub password: String,
    pub email: String,
    pub slug: String,
    pub name: String,
    pub avatar: Option<String>,
    pub google_id: Option<String>,
    pub verification_token: Option<String>,
    pub password_reset_token: Option<String>,
    pub created_at: DateTime,
    pub updated_at: DateTime,
    pub verified_at: Option<DateTime>,
    pub locked_at: Option<DateTime>,
    pub verification_token_set_at: Option<DateTime>,
    pub password_reset_token_set_at: Option<DateTime>,
    pub subscription: Option<Subscription>,
}

/// What a user shows to others.
#[derive(Debug, Clone, PartialEq, Eq)]
pub struct PublicUser {
    pub id: ObjectId,
    pub slug: String,
    pub name: String,
    pub avatar: Option<String>,
}

/// The identifier of the user that a request is authenticated as.
#[derive(Debug, Clone, Copy, PartialEq, Eq)]
pub struct UserID(pub ObjectId);

/// The user data that authentication tokens carry.
#[derive(Debug, Clone, PartialEq, Eq)]
pub struct UserPublic {
    pub id: String,
    pub email: String,
    pub name: String,
    pub slug: String,
}

/// What `bcrypt::verify` gives for a password and a hash: whether they match, or `None`
/// where the hash is malformed.
pub uninterp spec fn bcrypt_verify(password: Seq<char>, hash: Seq<char>) -> Option<bool>;

#[verifier::external_type_specification]
#[verifier::external_body]
pub struct ExBcryptError(bcrypt::BcryptError);

/// The bcrypt cost that passwords are hashed with: bcrypt's default, 2^12 rounds.
pub const PASSWORD_HASH_COST: u32 = 12;

/// The start of a bcrypt hash made with `cost` (below 100): `$2b$`, the cost in two
/// digits, and `$`.
pub open spec fn bcrypt_prefix(cost: u32) -> Seq<char> {
    "$2b$"@ + seq![(48 + cost / 10) as char, (48 + cost % 10) as char] + "$"@
}

proof fn lemma_default_prefix()
    ensures
        bcrypt_prefix(PASSWORD_HASH_COST) == "$2b$12$"@,
{
    reveal_strlit("$2b$");
    reveal_strlit("$");
    reveal_strlit("$2b$12$");
    assert(bcrypt_prefix(PASSWORD_HASH_COST) =~= "$2b$12$"@);
}

/// `bcrypt::hash` with a random salt. Its source writes `$2b$`, the cost in two digits,
/// `$`, the salt and the hash, so that `bcrypt::verify` recomputes the same hash: the
/// password verifies against the result. Costs outside 4 to 31 are refused.
#[verifier::external_body]
fn bcrypt_hash(password: &str, cost: u32) -> (r: Result<String, bcrypt::BcryptError>)
    ensures
        r matches Ok(h) ==> bcrypt_verify(password@, h@) == Some(true) && 4 <= cost <= 31
            && h@.take(7) == bcrypt_prefix(cost),
{
    bcrypt::hash(password, cost)
}

/// `bcrypt::verify`: `None` where the hash is malformed.
#[verifier::external_body]
fn bcrypt_check(password: &str, hash: &str) -> (r: Option<bool>)
    ensures
        r == bcrypt_verify(password@, hash@),
{
    match bcrypt::verify(password, hash) {
        Ok(b) => Some(b),
        Err(_) => None,
    }
}

/// What `inflector::cases::snakecase::to_snake_case` returns for a text.
pub uninterp spec fn snake_case_of(s: Seq<char>) -> Seq<char>;

/// `inflector::cases::snakecase::to_snake_case`.
#[verifier::external_body]
fn to_snake_case(s: &str) -> (r: String)
    ensures
        r@ == snake_case_of(s@),
{
    inflector::cases::snakecase::to_snake_case(s)
}

/// The part of an email address before its first `@` (the whole address if it has none).
pub open spec fn email_prefix(email: Seq<char>) -> Seq<char>
    decreases email.len(),
{
    if email.len() == 0 || email[0] == '@' {
        Seq::empty()
    } else {
        seq![email[0]] + email_prefix(email.drop_first())
    }
}

/// The slug made from an email address and a random suffix.
pub open spec fn slug_for(email: Seq<char>, random: Seq<char>) -> Seq<char> {
    snake_case_of(slug_of(email_prefix(email))) + "_"@ + lowercase(random)
}

proof fn lemma_email_prefix_at(s: Seq<char>, i: int)
    requires
        0 <= i <= s.len(),
        forall|j: int| 0 <= j < i ==> #[trigger] s[j] != '@',
        i == s.len() || s[i] == '@',
    ensures
        email_prefix(s) == s.take(i),
    decreases i,
{
    if i > 0 {
        lemma_email_prefix_at(s.drop_first(), i - 1);
        assert(s.take(i) =~= seq![s[0]] + s.drop_first().take(i - 1));
    } else {
        assert(s.take(0) =~= Seq::<char>::empty());
    }
}

/// Whether a password matches a user's password hash.
pub open spec fn password_matches(user: User, password: Seq<char>) -> bool {
    bcrypt_verify(password, user.password@) == Some(true)
}

/// Whether a user is premium at time `now`: a subscription that is not cancelled, or
/// whose cancellation takes effect after `now`.
pub open spec fn premium_at(user: User, now: DateTime) -> bool {
    match user.subscription {
        Some(s) => match s.cancellation_effective_at {
            None => true,
            Some(expires_at) => expires_at > now,
        },
        None => false,
    }
}

/// Being premium is a matter of the subscription alone: a user without one never is, a
/// user whose subscription is not cancelled always is, and a cancelled one is until the
/// cancellation takes effect; so a user premium at some time was premium at every
/// earlier time.
pub proof fn lemma_premium_rule(user: User, t1: DateTime, t2: DateTime)
    ensures
        user.subscription is None ==> !premium_at(user, t1),
        user.subscription is Some && user.subscription->0.cancellation_effective_at is None ==> premium_at(
            user,
            t1,
        ),
        user.subscription is Some && user.subscription->0.cancellation_effective_at is Some ==> (premium_at(
            user,
            t1,
        ) <==> t1 < user.subscription->0.cancellation_effective_at->0),
        t1 <= t2 && premium_at(user, t2) ==> premium_at(user, t1),
{
}

impl User {
    /// Whether the user is premium at time `now`.
    pub fn is_premium_at(&self, now: DateTime) -> (r: bool)
        ensures
            r == premium_at(*self, now),
    {
        match &self.subscription {
            Some(subscription) => {
                match subscription.cancellation_effective_at {
                    None => true,
                    Some(expires_at) => expires_at > now,
                }
            },
            None => false,
        }
    }

    /// Whether the user is premium now: has a subscription that is not cancelled, or
    /// whose cancellation takes effect in the future.
    pub fn is_premium(&self) -> (r: bool)
        ensures
            self.subscription is None ==> !r,
            (self.subscription is Some && self.subscription->0.cancellation_effective_at is None)
                ==> r,
            exists|now: DateTime| r == #[trigger] premium_at(*self, now),
    {
        match &self.subscription {
            Some(subscription) => {
                if subscription.cancellation_effective_at.is_none() {
                    assert(premium_at(*self, 0));
                    return true;
                }
                let now = date::now();
                let r = self.is_premium_at(now);
                assert(r == premium_at(*self, now));
                r
            },
            None => {
                assert(!premium_at(*self, 0));
                false
            },
        }
    }

    /// Hashes a password with bcrypt, cost 12 and a random salt.
    pub fn hash_password(password: String) -> (r: Result<String, Error>)
        ensures
            match r {
                Ok(h) => bcrypt_verify(password@, h@) == Some(true) && h@.take(7) == "$2b$12$"@,
                Err(e) => e is HashPassword,
            },
    {
        proof {
            lemma_default_prefix();
        }
        match bcrypt_hash(password.as_str(), PASSWORD_HASH_COST) {
            Ok(h) => Ok(h),
            Err(e) => Err(Error::HashPassword(e.to_string())),
        }
    }

    /// Whether a password matches the user's password hash (false for a malformed hash).
    pub fn is_password_match(&self, password: &str) -> (r: bool)
        ensures
            r == password_matches(*self, password@),
    {
        match bcrypt_check(password, self.password.as_str()) {
            Some(b) => b,
            None => false,
        }
    }

    /// Whether the user may log in with a password: the email is verified and the
    /// password matches.
    pub fn can_authenticate(&self, password: &str) -> (r: bool)
        ensures
            r == (self.verified_at is Some && password_matches(*self, password@)),
    {
        if self.verified_at.is_none() {
            return false;
        }
        self.is_password_match(password)
    }

    /// Stores a password reset token and the time it was set; the other fields stay.
    pub fn set_password_reset_token_with(&mut self, token: String, now: DateTime)
        ensures
            *final(self) == (User {
                password_reset_token: Some(token),
                password_reset_token_set_at: Some(now),
                ..*old(self)
            }),
    {
        self.password_reset_token = Some(token);
        self.password_reset_token_set_at = Some(now);
    }

    /// Sets a new random password reset token of 40 letters and digits, stamped with the
    /// current time, and returns it.
    pub fn set_password_reset_token(&mut self) -> (r: String)
        ensures
            r@.len() == 40,
            forall|i: int| 0 <= i < 40 ==> is_alphanumeric_char(#[trigger] r@[i]),
            final(self).password_reset_token_set_at is Some,
            *final(self) == (User {
                password_reset_token: Some(r),
                password_reset_token_set_at: final(self).password_reset_token_set_at,
                ..*old(self)
            }),
    {
        let now = date::now();
        let token = create_random_string(40);
        let copy = token.clone();
        self.set_password_reset_token_with(token, now);
        copy
    }

    /// Clears the password reset token and its time; the other fields stay.
    pub fn unset_password_reset_token(&mut self)
        ensures
            *final(self) == (User {
                password_reset_token: None,
                password_reset_token_set_at: None,
                ..*old(self)
            }),
    {
        self.password_reset_token = None;
        self.password_reset_token_set_at = None;
    }

    /// Replaces the password hash with a bcrypt hash of `password`; the other fields stay.
    /// On failure (no randomness for the salt) the user is unchanged.
    pub fn set_password(&mut self, password: String) -> (r: Result<(), Error>)
        ensures
            match r {
                Ok(_) => password_matches(*final(self), password@) && final(self).password@.take(7)
                    == "$2b$12$"@ && *final(self) == (User { password: final(self).password, ..*old(self) }),
                Err(e) => e is HashPassword && *final(self) == *old(self),
            },
    {
        proof {
            lemma_default_prefix();
        }
        match bcrypt_hash(password.as_str(), PASSWORD_HASH_COST) {
            Ok(h) => {
                self.password = h;
                Ok(())
            },
            Err(e) => Err(Error::HashPassword(e.to_string())),
        }
    }

    /// The slug made from an email address and a given random suffix: the snake case of
    /// the slug of the part before `@`, an underscore, and the suffix in lower case.
    pub fn create_slug_with(email: &str, random: &str) -> (r: String)
        ensures
            r@ == slug_for(email@, random@),
    {
        let chars = chars_of(email);
        let mut i: usize = 0;
        while i < chars.len() && chars[i] != '@'
            invariant
                i <= chars@.len(),
                forall|j: int| 0 <= j < i ==> #[trigger] chars@[j] != '@',
            decreases chars.len() - i,
        {
            i += 1;
        }
        proof {
            lemma_email_prefix_at(chars@, i as int);
        }
        let mut prefix: Vec<char> = Vec::new();
        let mut k: usize = 0;
        while k < i
            invariant
                k <= i <= chars@.len(),
                prefix@ =~= chars@.take(k as int),
            decreases i - k,
        {
            prefix.push(chars[k]);
            k += 1;
        }
        assert(prefix@ =~= chars@.take(i as int));
        let prefix_str = string_of(&prefix);
        assert(prefix_str@ == email_prefix(email@));
        let slug = to_slug_case(prefix_str.as_str());
        let mut r = to_snake_case(slug.as_str());
        push_char(&mut r, '_');
        let suffix = to_lowercase(random);
        let r = r.concat(suffix.as_str());
        proof {
            reveal_strlit("_");
        }
        assert(r@ =~= slug_for(email@, random@));
        r
    }

    /// A new slug for an email address: the snake case of the slug of the part before
    /// `@`, an underscore, and five random letters and digits in lower case.
    pub fn create_slug(email: &str) -> (r: String)
        ensures
            exists|random: Seq<char>|
                random.len() == 5 && (forall|i: int| 0 <= i < 5 ==> is_alphanumeric_char(#[trigger] random[i]))
                    && r@ == slug_for(email@, random),
    {
        let random = create_random_string(5);
        Self::create_slug_with(email, random.as_str())
    }

    /// The display form of the user, for tokens; its id is the hexadecimal id.
    pub fn to_display(&self) -> (r: UserPublic)
        requires
            self.id is Some,
        ensures
            r.id@ == encode_hex(self.id->0.bytes@),
            r.email == self.email,
            r.name == self.name,
            r.slug == self.slug,
    {
        let id = match &self.id {
            Some(id) => id.to_hex(),
            None => String::new(),
        };
        UserPublic {
            id,
            email: self.email.clone(),
            name: self.name.clone(),
            slug: self.slug.clone(),
        }
    }
}

impl PublicUser {
    /// What a user shows to others: id, slug, name and avatar.
    pub fn from(user: User) -> (r: PublicUser)
        requires
            user.id is Some,
        ensures
            r == (PublicUser { id: user.id->0, slug: user.slug, name: user.name, avatar: user.avatar }),
    {
        let id = match user.id {
            Some(id) => id,
            None => ObjectId { bytes: [0u8; 12] },
        };
        PublicUser { id, slug: user.slug, name: user.name, avatar: user.avatar }
    }
}

} // verus!
