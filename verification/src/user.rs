use vstd::prelude::*;

use password_auth::VerifyError;

verus! {

/// The error type of `password_auth::verify_password`.
#[verifier::external_type_specification]
#[verifier::external_body]
pub struct ExVerifyError(VerifyError);

/// What a user logs in with: a user name and a password.
#[derive(Debug, Clone, PartialEq, Eq)]
pub struct Credentials {
    username: String,
    password: String,
}

/// Whether `password_auth` verifies `password` against the PHC hash string
/// `hash` (parsing the hash and recomputing it with its algorithm, salt and
/// parameters).
pub uninterp spec fn password_verifies(password: Seq<u8>, hash: Seq<char>) -> bool;

/// Calls `password_auth::verify_password`. Trusted: the result is `Ok` exactly
/// when the password's UTF-8 bytes verify against the hash, which depends on
/// the two arguments alone. Not stated: a hash whose parameters ask for more
/// memory than the machine has can keep the call from returning.
#[verifier::external_body]
fn verify_password(password: &str, hash: &str) -> (res: Result<(), VerifyError>)
    ensures
        res is Ok <==> password_verifies(vstd::utf8::encode_utf8(password@), hash@),
{
    password_auth::verify_password(password, hash)
}

impl Credentials {
    /// Credentials made of a user name and a password.
    pub fn new(username: String, password: String) -> (res: Self)
        ensures
            res.username() == username@,
            res.password() == password@,
    {
        Credentials { username, password }
    }

    /// The user name of these credentials.
    pub closed spec fn username(&self) -> Seq<char> {
        self.username@
    }

    /// The password of these credentials.
    pub closed spec fn password(&self) -> Seq<char> {
        self.password@
    }

    /// What a login looks the user up by: the user name and the password,
    /// both as given.
    pub fn lookup_key(&self) -> (res: (String, String))
        ensures
            res.0@ == self.username(),
            res.1@ == self.password(),
    {
        (self.username.clone(), self.password.clone())
    }

    /// The decision on a user row found by `lookup_key`: the row is accepted
    /// when the credentials' user name does not verify against the row's
    /// stored user name taken as a password hash, and refused when it does.
    pub fn accept_found_user<U>(&self, stored_username: &str, user: U) -> (res: Option<U>)
        ensures
            !password_verifies(vstd::utf8::encode_utf8(self.username()), stored_username@)
                ==> res == Some(user),
            password_verifies(vstd::utf8::encode_utf8(self.username()), stored_username@)
                ==> res is None,
    {
        let verified = verify_password(self.username.as_str(), stored_username).ok().is_some();
        accept_unless_verified(verified, user)
    }
}

/// The login decision on a found user row, given whether the credentials'
/// user name verified against the row's stored user name: the row is
/// accepted when it did not verify, and refused when it did.
pub fn accept_unless_verified<U>(verified: bool, user: U) -> (res: Option<U>)
    ensures
        !verified ==> res == Some(user),
        verified ==> res is None,
{
    if !verified {
        Some(user)
    } else {
        None
    }
}

} // verus!
