//! The authorization guard and password hashing.
use vstd::prelude::*;
use vstd::string::StrSliceExecFns;
use vstd::utf8::{decode_utf8, encode_utf8, valid_utf8};

use crate::error::ApiError;
use crate::ident::{be_bytes, decode_text, text_to_ulid, ulid_to_binary};

verus! {

/// bcrypt's error type, carried opaquely out of the bcrypt calls.
#[verifier::external_type_specification]
#[verifier::external_body]
pub struct ExBcryptError(bcrypt::BcryptError);

/// The bcrypt hash text, at the library's cost, of a password with a salt.
pub uninterp spec fn bcrypt_hash_of(password: Seq<char>, salt: Seq<u8>) -> Seq<char>;

/// Whether bcrypt accepts a password against a hash text; `None` when the
/// hash text cannot be read.
pub uninterp spec fn bcrypt_verdict(password: Seq<char>, hash: Seq<char>) -> Option<bool>;

/// Relies on bcrypt's `hash_with_salt` at `DEFAULT_COST`, formatted by
/// `HashParts::to_string`: the text depends on the password and the salt
/// alone, and the only failure, a cost outside 4..=31, cannot occur at 12.
#[verifier::external_body]
fn bcrypt_hash_with_salt(password: &str, salt: [u8; 16]) -> (r: Result<String, bcrypt::BcryptError>)
    ensures
        r is Ok,
        r matches Ok(h) ==> h@ == bcrypt_hash_of(password@, salt@),
{
    bcrypt::hash_with_salt(password, bcrypt::DEFAULT_COST, salt).map(|h| h.to_string())
}

/// Relies on bcrypt's `verify`: the verdict depends on the password and the
/// hash text alone; an unreadable hash text is an error.
#[verifier::external_body]
fn bcrypt_verify(password: &str, hash: &str) -> (r: Result<bool, bcrypt::BcryptError>)
    ensures
        r is Ok <==> bcrypt_verdict(password@, hash@) is Some,
        r matches Ok(b) ==> bcrypt_verdict(password@, hash@) == Some(b),
{
    bcrypt::verify(password, hash)
}

/// Relies on std's `str::from_utf8`: it accepts exactly the valid UTF-8
/// byte sequences and decodes them.
#[verifier::external_body]
fn utf8_text(bytes: &[u8]) -> (r: Option<&str>)
    ensures
        r is Some <==> valid_utf8(bytes@),
        r matches Some(s) ==> s@ == decode_utf8(bytes@),
{
    std::str::from_utf8(bytes).ok()
}

/// The stored hash of `password` for the account `user_ulid`: the account's
/// 16 identifier bytes serve as the salt.
pub fn hash_password(password: &str, user_ulid: &ulid::Ulid) -> (r: Result<String, ApiError>)
    ensures
        r matches Ok(h) && h@ == bcrypt_hash_of(password@, be_bytes(user_ulid.0 as nat, 16)),
{
    match bcrypt_hash_with_salt(password, ulid_to_binary(*user_ulid)) {
        Ok(h) => Ok(h),
        Err(_) => Err(ApiError::Internal),
    }
}

/// The bytes under which a hash text is stored.
pub fn hash_bytes(hash: &str) -> (r: Vec<u8>)
    ensures
        r@ == encode_utf8(hash@),
{
    hash.as_bytes_vec()
}

/// Whether `password` matches the stored hash bytes. Bytes that are no
/// text, or a text that bcrypt cannot read, are a server fault.
pub fn check_password(password: &str, stored_hash: &[u8]) -> (r: Result<bool, ApiError>)
    ensures
        !valid_utf8(stored_hash@) ==> r == Err::<bool, ApiError>(ApiError::Internal),
        valid_utf8(stored_hash@) ==> r == match bcrypt_verdict(password@, decode_utf8(stored_hash@)) {
            Some(b) => Ok::<bool, ApiError>(b),
            None => Err(ApiError::Internal),
        },
{
    match utf8_text(stored_hash) {
        Some(hash) => match bcrypt_verify(password, hash) {
            Ok(b) => Ok(b),
            Err(_) => Err(ApiError::Internal),
        },
        None => Err(ApiError::Internal),
    }
}

/// The first step of the guard: the session's user claim, decoded. An
/// absent claim and a claim that is no identifier are both unauthorized:
/// a malformed claim is untrusted input, not a server fault.
pub fn claimed_user(claim: Option<&str>) -> (r: Result<ulid::Ulid, ApiError>)
    ensures
        claim is None ==> r == Err::<ulid::Ulid, ApiError>(ApiError::Unauthorized),
        claim matches Some(c) ==> match decode_text(c@) {
            Some(v) => r matches Ok(id) && id.0 == v,
            None => r == Err::<ulid::Ulid, ApiError>(ApiError::Unauthorized),
        },
{
    match claim {
        None => Err(ApiError::Unauthorized),
        Some(c) => match text_to_ulid(c) {
            Ok(id) => Ok(id),
            Err(_) => Err(ApiError::Unauthorized),
        },
    }
}

/// The last step of the guard: the claimed user is authenticated only while
/// the account exists and has not been removed.
pub fn check_is_logged_in(user: ulid::Ulid, is_valid: bool) -> (r: Result<ulid::Ulid, ApiError>)
    ensures
        is_valid ==> r == Ok::<ulid::Ulid, ApiError>(user),
        !is_valid ==> r == Err::<ulid::Ulid, ApiError>(ApiError::Unauthorized),
{
    if is_valid {
        Ok(user)
    } else {
        Err(ApiError::Unauthorized)
    }
}

} // verus!
