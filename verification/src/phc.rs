//! The boundary to the `argon2` crate: the names of what the crate's
//! functions compute, and one wrapper for each function that is called.
//! Nothing in this module is proved; every contract here is taken on trust
//! from the crate's source.

use argon2::password_hash::PasswordHasher;
use argon2::password_hash::PasswordVerifier;
use argon2::password_hash::rand_core::RngCore;
use vstd::prelude::*;

verus! {

/// What `SaltString::encode_b64` makes of `bytes`: the salt's text in
/// unpadded Base64, or the text of the error it returns.
pub uninterp spec fn salt_text(bytes: Seq<u8>) -> Result<Seq<char>, Seq<char>>;

/// What `Argon2::default().hash_password` makes of `password` under the salt
/// that `Salt::from_b64` reads out of `salt`: the hash as a PHC string, or
/// the text of the error that either call returns.
pub uninterp spec fn argon2id_phc(password: Seq<char>, salt: Seq<char>) -> Result<
    Seq<char>,
    Seq<char>,
>;

/// What `PasswordHash::new` makes of `encoded`: whether the parsed hash holds
/// a salt, whether it holds a digest, and its parameters in their order, each
/// with its name and, where `Value::decimal` reads its value as a number,
/// that number; or the text of the error that the parser returns.
pub uninterp spec fn phc_parts(encoded: Seq<char>) -> Result<
    (bool, bool, Seq<(Seq<char>, Option<u32>)>),
    Seq<char>,
>;

/// What `Argon2::default().verify_password` makes of `password` and the hash
/// that `PasswordHash::new` parses out of `encoded`: `true` where it accepts,
/// `false` where it reports a mismatch, or the text of any other error.
pub uninterp spec fn argon2_check(password: Seq<char>, encoded: Seq<char>) -> Result<
    bool,
    Seq<char>,
>;

/// Whether `c` belongs to the standard Base64 alphabet.
pub open spec fn is_b64_char(c: char) -> bool {
    ('A' <= c && c <= 'Z') || ('a' <= c && c <= 'z') || ('0' <= c && c <= '9') || c == '+' || c
        == '/'
}

/// Whether `text` holds characters of the standard Base64 alphabet only.
pub open spec fn is_b64_text(text: Seq<char>) -> bool {
    forall|i: int| 0 <= i < text.len() ==> is_b64_char(#[trigger] text[i])
}

/// The number of characters that `n` bytes take in unpadded Base64.
pub open spec fn b64_len(n: int) -> int {
    if (4 * n) % 3 == 0 {
        (4 * n) / 3
    } else {
        (4 * n) / 3 + 1
    }
}

/// The fields that open every PHC string of `Argon2::default()`: the
/// algorithm, its version and the default cost parameters.
pub open spec fn default_head() -> Seq<char> {
    "$argon2id$v=19$m=19456,t=2,p=1$"@
}

/// The number of characters of a digest of the default 32 bytes.
pub open spec fn digest_chars() -> nat {
    43
}

/// Whether `encoded` is laid out as a PHC string of `Argon2::default()` under
/// the salt `salt`: the default head, the salt, a `$`, and a digest of 43
/// characters in unpadded Base64.
pub open spec fn default_layout(encoded: Seq<char>, salt: Seq<char>) -> bool {
    let digest = encoded.skip((default_head().len() + salt.len() + 1) as int);
    &&& encoded == default_head() + salt + seq!['$'] + digest
    &&& digest.len() == digest_chars()
    &&& is_b64_text(digest)
}

/// The largest number of lanes that Argon2 works with: 2^24 - 1.
pub const MAX_LANES: u32 = 0xFF_FFFF;

/// Whether the parameter is no count of lanes above `MAX_LANES`: it is not
/// named `p`, its value is no number, or the number is within the limit.
pub open spec fn lane_count_fits(param: (Seq<char>, Option<u32>)) -> bool {
    param.0 == "p"@ && param.1 is Some ==> param.1->0 <= MAX_LANES
}

/// Whether no parameter asks for more lanes than `MAX_LANES`.
pub open spec fn lanes_in_range(params: Seq<(Seq<char>, Option<u32>)>) -> bool {
    forall|i: int| 0 <= i < params.len() ==> lane_count_fits(#[trigger] params[i])
}

/// Whether the parameters that `encoded` parses to, if it parses, ask for no
/// more lanes than `MAX_LANES`.
pub open spec fn lanes_checked(encoded: Seq<char>) -> bool {
    phc_parts(encoded) is Ok ==> lanes_in_range(phc_parts(encoded)->Ok_0.2)
}

/// Whether `encoded` parses with salt and digest present and lanes within
/// the limit, and is accepted for `password`.
pub open spec fn is_accepted(encoded: Seq<char>, password: Seq<char>) -> bool {
    &&& phc_parts(encoded) is Ok
    &&& phc_parts(encoded)->Ok_0.0
    &&& phc_parts(encoded)->Ok_0.1
    &&& lanes_in_range(phc_parts(encoded)->Ok_0.2)
    &&& argon2_check(password, encoded) == Ok::<bool, Seq<char>>(true)
}

/// The parameters as plain values: each name by its characters.
pub open spec fn params_view(params: Seq<(String, Option<u32>)>) -> Seq<(Seq<char>, Option<u32>)> {
    Seq::new(params.len(), |i: int| (params[i].0@, params[i].1))
}

/// The outcome of parsing as plain values.
pub open spec fn parts_view(outcome: Result<(bool, bool, Vec<(String, Option<u32>)>), String>)
    -> Result<(bool, bool, Seq<(Seq<char>, Option<u32>)>), Seq<char>> {
    match outcome {
        Ok(parts) => Ok((parts.0, parts.1, params_view(parts.2@))),
        Err(text) => Err(text@),
    }
}

/// Whether `outcome` is the text, or the error text, that `named` holds.
pub open spec fn is_text_outcome(outcome: Result<String, String>, named: Result<
    Seq<char>,
    Seq<char>,
>) -> bool {
    match outcome {
        Ok(text) => named == Ok::<Seq<char>, Seq<char>>(text@),
        Err(text) => named == Err::<Seq<char>, Seq<char>>(text@),
    }
}

/// Whether `outcome` is the answer, or the error text, that `named` holds.
pub open spec fn is_check_outcome(outcome: Result<bool, String>, named: Result<
    bool,
    Seq<char>,
>) -> bool {
    match outcome {
        Ok(matched) => named == Ok::<bool, Seq<char>>(matched),
        Err(text) => named == Err::<bool, Seq<char>>(text@),
    }
}

/// Calls `OsRng.try_fill_bytes` on a zeroed buffer of `len` bytes and renders
/// an error as its text. The bytes differ from call to call, so only their
/// number is claimed.
#[verifier::external_body]
pub(crate) fn os_random_bytes(len: usize) -> (outcome: Result<Vec<u8>, String>)
    ensures
        outcome matches Ok(bytes) ==> bytes@.len() == len,
{
    let mut bytes = vec![0u8; len];
    match argon2::password_hash::rand_core::OsRng.try_fill_bytes(&mut bytes) {
        Ok(_) => Ok(bytes),
        Err(err) => Err(err.to_string()),
    }
}

/// Calls `SaltString::encode_b64`, which writes `bytes` as a salt in unpadded
/// Base64, and renders the salt, or the error, as its text. Claimed: the
/// outcome is the one that `salt_text` names; a salt holds characters of the
/// Base64 alphabet only, as many as the encoding of that many bytes takes.
#[verifier::external_body]
pub(crate) fn encode_salt(bytes: &Vec<u8>) -> (outcome: Result<String, String>)
    ensures
        is_text_outcome(outcome, salt_text(bytes@)),
        outcome matches Ok(salt) ==> salt@.len() == b64_len(bytes@.len() as int) && is_b64_text(salt@),
{
    match argon2::password_hash::SaltString::encode_b64(bytes) {
        Ok(salt) => Ok(salt.as_str().to_string()),
        Err(err) => Err(err.to_string()),
    }
}

/// Calls `Argon2::default().hash_password` on the password's bytes and the
/// salt, read through `Salt::from_b64`, and renders what comes back: the hash
/// as a PHC string, an error as its text. Claimed: the outcome is the one
/// that `argon2id_phc` names. Of a hash: the string holds the default
/// algorithm, version and cost parameters, then the salt as it was given,
/// then a digest of 32 bytes in unpadded Base64; `PasswordHash::new` parses
/// it and finds salt and digest, and one lane as the default asks for; and
/// `verify_password` accepts it for the same
/// password, because it recomputes the digest from the algorithm, version,
/// parameters and salt that the string records and compares it with the
/// recorded one.
#[verifier::external_body]
pub(crate) fn argon2_hash(password: &str, salt: &str) -> (outcome: Result<String, String>)
    ensures
        is_text_outcome(outcome, argon2id_phc(password@, salt@)),
        outcome matches Ok(encoded) ==> default_layout(encoded@, salt@) && is_accepted(
            encoded@,
            password@,
        ),
{
    let salt = match argon2::password_hash::Salt::from_b64(salt) {
        Ok(salt) => salt,
        Err(err) => return Err(err.to_string()),
    };
    match argon2::Argon2::default().hash_password(password.as_bytes(), salt) {
        Ok(hash) => Ok(hash.to_string()),
        Err(err) => Err(err.to_string()),
    }
}

/// Calls `PasswordHash::new` and keeps of the parsed hash whether its salt
/// and its digest are present, and each parameter's name with the number that
/// `Value::decimal` reads out of its value, if any; an error is rendered as
/// its text. Claimed: the outcome is the one that `phc_parts` names.
#[verifier::external_body]
pub(crate) fn parse_phc_parts(encoded: &str) -> (outcome: Result<
    (bool, bool, Vec<(String, Option<u32>)>),
    String,
>)
    ensures
        parts_view(outcome) == phc_parts(encoded@),
{
    let parsed = match argon2::password_hash::PasswordHash::new(encoded) {
        Ok(parsed) => parsed,
        Err(err) => return Err(err.to_string()),
    };
    let params = parsed.params.iter().map(
        |(name, value)| (name.as_str().to_string(), value.decimal().ok()),
    ).collect();
    Ok((parsed.salt.is_some(), parsed.hash.is_some(), params))
}

/// Calls `Argon2::default().verify_password` on the hash that
/// `PasswordHash::new` parses out of `encoded`. Acceptance is rendered as
/// `true`, the mismatch error `Error::Password` as `false`, and every other
/// error of either call as its text. Claimed: the outcome is the one that
/// `argon2_check` names.
///
/// The call multiplies the number of lanes by eight in 32 bits before it
/// tests it, so a hash that asks for more than `MAX_LANES` is kept out.
#[verifier::external_body]
pub(crate) fn argon2_check_password(password: &str, encoded: &str) -> (outcome: Result<
    bool,
    String,
>)
    requires
        lanes_checked(encoded@),
    ensures
        is_check_outcome(outcome, argon2_check(password@, encoded@)),
{
    let parsed = match argon2::password_hash::PasswordHash::new(encoded) {
        Ok(parsed) => parsed,
        Err(err) => return Err(err.to_string()),
    };
    match argon2::Argon2::default().verify_password(password.as_bytes(), &parsed) {
        Ok(_) => Ok(true),
        Err(argon2::password_hash::Error::Password) => Ok(false),
        Err(err) => Err(err.to_string()),
    }
}

} // verus!
