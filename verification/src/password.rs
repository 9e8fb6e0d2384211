//! A password credential backed by Argon2id.
//!
//! A credential holds one encoded hash: a self-describing string that records
//! the algorithm, its version and cost parameters, the salt and the digest.
//! It is created by hashing a password under a fresh random salt and is read
//! whenever a candidate password is verified against it.

use crate::phc::argon2_check;
use crate::phc::argon2_check_password;
use crate::phc::argon2_hash;
use crate::phc::argon2id_phc;
use crate::phc::b64_len;
use crate::phc::default_head;
use crate::phc::default_layout;
use crate::phc::digest_chars;
use crate::phc::encode_salt;
use crate::phc::is_b64_text;
use crate::phc::lane_count_fits;
use crate::phc::lanes_in_range;
use crate::phc::params_view;
use crate::phc::parts_view;
use crate::phc::MAX_LANES;
use crate::phc::os_random_bytes;
use crate::phc::parse_phc_parts;
use crate::phc::phc_parts;
use crate::phc::salt_text;
use crate::traits::password::PasswordChecker;
use crate::traits::password::PasswordError;
use vstd::prelude::*;
use vstd::string::*;

verus! {

/// The number of random bytes in a fresh salt: 128 bits.
pub const SALT_LENGTH: usize = 16;

/// The number of characters of an encoded hash under a salt of `SALT_LENGTH`
/// bytes: 31 of algorithm, version and cost parameters, 22 of salt, a
/// separator and 43 of digest.
pub const ENCODED_LENGTH: usize = 97;

/// The text of the error for a stored hash that holds no salt.
pub open spec fn missing_salt() -> Seq<char> {
    "password hash string holds no salt"@
}

/// The text of the error for a stored hash that holds no digest.
pub open spec fn missing_digest() -> Seq<char> {
    "password hash string holds no digest"@
}

/// The text of the error for a stored hash that asks for too many lanes.
pub open spec fn too_many_lanes() -> Seq<char> {
    "password hash string asks for more than 16777215 lanes"@
}

/// Why a parsed hash cannot be handed to the algorithm, if it cannot: the
/// parser's error, a missing salt, a missing digest, or a number of lanes
/// above `MAX_LANES`, in this order. `None` where nothing stands against it.
pub open spec fn parts_failure(
    parts: Result<(bool, bool, Seq<(Seq<char>, Option<u32>)>), Seq<char>>,
) -> Option<Seq<char>> {
    match parts {
        Err(text) => Some(text),
        Ok(parts) => if !parts.0 {
            Some(missing_salt())
        } else if !parts.1 {
            Some(missing_digest())
        } else if !lanes_in_range(parts.2) {
            Some(too_many_lanes())
        } else {
            None
        },
    }
}

/// What verifying `password` against `encoded` yields. It is an error text
/// where `encoded` is not a usable hash: it does not parse, it lacks its salt
/// or its digest, it asks for too many lanes, or the algorithm cannot work
/// with what it records. Else it is whether the password matches the digest.
pub open spec fn verification(encoded: Seq<char>, password: Seq<char>) -> Result<bool, Seq<char>> {
    match parts_failure(phc_parts(encoded)) {
        Some(text) => Err(text),
        None => argon2_check(password, encoded),
    }
}

/// Whether `result` reports `verification(encoded, password)`: the same
/// boolean, or a verification error that carries the failure's text.
pub open spec fn reports_verification(
    result: Result<bool, PasswordError>,
    encoded: Seq<char>,
    password: Seq<char>,
) -> bool {
    match result {
        Ok(matched) => verification(encoded, password) == Ok::<bool, Seq<char>>(matched),
        Err(PasswordError::Verification(text)) => verification(encoded, password) == Err::<
            bool,
            Seq<char>,
        >(text@),
        Err(_) => false,
    }
}

/// The encoded hash of `password` under the salt that `bytes` encode to, or
/// the text of the failure to encode the salt or to hash.
pub open spec fn hashed_under(password: Seq<char>, bytes: Seq<u8>) -> Result<Seq<char>, Seq<char>> {
    match salt_text(bytes) {
        Err(text) => Err(text),
        Ok(salt) => argon2id_phc(password, salt),
    }
}

/// Whether `encoded` is the encoded hash of `password` under the salt bytes
/// `bytes`, laid out as every such hash is: the default algorithm, version
/// and cost parameters, the salt in unpadded Base64, and a digest of 43
/// characters.
pub open spec fn salted_hash(encoded: Seq<char>, password: Seq<char>, bytes: Seq<u8>) -> bool {
    &&& hashed_under(password, bytes) == Ok::<Seq<char>, Seq<char>>(encoded)
    &&& salt_text(bytes) is Ok
    &&& salt_text(bytes)->Ok_0.len() == b64_len(bytes.len() as int)
    &&& is_b64_text(salt_text(bytes)->Ok_0)
    &&& default_layout(encoded, salt_text(bytes)->Ok_0)
}

/// Whether `encoded` is an encoded hash of `password`: it names Argon2id in
/// version 19 with the default cost parameters, and verifying the password
/// against it yields `true`.
pub open spec fn encodes(encoded: Seq<char>, password: Seq<char>) -> bool {
    default_head().is_prefix_of(encoded) && verification(encoded, password) == Ok::<
        bool,
        Seq<char>,
    >(true)
}

/// Whether `result` is a possible outcome of hashing `password`: an encoded
/// hash of it, or a hashing error.
pub open spec fn reports_hashing(result: Result<String, PasswordError>, password: Seq<char>) -> bool {
    match result {
        Ok(encoded) => encodes(encoded@, password),
        Err(err) => err is Hashing,
    }
}

/// Whether `result` reports `named`: the same encoded hash, or a hashing
/// error with the same text.
pub open spec fn reports_named_hash(
    result: Result<String, PasswordError>,
    named: Result<Seq<char>, Seq<char>>,
) -> bool {
    match named {
        Ok(encoded) => result matches Ok(hash) && hash@ == encoded,
        Err(text) => result matches Err(PasswordError::Hashing(cause)) && cause@ == text,
    }
}

/// Turns the raw outcome of the hashing primitive into the library's result:
/// the encoded hash as it is, a failure as a hashing error with the same text.
pub fn hashing_outcome(raw: Result<String, String>) -> (result: Result<String, PasswordError>)
    ensures
        match raw {
            Ok(encoded) => result == Ok::<String, PasswordError>(encoded),
            Err(text) => result == Err::<String, PasswordError>(PasswordError::Hashing(text)),
        },
{
    match raw {
        Ok(encoded) => Ok(encoded),
        Err(text) => Err(PasswordError::Hashing(text)),
    }
}

/// Hashes `password` with Argon2id under its default parameters and the salt
/// that `bytes` encode to, and returns the encoded hash.
///
/// The result is a function of password and salt: no password is rejected
/// here, and a failure to encode the salt or to hash is a hashing error with
/// the failure's text. A hash that is returned is laid out as `salted_hash`
/// says and verifies the password.
pub fn hash_password_with_salt(password: String, bytes: Vec<u8>) -> (result: Result<
    String,
    PasswordError,
>)
    ensures
        reports_named_hash(result, hashed_under(password@, bytes@)),
        reports_hashing(result, password@),
        result matches Ok(encoded) ==> salted_hash(encoded@, password@, bytes@),
{
    let salt = match encode_salt(&bytes) {
        Ok(salt) => salt,
        Err(text) => return hashing_outcome(Err(text)),
    };
    let raw = argon2_hash(password.as_str(), salt.as_str());
    proof {
        if raw is Ok {
            lemma_layout_has_head(raw->Ok_0@, salt@);
        }
    }
    hashing_outcome(raw)
}

/// Hashes `password` with Argon2id under its default parameters and a fresh
/// random salt of `SALT_LENGTH` bytes, and returns the encoded hash.
///
/// The salt is random, so two calls on one password differ. Whatever salt was
/// drawn, a hash that is returned is the hash of the password under some salt
/// of `SALT_LENGTH` bytes, holds `ENCODED_LENGTH` characters and verifies the
/// password. A failure to draw the salt, to encode it or to hash is a hashing
/// error.
pub fn hash_password(password: String) -> (result: Result<String, PasswordError>)
    ensures
        reports_hashing(result, password@),
        result matches Ok(encoded) ==> encoded@.len() == ENCODED_LENGTH && exists|bytes: Seq<u8>|
            bytes.len() == SALT_LENGTH && #[trigger] salted_hash(encoded@, password@, bytes),
{
    let bytes = match os_random_bytes(SALT_LENGTH) {
        Ok(bytes) => bytes,
        Err(text) => return hashing_outcome(Err(text)),
    };
    let ghost drawn = bytes@;
    let ghost typed = password@;
    let result = hash_password_with_salt(password, bytes);
    proof {
        if result is Ok {
            lemma_salted_hash_length(result->Ok_0@, typed, drawn);
        }
    }
    result
}

/// A string in the default layout opens with the default head.
pub proof fn lemma_layout_has_head(encoded: Seq<char>, salt: Seq<char>)
    requires
        default_layout(encoded, salt),
    ensures
        default_head().is_prefix_of(encoded),
        encoded.len() == default_head().len() + salt.len() + 1 + digest_chars(),
{
    let digest = encoded.skip((default_head().len() + salt.len() + 1) as int);
    let tail = salt + seq!['$'] + digest;
    assert(encoded == default_head() + tail);
    assert(encoded.subrange(0, default_head().len() as int) == default_head());
}

/// The length of an encoded hash depends on the number of salt bytes alone:
/// under `SALT_LENGTH` bytes it is `ENCODED_LENGTH`, whatever the password.
pub proof fn lemma_salted_hash_length(encoded: Seq<char>, password: Seq<char>, bytes: Seq<u8>)
    requires
        salted_hash(encoded, password, bytes),
    ensures
        encoded.len() == 31 + b64_len(bytes.len() as int) + 1 + 43,
        bytes.len() == SALT_LENGTH ==> encoded.len() == ENCODED_LENGTH,
{
    reveal_strlit("$argon2id$v=19$m=19456,t=2,p=1$");
    lemma_layout_has_head(encoded, salt_text(bytes)->Ok_0);
}

/// Tells whether no parameter asks for more lanes than `MAX_LANES`.
pub fn lanes_fit(params: &Vec<(String, Option<u32>)>) -> (fit: bool)
    ensures
        fit == lanes_in_range(params_view(params@)),
{
    let lanes = String::from_str("p");
    let mut i: usize = 0;
    while i < params.len()
        invariant
            i <= params.len(),
            lanes@ == "p"@,
            forall|j: int| 0 <= j < i ==> lane_count_fits(#[trigger] params_view(params@)[j]),
        decreases params.len() - i,
    {
        let param = &params[i];
        let fits = match param.1 {
            Some(count) => !(param.0 == lanes) || count <= MAX_LANES,
            None => true,
        };
        if !fits {
            assert(!lane_count_fits(params_view(params@)[i as int]));
            return false;
        }
        i += 1;
    }
    true
}

/// Decides from what the parser found whether the stored hash can be handed
/// to the algorithm: a parser's error, a missing salt, a missing digest and
/// a number of lanes above `MAX_LANES` are verification errors, in this order.
pub fn parts_outcome(parts: Result<(bool, bool, Vec<(String, Option<u32>)>), String>) -> (result:
    Result<(), PasswordError>)
    ensures
        match parts_failure(parts_view(parts)) {
            Some(text) => result matches Err(PasswordError::Verification(cause)) && cause@ == text,
            None => result is Ok,
        },
{
    let parts = match parts {
        Ok(parts) => parts,
        Err(text) => return Err(PasswordError::Verification(text)),
    };
    if !parts.0 {
        return Err(
            PasswordError::Verification(String::from_str("password hash string holds no salt")),
        );
    }
    if !parts.1 {
        return Err(
            PasswordError::Verification(String::from_str("password hash string holds no digest")),
        );
    }
    if !lanes_fit(&parts.2) {
        return Err(
            PasswordError::Verification(
                String::from_str("password hash string asks for more than 16777215 lanes"),
            ),
        );
    }
    Ok(())
}

/// Turns the raw answer of the algorithm into the library's result: the
/// boolean as it is, a failure as a verification error with the same text.
pub fn check_outcome(raw: Result<bool, String>) -> (result: Result<bool, PasswordError>)
    ensures
        match raw {
            Ok(matched) => result == Ok::<bool, PasswordError>(matched),
            Err(text) => result == Err::<bool, PasswordError>(PasswordError::Verification(text)),
        },
{
    match raw {
        Ok(matched) => Ok(matched),
        Err(text) => Err(PasswordError::Verification(text)),
    }
}

/// Verifies `password` against the encoded hash `hash`.
///
/// A hash that is not usable is an error: one that does not parse, that lacks
/// its salt or its digest, that asks for more lanes than `MAX_LANES`, or that
/// names an algorithm, a version or parameters that Argon2 cannot work with.
/// A wrong password is no error: it is `Ok(false)`.
pub fn verify_password(password: String, hash: String) -> (result: Result<bool, PasswordError>)
    ensures
        reports_verification(result, hash@, password@),
{
    match parts_outcome(parse_phc_parts(hash.as_str())) {
        Err(err) => Err(err),
        Ok(_) => check_outcome(argon2_check_password(password.as_str(), hash.as_str())),
    }
}

/// A password credential: one Argon2 hash in its encoded form.
#[derive(Debug)]
pub struct Argon2Password(String);

impl View for Argon2Password {
    type V = Seq<char>;

    /// The encoded hash that the credential holds.
    closed spec fn view(&self) -> Seq<char> {
        self.0@
    }
}

impl Clone for Argon2Password {
    fn clone(&self) -> (copy: Self)
        ensures
            copy@ == self@,
    {
        Argon2Password(self.0.clone())
    }
}

impl Argon2Password {
    /// Whether `result` is a possible outcome of creating a credential for
    /// `password`: a credential that holds the hash of the password under
    /// some salt of `SALT_LENGTH` bytes, or a hashing error.
    pub open spec fn created_for(result: Result<Self, PasswordError>, password: Seq<char>) -> bool {
        match result {
            Ok(credential) => {
                &&& encodes(credential@, password)
                &&& credential@.len() == ENCODED_LENGTH
                &&& exists|bytes: Seq<u8>|
                    bytes.len() == SALT_LENGTH && #[trigger] salted_hash(
                        credential@,
                        password,
                        bytes,
                    )
            },
            Err(err) => err is Hashing,
        }
    }

    /// Creates the credential of `password` by hashing it under a fresh salt.
    pub fn new(password: String) -> (result: Result<Self, PasswordError>)
        ensures
            Self::created_for(result, password@),
    {
        match hash_password(password) {
            Ok(encoded) => Ok(Argon2Password(encoded)),
            Err(err) => Err(err),
        }
    }

    /// Rebuilds a credential from an encoded hash that was exported earlier.
    /// The string is taken as it is: a malformed one shows when the credential
    /// is first verified.
    pub fn from_inner(encoded: String) -> (credential: Self)
        ensures
            credential@ == encoded@,
    {
        Argon2Password(encoded)
    }

    /// Returns the encoded hash, for a caller to persist.
    pub fn to_inner(&self) -> (encoded: String)
        ensures
            encoded@ == self@,
    {
        self.0.clone()
    }
}

impl PasswordChecker for Argon2Password {
    type Password = String;

    /// Verifies `password` against the stored hash.
    fn verify(&self, password: String) -> (result: Result<bool, PasswordError>)
        ensures
            reports_verification(result, self@, password@),
    {
        verify_password(password, self.0.clone())
    }
}

/// A credential that was created for a password verifies that password:
/// whatever salt was drawn, verification reports `Ok(true)`.
pub proof fn lemma_created_credential_verifies(
    password: Seq<char>,
    created: Result<Argon2Password, PasswordError>,
    verified: Result<bool, PasswordError>,
)
    requires
        Argon2Password::created_for(created, password),
        created is Ok,
        reports_verification(verified, created->Ok_0@, password),
    ensures
        verified == Ok::<bool, PasswordError>(true),
{
}

/// Exporting a created credential and importing the exported string gives a
/// credential that still verifies the password it was created for.
pub proof fn lemma_export_import_keeps_verifying(
    password: Seq<char>,
    created: Result<Argon2Password, PasswordError>,
    exported: String,
    imported: Argon2Password,
    verified: Result<bool, PasswordError>,
)
    requires
        Argon2Password::created_for(created, password),
        created is Ok,
        exported@ == created->Ok_0@,
        imported@ == exported@,
        reports_verification(verified, imported@, password),
    ensures
        verified == Ok::<bool, PasswordError>(true),
{
}

/// Whether `encoded` is malformed: it does not parse as a hash, or the parsed
/// hash lacks its salt or its digest, or asks for too many lanes.
pub open spec fn is_malformed(encoded: Seq<char>) -> bool {
    parts_failure(phc_parts(encoded)) is Some
}

/// Verifying against a credential that was imported from a malformed string
/// reports a verification error, for every candidate: never a boolean, and
/// never an error of another kind.
pub proof fn lemma_malformed_import_is_rejected(
    encoded: String,
    imported: Argon2Password,
    candidate: Seq<char>,
    verified: Result<bool, PasswordError>,
)
    requires
        is_malformed(encoded@),
        imported@ == encoded@,
        reports_verification(verified, imported@, candidate),
    ensures
        verified matches Err(PasswordError::Verification(text)) && verification(
            encoded@,
            candidate,
        ) == Err::<bool, Seq<char>>(text@),
{
}

/// Verification never reports an error of another kind than a verification
/// error, and reports one exactly where the stored hash is not usable.
pub proof fn lemma_only_verification_errors(
    encoded: Seq<char>,
    candidate: Seq<char>,
    verified: Result<bool, PasswordError>,
)
    requires
        reports_verification(verified, encoded, candidate),
    ensures
        verified is Err <==> verification(encoded, candidate) is Err,
        verified is Err ==> verified->Err_0 is Verification,
{
}

/// Hashing is a function of password and salt: two hashes of one password
/// under the same salt bytes are the same string.
pub proof fn lemma_same_salt_same_hash(
    password: Seq<char>,
    bytes: Seq<u8>,
    first: Seq<char>,
    second: Seq<char>,
)
    requires
        salted_hash(first, password, bytes),
        salted_hash(second, password, bytes),
    ensures
        first == second,
{
}

/// The salt field of an encoded hash is the text that the salt bytes encode
/// to: it follows the default head and ends before the last separator.
pub proof fn lemma_salt_field_is_salt_text(encoded: Seq<char>, password: Seq<char>, bytes: Seq<u8>)
    requires
        salted_hash(encoded, password, bytes),
    ensures
        salt_text(bytes) is Ok,
        encoded.subrange(31, 31 + b64_len(bytes.len() as int)) == salt_text(bytes)->Ok_0,
        encoded[31 + b64_len(bytes.len() as int)] == '$',
        is_b64_text(encoded.subrange(31, 31 + b64_len(bytes.len() as int))),
        is_b64_text(encoded.subrange(32 + b64_len(bytes.len() as int), encoded.len() as int)),
        encoded.len() - (32 + b64_len(bytes.len() as int)) == 43,
{
    reveal_strlit("$argon2id$v=19$m=19456,t=2,p=1$");
    let salt = salt_text(bytes)->Ok_0;
    lemma_layout_has_head(encoded, salt);
    let digest = encoded.skip((default_head().len() + salt.len() + 1) as int);
    assert(encoded == default_head() + salt + seq!['$'] + digest);
    assert(encoded.subrange(31, 31 + b64_len(bytes.len() as int)) =~= salt);
    assert(encoded.subrange(32 + b64_len(bytes.len() as int), encoded.len() as int) =~= digest);
}

/// Hashes whose salts encode to different texts are different strings,
/// whatever the passwords.
pub proof fn lemma_other_salt_text_other_hash(
    first_password: Seq<char>,
    first_bytes: Seq<u8>,
    first: Seq<char>,
    second_password: Seq<char>,
    second_bytes: Seq<u8>,
    second: Seq<char>,
)
    requires
        salted_hash(first, first_password, first_bytes),
        salted_hash(second, second_password, second_bytes),
        salt_text(first_bytes) != salt_text(second_bytes),
    ensures
        first != second,
{
    lemma_salt_field_is_salt_text(first, first_password, first_bytes);
    lemma_salt_field_is_salt_text(second, second_password, second_bytes);
    if first == second {
        assert(b64_len(first_bytes.len() as int) == b64_len(second_bytes.len() as int));
        assert(salt_text(first_bytes)->Ok_0 == salt_text(second_bytes)->Ok_0);
    }
}

} // verus!
