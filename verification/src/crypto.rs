//! Password hashing with Argon2 (the `argon2` crate, default parameters:
//! Argon2id, version 19) and random salts and identifiers.
use argon2::password_hash::{PasswordHash, PasswordHasher, PasswordVerifier, SaltString};
use argon2::Argon2;
use vstd::prelude::*;
use vstd::utf8::encode_utf8;

verus! {

/// The error type of the `password-hash` crate.
#[verifier::external_type_specification]
#[verifier::external_body]
pub struct ExPasswordHashError(argon2::password_hash::Error);

/// The PHC string that `Argon2::default().hash_password(password, salt)`
/// gives for a password and a B64 salt, or `None` where it (or decoding the
/// salt) fails.
pub uninterp spec fn argon2_phc(password: Seq<char>, salt: Seq<char>) -> Option<Seq<char>>;

/// What `PasswordHash::new` gives for a text: `Ok` where it accepts the text
/// as a PHC string, else the `Debug` rendering of its error.
pub uninterp spec fn phc_parse(phc: Seq<char>) -> Result<(), Seq<char>>;

/// Whether `PasswordHash::new` accepts the text as a PHC string.
pub open spec fn phc_well_formed(phc: Seq<char>) -> bool {
    phc_parse(phc) is Ok
}

/// What `<str as Debug>::fmt` writes for a text: the text in double quotes,
/// with the characters that need it written as escape sequences.
pub uninterp spec fn str_debug(s: Seq<char>) -> Seq<char>;

/// What `Argon2::default().verify_password(password, &PasswordHash::new(phc))`
/// answers: `Some(true)` for `Ok`, `Some(false)` for `Error::Password`,
/// `None` for any other error.
pub uninterp spec fn argon2_verdict(password: Seq<char>, phc: Seq<char>) -> Option<bool>;

/// A character of the standard Base64 alphabet (`A-Z`, `a-z`, `0-9`, `+`, `/`).
pub open spec fn is_b64_char(c: char) -> bool {
    ('A' <= c && c <= 'Z') || ('a' <= c && c <= 'z') || ('0' <= c && c <= '9') || c == '+' || c
        == '/'
}

/// The form of 16 bytes in unpadded standard Base64, as
/// `SaltString::generate` writes them: 22 characters of the alphabet, the
/// last one carrying two bits and four zero bits (`A`, `Q`, `g` or `w`).
pub open spec fn is_generated_salt(s: Seq<char>) -> bool {
    &&& s.len() == 22
    &&& forall|i: int| 0 <= i < s.len() ==> is_b64_char(#[trigger] s[i])
    &&& (s[21] == 'A' || s[21] == 'Q' || s[21] == 'g' || s[21] == 'w')
}

/// The longest password, in bytes, that Argon2 takes (`MAX_PWD_LEN`).
pub open spec fn argon2_max_password_bytes() -> nat {
    0xFFFF_FFFF
}

/// How the PHC string of an Argon2 hash with default parameters begins.
pub open spec fn argon2id_prefix() -> Seq<char> {
    "$argon2id$v=19$"@
}

/// How a password check against a stored hash failed.
#[derive(Debug)]
pub enum VerifyFailure {
    /// The password does not match the hash (`Error::Password`).
    Mismatch,
    /// Any other error of the verifier.
    Other(argon2::password_hash::Error),
}

/// Calls `SaltString::generate` with the thread-local random generator of
/// `rand`: 16 random bytes, written in unpadded Base64. Which bytes is not
/// stated.
#[verifier::external_body]
pub(crate) fn generate_salt() -> (r: String)
    ensures
        is_generated_salt(r@),
{
    SaltString::generate(&mut rand::thread_rng()).as_str().to_string()
}

/// Decodes the salt with `SaltString::from_b64` and calls
/// `Argon2::default().hash_password`, rendering the hash as a PHC string.
/// The result is named by `argon2_phc`. As the crate's documented example
/// shows, such a string begins `$argon2id$v=19$`, parses with
/// `PasswordHash::new` and verifies against the same password. A generated
/// salt passes `from_b64` and decodes to 16 bytes, at least Argon2's 8, so
/// the sources show that hashing fails only for a password longer than
/// `MAX_PWD_LEN` bytes.
#[verifier::external_body]
pub(crate) fn hash_password(password: &str, salt: &str) -> (r: Result<String, argon2::password_hash::Error>)
    ensures
        match r {
            Ok(h) => argon2_phc(password@, salt@) == Some(h@) && phc_well_formed(h@)
                && argon2_verdict(password@, h@) == Some(true) && h@.len() >= argon2id_prefix().len()
                && h@.take(argon2id_prefix().len() as int) == argon2id_prefix(),
            Err(_) => argon2_phc(password@, salt@) is None,
        },
        is_generated_salt(salt@) && encode_utf8(password@).len() <= argon2_max_password_bytes()
            ==> r is Ok,
{
    let salt = SaltString::from_b64(salt)?;
    match Argon2::default().hash_password(password.as_bytes(), &salt) {
        Ok(hash) => Ok(hash.to_string()),
        Err(e) => Err(e),
    }
}

/// Calls `PasswordHash::new`, giving its error together with the error's
/// `Debug` rendering. Its source refuses the empty text and any text that
/// does not begin with `$`; beyond that the answer is only named.
#[verifier::external_body]
pub(crate) fn parse_phc(phc: &str) -> (r: Result<(), (argon2::password_hash::Error, String)>)
    ensures
        match (r, phc_parse(phc@)) {
            (Ok(()), Ok(())) => true,
            (Err((_, d)), Err(named)) => d@ == named,
            _ => false,
        },
        phc@.len() == 0 || phc@[0] != '$' ==> r is Err,
{
    match PasswordHash::new(phc) {
        Ok(_) => Ok(()),
        Err(e) => Err((e, format!("{:?}", e))),
    }
}

/// Renders a text with `<str as Debug>::fmt`.
#[verifier::external_body]
pub(crate) fn debug_text(s: &str) -> (r: String)
    ensures
        r@ == str_debug(s@),
{
    format!("{:?}", s)
}

/// Parses the stored PHC string with `PasswordHash::new` (which succeeds by
/// the precondition) and calls `Argon2::default().verify_password`,
/// telling `Error::Password` apart from the other errors.
#[verifier::external_body]
pub(crate) fn verify_password_hash(password: &str, phc: &str) -> (r: Result<(), VerifyFailure>)
    requires
        phc_well_formed(phc@),
    ensures
        match r {
            Ok(()) => argon2_verdict(password@, phc@) == Some(true),
            Err(VerifyFailure::Mismatch) => argon2_verdict(password@, phc@) == Some(false),
            Err(VerifyFailure::Other(_)) => argon2_verdict(password@, phc@) is None,
        },
{
    let hash = PasswordHash::new(phc).expect("a well-formed PHC string");
    match Argon2::default().verify_password(password.as_bytes(), &hash) {
        Ok(()) => Ok(()),
        Err(argon2::password_hash::Error::Password) => Err(VerifyFailure::Mismatch),
        Err(e) => Err(VerifyFailure::Other(e)),
    }
}

/// Calls `SaltString::generate` with the operating system's random
/// generator (`OsRng`): 16 random bytes, written in unpadded Base64. Which
/// bytes is not stated.
#[verifier::external_body]
pub(crate) fn generate_os_salt() -> (r: String)
    ensures
        is_generated_salt(r@),
{
    SaltString::generate(&mut argon2::password_hash::rand_core::OsRng).as_str().to_string()
}

/// Renders the error with its `Display` implementation. The error is opaque
/// here, so the text is not stated.
#[verifier::external_body]
pub(crate) fn password_hash_error_text(e: &argon2::password_hash::Error) -> String {
    e.to_string()
}

/// A version 4 (random) UUID, as a 128-bit value: its version field (bits
/// 76 to 79) holds 4 and its variant field (bits 62 and 63) holds `10`.
pub open spec fn is_random_uuid(id: u128) -> bool {
    &&& (id >> 76u128) & 0xfu128 == 4
    &&& (id >> 62u128) & 0x3u128 == 2
}

/// Calls `Uuid::new_v4` and gives the identifier as its 128-bit value. The
/// crate masks random bits and sets the version to 4 and the variant to
/// `10`, which is all that is stated: the other bits are random, and
/// nothing is said of how two identifiers relate.
#[verifier::external_body]
pub(crate) fn new_user_id() -> (r: u128)
    ensures
        is_random_uuid(r),
{
    uuid::Uuid::new_v4().as_u128()
}

} // verus!
