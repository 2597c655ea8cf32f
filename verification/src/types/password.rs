use crate::api::login::credentials_outcome;
use crate::crypto::{
    argon2_phc, argon2_verdict, argon2id_prefix, generate_salt, hash_password, is_generated_salt,
    phc_well_formed,
};
use crate::types::response::IdentityErrorView;
use crate::unicode::{
    alphanumeric, is_alphanumeric, is_lowercase, is_numeric, is_uppercase, lowercase, numeric,
    uppercase,
};
use vstd::prelude::*;
use vstd::utf8::encode_utf8;

verus! {

/// The fewest bytes a password may have.
pub const MIN_PASSWORD_BYTES: usize = 12;

/// The most bytes a password may have.
pub const MAX_PASSWORD_BYTES: usize = 128;

/// The length of the text in bytes of its UTF-8 encoding (what `str::len` gives).
pub open spec fn byte_len(s: Seq<char>) -> nat {
    encode_utf8(s).len()
}

/// Whether some character is uppercase.
pub open spec fn has_uppercase(s: Seq<char>) -> bool {
    exists|i: int| 0 <= i < s.len() && uppercase(#[trigger] s[i])
}

/// Whether some character is lowercase.
pub open spec fn has_lowercase(s: Seq<char>) -> bool {
    exists|i: int| 0 <= i < s.len() && lowercase(#[trigger] s[i])
}

/// Whether some character is numeric.
pub open spec fn has_number(s: Seq<char>) -> bool {
    exists|i: int| 0 <= i < s.len() && numeric(#[trigger] s[i])
}

/// A special character is one that is neither alphabetic nor numeric.
pub open spec fn has_special(s: Seq<char>) -> bool {
    exists|i: int| 0 <= i < s.len() && !alphanumeric(#[trigger] s[i])
}

/// The first rule that the password breaks, as the message it is refused
/// with, or `None` when it keeps them all. The rules are checked in this order.
pub open spec fn password_policy_error(s: Seq<char>) -> Option<Seq<char>> {
    if byte_len(s) < MIN_PASSWORD_BYTES {
        Some("Password must be at least 12 characters"@)
    } else if byte_len(s) > MAX_PASSWORD_BYTES {
        Some("Password must be less than 128 characters"@)
    } else if !has_uppercase(s) {
        Some("Password must contain at least one uppercase letter"@)
    } else if !has_lowercase(s) {
        Some("Password must contain at least one lowercase letter"@)
    } else if !has_number(s) {
        Some("Password must contain at least one number"@)
    } else if !has_special(s) {
        Some("Password must contain at least one special character"@)
    } else {
        None
    }
}

/// A password of 12 to 128 bytes with an uppercase letter, a lowercase
/// letter, a number and a character that is neither alphabetic nor numeric
/// (a space, say) keeps the policy, wherever those characters stand.
pub proof fn lemma_policy_accepts_every_class(s: Seq<char>, up: int, low: int, num: int, special: int)
    requires
        MIN_PASSWORD_BYTES <= byte_len(s) <= MAX_PASSWORD_BYTES,
        0 <= up < s.len() && uppercase(s[up]),
        0 <= low < s.len() && lowercase(s[low]),
        0 <= num < s.len() && numeric(s[num]),
        0 <= special < s.len() && !alphanumeric(s[special]),
    ensures
        password_policy_error(s) is None,
{
    assert(uppercase(s[up]));
    assert(lowercase(s[low]));
    assert(numeric(s[num]));
    assert(!alphanumeric(s[special]));
}

/// A password refused for want of a special character has only
/// alphanumeric characters: any other character, whitespace included,
/// counts as special.
pub proof fn lemma_policy_special_means_non_alphanumeric(s: Seq<char>, i: int)
    requires
        0 <= i < s.len(),
        password_policy_error(s) == Some("Password must contain at least one special character"@),
    ensures
        alphanumeric(s[i]),
{
    reveal_strlit("Password must contain at least one special character");
    reveal_strlit("Password must be at least 12 characters");
    reveal_strlit("Password must be less than 128 characters");
    reveal_strlit("Password must contain at least one uppercase letter");
    reveal_strlit("Password must contain at least one lowercase letter");
    reveal_strlit("Password must contain at least one number");
    assert("Password must contain at least one special character"@.len() == 52);
    assert("Password must be at least 12 characters"@.len() == 39);
    assert("Password must be less than 128 characters"@.len() == 41);
    assert("Password must contain at least one uppercase letter"@.len() == 51);
    assert("Password must contain at least one lowercase letter"@.len() == 51);
    assert("Password must contain at least one number"@.len() == 41);
    if !alphanumeric(s[i]) {
        assert(has_special(s));
    }
}

/// Whether the text is the PHC string of an Argon2id hash: well formed and
/// beginning `$argon2id$v=19$`.
pub open spec fn is_argon2id_phc(h: Seq<char>) -> bool {
    phc_well_formed(h) && h.len() >= argon2id_prefix().len() && h.take(argon2id_prefix().len() as int)
        == argon2id_prefix()
}

/// The message given when hashing fails.
pub open spec fn hash_failure_message() -> Seq<char> {
    "Failed to hash password"@
}

/// What parsing `password` with the given salt gives: the policy's message,
/// or the PHC string of the hash, or the hashing failure's message.
pub open spec fn password_outcome(password: Seq<char>, salt: Seq<char>) -> Result<Seq<char>, Seq<char>> {
    match password_policy_error(password) {
        Some(m) => Err(m),
        None => match argon2_phc(password, salt) {
            Some(h) => Ok(h),
            None => Err(hash_failure_message()),
        },
    }
}

/// Whether a parse result is the given outcome.
pub open spec fn matches_outcome(r: Result<Password, String>, o: Result<Seq<char>, Seq<char>>) -> bool {
    match (r, o) {
        (Ok(p), Ok(h)) => p@ == h,
        (Err(e), Err(m)) => e@ == m,
        _ => false,
    }
}

/// Checks the password against the policy, rule by rule.
pub fn check_password_policy(password: &str) -> (r: Result<(), String>)
    ensures
        match r {
            Ok(()) => password_policy_error(password@) is None,
            Err(m) => password_policy_error(password@) == Some(m@),
        },
{
    let len: usize = password.as_bytes().len();
    if len < MIN_PASSWORD_BYTES {
        return Err(String::from_str("Password must be at least 12 characters"));
    }
    if len > MAX_PASSWORD_BYTES {
        return Err(String::from_str("Password must be less than 128 characters"));
    }
    let mut has_upper = false;
    let mut has_lower = false;
    let mut has_num = false;
    let mut has_spec = false;
    for c in it: password.chars()
        invariant
            it.seq() == password@,
            has_upper == exists|i: int| 0 <= i < it.index() && uppercase(#[trigger] password@[i]),
            has_lower == exists|i: int| 0 <= i < it.index() && lowercase(#[trigger] password@[i]),
            has_num == exists|i: int| 0 <= i < it.index() && numeric(#[trigger] password@[i]),
            has_spec == exists|i: int| 0 <= i < it.index() && !alphanumeric(#[trigger] password@[i]),
    {
        if is_uppercase(c) {
            has_upper = true;
        }
        if is_lowercase(c) {
            has_lower = true;
        }
        if is_numeric(c) {
            has_num = true;
        }
        if !is_alphanumeric(c) {
            has_spec = true;
        }
    }
    if !has_upper {
        return Err(String::from_str("Password must contain at least one uppercase letter"));
    }
    if !has_lower {
        return Err(String::from_str("Password must contain at least one lowercase letter"));
    }
    if !has_num {
        return Err(String::from_str("Password must contain at least one number"));
    }
    if !has_spec {
        return Err(String::from_str("Password must contain at least one special character"));
    }
    Ok(())
}

/// A password that kept the policy, held as its Argon2 PHC hash.
pub struct Password(String);

impl View for Password {
    type V = Seq<char>;

    closed spec fn view(&self) -> Seq<char> {
        self.0@
    }
}

impl Password {
    #[verifier::type_invariant]
    closed spec fn inv(self) -> bool {
        is_argon2id_phc(self.0@)
    }

    /// Checks `password` against the policy and hashes it with the given salt.
    pub fn parse_with_salt(password: String, salt: &str) -> (r: Result<Password, String>)
        ensures
            matches_outcome(r, password_outcome(password@, salt@)),
            r matches Ok(p) ==> argon2_verdict(password@, p@) == Some(true) && is_argon2id_phc(p@),
            password_policy_error(password@) is None && is_generated_salt(salt@) ==> r is Ok,
    {
        check_password_policy(password.as_str())?;
        proof {
            assert(byte_len(password@) <= MAX_PASSWORD_BYTES);
        }
        match hash_password(password.as_str(), salt) {
            Ok(hash) => Ok(Password(hash)),
            Err(_) => Err(String::from_str("Failed to hash password")),
        }
    }

    /// Checks `password` against the policy and hashes it with a fresh
    /// random salt. A password that keeps every rule is accepted, and it
    /// verifies against its hash.
    pub fn parse(password: String) -> (r: Result<Password, String>)
        ensures
            exists|salt: Seq<char>|
                is_generated_salt(salt) && matches_outcome(r, #[trigger] password_outcome(password@, salt)),
            password_policy_error(password@) matches Some(m) ==> (r matches Err(e) && e@ == m),
            password_policy_error(password@) is None ==> r is Ok,
            r matches Ok(p) ==> argon2_verdict(password@, p@) == Some(true) && is_argon2id_phc(p@),
            r matches Ok(p) ==> forall|id: u128, task: Seq<char>| #[trigger]
                credentials_outcome(password@, Ok((Some(id), p@)), task) == Ok::<u128, IdentityErrorView>(id),
    {
        let salt = generate_salt();
        Password::parse_with_salt(password, salt.as_str())
    }

    /// The PHC string of the hash.
    pub fn as_ref(&self) -> (r: &str)
        ensures
            r@ == self@,
            is_argon2id_phc(r@),
    {
        proof {
            use_type_invariant(self);
        }
        self.0.as_str()
    }
}

} // verus!
