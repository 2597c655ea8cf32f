use validator::ValidateEmail;
use vstd::prelude::*;

verus! {

/// What `ValidateEmail::validate_email` answers for the text (the HTML5
/// rules for an e-mail address, with the domain possibly an IDN or an
/// address literal).
pub uninterp spec fn email_valid(s: Seq<char>) -> bool;

/// The index of the last occurrence of `c` in `s`, or -1.
pub open spec fn last_index_of(s: Seq<char>, c: char) -> int
    decreases s.len(),
{
    if s.len() == 0 {
        -1
    } else if s.last() == c {
        s.len() - 1
    } else {
        last_index_of(s.drop_last(), c)
    }
}

/// The part before the last `@`.
pub open spec fn local_part(s: Seq<char>) -> Seq<char> {
    s.take(last_index_of(s, '@'))
}

/// The part after the last `@`.
pub open spec fn domain_part(s: Seq<char>) -> Seq<char> {
    s.skip(last_index_of(s, '@') + 1)
}

/// The characters that the local part may hold: ASCII letters and digits
/// and ``.!#$%&'*+/=?^_`{|}~-``.
pub open spec fn is_local_part_char(c: char) -> bool {
    ('a' <= c && c <= 'z') || ('A' <= c && c <= 'Z') || ('0' <= c && c <= '9') || c == '.'
        || c == '!' || c == '#' || c == '$' || c == '%' || c == '&' || c == '\'' || c == '*'
        || c == '+' || c == '/' || c == '=' || c == '?' || c == '^' || c == '_' || c == '`'
        || c == '{' || c == '|' || c == '}' || c == '~' || c == '-'
}

/// What every address that the validator accepts looks like: it holds an
/// `@`; the part before the last `@` has 1 to 64 characters, all allowed
/// ones; the part after it has 1 to 255 characters.
pub open spec fn email_shape(s: Seq<char>) -> bool {
    &&& last_index_of(s, '@') >= 0
    &&& 1 <= local_part(s).len() <= 64
    &&& forall|i: int| 0 <= i < local_part(s).len() ==> is_local_part_char(#[trigger] local_part(s)[i])
    &&& 1 <= domain_part(s).len() <= 255
}

/// Without an `@` there is no last `@`.
pub proof fn lemma_last_index_of_absent(s: Seq<char>, c: char)
    requires
        forall|i: int| 0 <= i < s.len() ==> s[i] != c,
    ensures
        last_index_of(s, c) == -1,
    decreases s.len(),
{
    if s.len() > 0 {
        lemma_last_index_of_absent(s.drop_last(), c);
    }
}

/// An address without `@`, or with nothing before its last `@` (such as
/// `@example.com`), does not have the shape of an accepted address, so
/// `Email::parse` refuses it.
pub proof fn lemma_email_without_local_part_is_refused(s: Seq<char>)
    requires
        (forall|i: int| 0 <= i < s.len() ==> s[i] != '@') || last_index_of(s, '@') == 0,
    ensures
        !email_shape(s),
{
    if forall|i: int| 0 <= i < s.len() ==> s[i] != '@' {
        lemma_last_index_of_absent(s, '@');
    }
}

/// The message that a refused address is answered with.
pub open spec fn invalid_email_message(s: Seq<char>) -> Seq<char> {
    s + " is not a valid email address"@
}

/// Calls `ValidateEmail::validate_email` on the text. Besides naming the
/// answer, states what the validator's source checks before its regular
/// expressions decide: an `@` must be there, the part before the last `@`
/// must have 1 to 64 characters out of the allowed set, the rest at most
/// 255; and the domain's expressions (also after IDNA conversion) match no
/// empty text, so the rest has at least one character.
#[verifier::external_body]
pub(crate) fn validate_email(s: &String) -> (r: bool)
    ensures
        r == email_valid(s@),
        r ==> email_shape(s@),
{
    s.validate_email()
}

/// An e-mail address that passed validation.
#[derive(Debug)]
pub struct Email(String);

impl View for Email {
    type V = Seq<char>;

    closed spec fn view(&self) -> Seq<char> {
        self.0@
    }
}

impl Email {
    /// Accepts `email` when the validator's answer `valid` is yes.
    pub fn parse_checked(email: String, valid: bool) -> (r: Result<Email, String>)
        ensures
            match r {
                Ok(e) => valid && e@ == email@,
                Err(m) => !valid && m@ == invalid_email_message(email@),
            },
    {
        if valid {
            Ok(Email(email))
        } else {
            let mut msg = email;
            msg.append(" is not a valid email address");
            Err(msg)
        }
    }

    /// Validates `email` as an address. An address without `@`, or with
    /// nothing before its last `@`, is always refused.
    pub fn parse(email: String) -> (r: Result<Email, String>)
        ensures
            match r {
                Ok(e) => email_valid(email@) && e@ == email@,
                Err(m) => !email_valid(email@) && m@ == invalid_email_message(email@),
            },
            r is Ok ==> email_shape(email@),
    {
        let valid = validate_email(&email);
        Email::parse_checked(email, valid)
    }

    /// The address as text.
    pub fn as_ref(&self) -> (r: &str)
        ensures
            r@ == self@,
    {
        self.0.as_str()
    }
}

} // verus!
