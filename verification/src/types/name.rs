use crate::unicode::{extended_grapheme_count, grapheme_count, is_blank, trims_to_empty};
use vstd::prelude::*;

verus! {

/// The most grapheme clusters that a name may have.
pub const MAX_NAME_GRAPHEMES: usize = 256;

/// Characters that a name may not hold: `/ ( ) " < > \ { }`.
pub open spec fn is_forbidden_name_char(c: char) -> bool {
    c == '/' || c == '(' || c == ')' || c == '"' || c == '<' || c == '>' || c == '\\'
        || c == '{' || c == '}'
}

/// Whether `s` holds a forbidden character.
pub open spec fn has_forbidden_char(s: Seq<char>) -> bool {
    exists|i: int| 0 <= i < s.len() && is_forbidden_name_char(#[trigger] s[i])
}

/// A name is valid when it is not blank, has at most 256 grapheme clusters
/// (counted as `graphemes` counts them) and holds no forbidden character.
pub open spec fn is_valid_name(s: Seq<char>, graphemes: nat) -> bool {
    !is_blank(s) && graphemes <= MAX_NAME_GRAPHEMES && !has_forbidden_char(s)
}

/// A name that holds one of `/ ( ) " < > \ { }` at any position, whatever
/// comes before it, is not valid, whatever its length.
pub proof fn lemma_forbidden_char_anywhere_refuses(s: Seq<char>, graphemes: nat, i: int)
    requires
        0 <= i < s.len(),
        s[i] == '/' || s[i] == '(' || s[i] == ')' || s[i] == '"' || s[i] == '<' || s[i] == '>'
            || s[i] == '\\' || s[i] == '{' || s[i] == '}',
    ensures
        !is_valid_name(s, graphemes),
{
    assert(is_forbidden_name_char(s[i]));
}

/// A valid name holds none of `/ ( ) " < > \ { }`.
pub proof fn lemma_valid_name_has_no_forbidden_char(s: Seq<char>, graphemes: nat, i: int)
    requires
        is_valid_name(s, graphemes),
        0 <= i < s.len(),
    ensures
        s[i] != '/' && s[i] != '(' && s[i] != ')' && s[i] != '"' && s[i] != '<' && s[i] != '>'
            && s[i] != '\\' && s[i] != '{' && s[i] != '}',
{
    if is_forbidden_name_char(s[i]) {
        assert(has_forbidden_char(s));
    }
}

/// The message that a refused name is answered with.
pub open spec fn invalid_name_message(s: Seq<char>) -> Seq<char> {
    s + " is not a valid name"@
}

fn forbidden_char(c: char) -> (r: bool)
    ensures
        r == is_forbidden_name_char(c),
{
    c == '/' || c == '(' || c == ')' || c == '"' || c == '<' || c == '>' || c == '\\'
        || c == '{' || c == '}'
}

/// Whether `s` holds one of the forbidden characters.
pub fn contains_forbidden_char(s: &str) -> (r: bool)
    ensures
        r == has_forbidden_char(s@),
{
    let mut found = false;
    for c in it: s.chars()
        invariant
            it.seq() == s@,
            found == exists|i: int| 0 <= i < it.index() && is_forbidden_name_char(#[trigger] s@[i]),
    {
        if forbidden_char(c) {
            found = true;
        }
    }
    found
}

/// A person's name that passed validation.
#[derive(Debug)]
pub struct Name(String);

impl View for Name {
    type V = Seq<char>;

    closed spec fn view(&self) -> Seq<char> {
        self.0@
    }
}

impl Name {
    #[verifier::type_invariant]
    closed spec fn inv(self) -> bool {
        !is_blank(self.0@) && !has_forbidden_char(self.0@)
    }

    /// Validates `name` given the number of grapheme clusters it has.
    pub fn parse_counted(name: String, graphemes: usize) -> (r: Result<Name, String>)
        ensures
            match r {
                Ok(n) => is_valid_name(name@, graphemes as nat) && n@ == name@,
                Err(msg) => !is_valid_name(name@, graphemes as nat) && msg@ == invalid_name_message(name@),
            },
    {
        let is_empty = trims_to_empty(name.as_str());
        let is_too_long = graphemes > MAX_NAME_GRAPHEMES;
        let contains_invalid_characters = contains_forbidden_char(name.as_str());
        if is_empty || is_too_long || contains_invalid_characters {
            let mut msg = name;
            msg.append(" is not a valid name");
            Err(msg)
        } else {
            Ok(Name(name))
        }
    }

    /// Validates `name`: it must not be blank, must have at most 256
    /// grapheme clusters and must hold none of `/ ( ) " < > \ { }`.
    pub fn parse(name: String) -> (r: Result<Name, String>)
        ensures
            match r {
                Ok(n) => is_valid_name(name@, extended_grapheme_count(name@)) && n@ == name@,
                Err(msg) => !is_valid_name(name@, extended_grapheme_count(name@))
                    && msg@ == invalid_name_message(name@),
            },
            name@.len() <= MAX_NAME_GRAPHEMES && !is_blank(name@) && !has_forbidden_char(name@) ==> r is Ok,
    {
        let graphemes: usize = grapheme_count(name.as_str());
        Name::parse_counted(name, graphemes)
    }

    /// The name as text. Every `Name` is non-blank and free of forbidden
    /// characters, however it was made.
    pub fn as_ref(&self) -> (r: &str)
        ensures
            r@ == self@,
            !is_blank(r@),
            !has_forbidden_char(r@),
    {
        proof {
            use_type_invariant(self);
        }
        self.0.as_str()
    }
}

} // verus!
