use vstd::prelude::*;

verus! {

/// The views of a list of texts.
pub open spec fn texts(v: Seq<String>) -> Seq<Seq<char>> {
    v.map_values(|s: String| s@)
}

/// The lines that name the causes of an error, one per cause, in order.
pub open spec fn causes_text(causes: Seq<Seq<char>>) -> Seq<char>
    decreases causes.len(),
{
    if causes.len() == 0 {
        Seq::empty()
    } else {
        causes_text(causes.drop_last()) + "Caused by: \n\t"@ + causes.last() + "\n"@
    }
}

/// The report of an error and its chain of causes: the error's message and
/// an empty line, then one `Caused by:` entry per cause.
pub open spec fn chain_text(message: Seq<char>, causes: Seq<Seq<char>>) -> Seq<char> {
    message + "\n\n"@ + causes_text(causes)
}

/// Writes the report of an error whose message is `message` and whose
/// chain of causes (outermost first) is `causes`.
pub fn error_chain_fmt(message: &str, causes: &Vec<String>) -> (r: String)
    ensures
        r@ == chain_text(message@, texts(causes@)),
{
    let mut out = String::from_str(message);
    out.append("\n\n");
    let ghost cs = texts(causes@);
    for i in 0..causes.len()
        invariant
            cs == texts(causes@),
            out@ == message@ + "\n\n"@ + causes_text(cs.take(i as int)),
    {
        out.append("Caused by: \n\t");
        out.append(causes[i].as_str());
        out.append("\n");
        proof {
            assert(cs.take(i + 1).drop_last() == cs.take(i as int));
        }
    }
    proof {
        assert(cs.take(causes.len() as int) == cs);
    }
    out
}

/// An error described by its chain of messages, outermost first; it always
/// has at least one message.
#[derive(Debug)]
pub struct Report {
    messages: Vec<String>,
}

impl View for Report {
    type V = Seq<Seq<char>>;

    closed spec fn view(&self) -> Seq<Seq<char>> {
        texts(self.messages@)
    }
}

impl Report {
    #[verifier::type_invariant]
    closed spec fn inv(self) -> bool {
        self.messages@.len() > 0
    }

    /// An error with a single message.
    pub fn msg(text: &str) -> (r: Report)
        ensures
            r@ == seq![text@],
    {
        let mut messages = Vec::new();
        messages.push(String::from_str(text));
        proof {
            assert(texts(messages@) =~= seq![text@]);
        }
        Report { messages }
    }

    /// The error wrapped in an outer message.
    pub fn context(self, text: &str) -> (r: Report)
        ensures
            r@ == seq![text@] + self@,
    {
        let mut messages = self.messages;
        messages.insert(0, String::from_str(text));
        proof {
            assert(texts(messages@) =~= seq![text@] + self@);
        }
        Report { messages }
    }

    /// The error whose chain of messages is `messages`, if there is one.
    pub fn from_chain(messages: Vec<String>) -> (r: Option<Report>)
        ensures
            match r {
                Some(rep) => messages@.len() > 0 && rep@ == texts(messages@),
                None => messages@.len() == 0,
            },
    {
        if messages.len() == 0 {
            None
        } else {
            Some(Report { messages })
        }
    }

    /// The chain of messages, outermost first.
    pub fn chain(&self) -> (r: &Vec<String>)
        ensures
            texts(r@) == self@,
            r@.len() > 0,
    {
        proof {
            use_type_invariant(self);
        }
        &self.messages
    }

    /// The outermost message.
    pub fn message(&self) -> (r: &str)
        ensures
            self@.len() > 0,
            r@ == self@[0],
    {
        proof {
            use_type_invariant(self);
        }
        self.messages[0].as_str()
    }
}

/// What kind of database failure happened.
#[derive(Clone, Copy, PartialEq, Eq, Structural, Debug)]
pub enum DatabaseErrorKind {
    /// No row matched.
    NotFound,
    /// A unique constraint was violated.
    UniqueViolation,
    /// Any other failure.
    Other,
}

/// A database failure: its kind and its report.
#[derive(Debug)]
pub struct DatabaseError {
    pub kind: DatabaseErrorKind,
    pub report: Report,
}

/// Why an authentication step failed.
#[derive(Debug)]
pub enum AuthError {
    IncorrectPassword,
    NoEmailSet,
    NoNameSet,
    NoPasswordSet,
    /// Reading the environment failed.
    EnvironmentError(Report),
    /// The password hashing library failed.
    Argon2Error(argon2::password_hash::Error),
    /// The database failed.
    DatabaseError(DatabaseError),
    /// Bytes were not UTF-8.
    ConversionError(Report),
}

/// A plain-value picture of an `AuthError`: its variant, and the database
/// failure's kind where there is one.
#[derive(PartialEq, Eq)]
pub enum AuthErrorKind {
    IncorrectPassword,
    NoEmailSet,
    NoNameSet,
    NoPasswordSet,
    EnvironmentError,
    Argon2Error,
    DatabaseError(DatabaseErrorKind),
    ConversionError,
}

impl AuthError {
    /// The variant of the error, with the database failure's kind.
    pub open spec fn kind(&self) -> AuthErrorKind {
        match self {
            AuthError::IncorrectPassword => AuthErrorKind::IncorrectPassword,
            AuthError::NoEmailSet => AuthErrorKind::NoEmailSet,
            AuthError::NoNameSet => AuthErrorKind::NoNameSet,
            AuthError::NoPasswordSet => AuthErrorKind::NoPasswordSet,
            AuthError::EnvironmentError(_) => AuthErrorKind::EnvironmentError,
            AuthError::Argon2Error(_) => AuthErrorKind::Argon2Error,
            AuthError::DatabaseError(e) => AuthErrorKind::DatabaseError(e.kind),
            AuthError::ConversionError(_) => AuthErrorKind::ConversionError,
        }
    }
}

impl From<argon2::password_hash::Error> for AuthError {
    fn from(e: argon2::password_hash::Error) -> (r: Self) {
        AuthError::Argon2Error(e)
    }
}

impl vstd::std_specs::convert::FromSpecImpl<argon2::password_hash::Error> for AuthError {
    open spec fn obeys_from_spec() -> bool {
        true
    }

    open spec fn from_spec(e: argon2::password_hash::Error) -> Self {
        AuthError::Argon2Error(e)
    }
}

} // verus!
