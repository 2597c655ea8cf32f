use crate::helpers::error::{chain_text, error_chain_fmt, texts, Report};
use vstd::prelude::*;

verus! {

/// The error that the HTTP handlers answer with.
#[derive(Debug)]
pub enum IdentityError {
    /// A request that fails validation; displayed as its message.
    ValidationError(String),
    /// Credentials that were not accepted; displayed as `Invalid credentials`,
    /// with the report as its cause.
    InvalidCredentials(Report),
    /// Any other failure; displayed as the report itself.
    UnexpectedError(Report),
}

/// A plain-value picture of an `IdentityError`: which variant, and its text
/// (the validation message, or the report's chain).
pub enum IdentityErrorView {
    ValidationError(Seq<char>),
    InvalidCredentials(Seq<Seq<char>>),
    UnexpectedError(Seq<Seq<char>>),
}

impl View for IdentityError {
    type V = IdentityErrorView;

    open spec fn view(&self) -> IdentityErrorView {
        match self {
            IdentityError::ValidationError(m) => IdentityErrorView::ValidationError(m@),
            IdentityError::InvalidCredentials(r) => IdentityErrorView::InvalidCredentials(r@),
            IdentityError::UnexpectedError(r) => IdentityErrorView::UnexpectedError(r@),
        }
    }
}

/// The HTTP status of each kind of error: 400, 401 and 500.
pub open spec fn status_of(e: IdentityErrorView) -> u16 {
    match e {
        IdentityErrorView::ValidationError(_) => 400,
        IdentityErrorView::InvalidCredentials(_) => 401,
        IdentityErrorView::UnexpectedError(_) => 500,
    }
}

/// The `msg` field of the JSON body that answers each kind of error.
pub open spec fn response_message_of(e: IdentityErrorView) -> Seq<char> {
    match e {
        IdentityErrorView::ValidationError(m) => m,
        IdentityErrorView::InvalidCredentials(_) => "Invalid credentials"@,
        IdentityErrorView::UnexpectedError(_) => "An unexpected error occurred"@,
    }
}

/// The chain of messages of the error and its causes, outermost first: the
/// error's own display text, then its causes'. A transparent error shows
/// its report's chain as its own.
pub open spec fn message_chain_of(e: IdentityErrorView) -> Seq<Seq<char>> {
    match e {
        IdentityErrorView::ValidationError(m) => seq![m],
        IdentityErrorView::InvalidCredentials(c) => seq!["Invalid credentials"@] + c,
        IdentityErrorView::UnexpectedError(c) => c,
    }
}

impl IdentityError {
    /// The HTTP status code that answers this error.
    pub fn status_code(&self) -> (r: u16)
        ensures
            r == status_of(self@),
    {
        match self {
            IdentityError::ValidationError(_) => 400,
            IdentityError::InvalidCredentials(_) => 401,
            IdentityError::UnexpectedError(_) => 500,
        }
    }

    /// The message that the JSON body of the response carries, with
    /// `success` false.
    pub fn response_message(&self) -> (r: String)
        ensures
            r@ == response_message_of(self@),
    {
        match self {
            IdentityError::ValidationError(m) => m.clone(),
            IdentityError::InvalidCredentials(_) => String::from_str("Invalid credentials"),
            IdentityError::UnexpectedError(_) => String::from_str("An unexpected error occurred"),
        }
    }

    /// The messages of the error and of its causes, outermost first.
    pub fn message_chain(&self) -> (r: Vec<String>)
        ensures
            texts(r@) == message_chain_of(self@),
            r@.len() > 0,
    {
        match self {
            IdentityError::ValidationError(m) => {
                let mut v = Vec::new();
                v.push(m.clone());
                proof {
                    assert(texts(v@) =~= seq![m@]);
                }
                v
            },
            IdentityError::InvalidCredentials(rep) => {
                let mut v = rep.chain().clone();
                v.insert(0, String::from_str("Invalid credentials"));
                proof {
                    assert(texts(v@) =~= seq!["Invalid credentials"@] + rep@);
                }
                v
            },
            IdentityError::UnexpectedError(rep) => {
                let v = rep.chain().clone();
                proof {
                    assert(texts(v@) =~= rep@);
                }
                v
            },
        }
    }

    /// The display text of the error.
    pub fn to_message(&self) -> (r: String)
        ensures
            r@ == message_chain_of(self@)[0],
    {
        let chain = self.message_chain();
        chain[0].clone()
    }

    /// The debug text of the error: its message, then its causes, as
    /// `error_chain_fmt` writes them.
    pub fn debug_text(&self) -> (r: String)
        ensures
            r@ == chain_text(message_chain_of(self@)[0], message_chain_of(self@).drop_first()),
    {
        let mut chain = self.message_chain();
        let ghost full = texts(chain@);
        let first = chain.remove(0);
        proof {
            assert(texts(chain@) =~= full.drop_first());
        }
        error_chain_fmt(first.as_str(), &chain)
    }
}

} // verus!
