use crate::crypto::{
    argon2_verdict, debug_text, parse_phc, phc_parse, phc_well_formed, str_debug, verify_password_hash,
};
use crate::helpers::error::{DatabaseError, DatabaseErrorKind, Report};
use crate::text::{uuid_text, write_uuid};
use crate::types::response::{IdentityError, IdentityErrorView};
use vstd::prelude::*;

verus! {

/// The e-mail address and password that a login form carries.
#[derive(Debug)]
pub struct Credentials {
    pub email: String,
    pub password: String,
}

/// A user as the login handler sees it.
#[derive(Debug)]
pub struct User {
    pub id: u128,
    pub email: String,
}

impl User {
    /// The user as text: `User(id=<id>, email=<email>)`, the id in
    /// hyphenated lowercase form.
    pub fn describe(&self) -> (r: String)
        ensures
            r@ == "User(id="@ + uuid_text(self.id) + ", email="@ + self.email@ + ")"@,
    {
        let mut out = String::from_str("User(id=");
        write_uuid(&mut out, self.id);
        out.append(", email=");
        out.append(self.email.as_str());
        out.append(")");
        out
    }
}

/// The view of a result that carries an `IdentityError`.
pub open spec fn outcome_view<T>(r: Result<T, IdentityError>) -> Result<T, IdentityErrorView> {
    match r {
        Ok(v) => Ok(v),
        Err(e) => Err(e@),
    }
}

/// What the session lookup of `user_id` decides: a stored id is the
/// authenticated user; a missing one or a failed lookup is refused as
/// invalid credentials.
pub open spec fn auth_outcome(lookup: Result<Option<u128>, Seq<Seq<char>>>) -> Result<u128, IdentityErrorView> {
    match lookup {
        Ok(Some(id)) => Ok(id),
        Ok(None) => Err(IdentityErrorView::InvalidCredentials(seq!["User not authenticated"@])),
        Err(c) => Err(IdentityErrorView::InvalidCredentials(c)),
    }
}

/// Decides whether the session holds an authenticated user, given what
/// reading `user_id` from the session gave.
pub fn check_auth(lookup: Result<Option<u128>, Report>) -> (r: Result<u128, IdentityError>)
    ensures
        outcome_view(r) == auth_outcome(match lookup {
            Ok(v) => Ok(v),
            Err(e) => Err(e@),
        }),
{
    match lookup {
        Err(e) => Err(IdentityError::InvalidCredentials(e)),
        Ok(Some(user_id)) => Ok(user_id),
        Ok(None) => Err(IdentityError::InvalidCredentials(Report::msg("User not authenticated"))),
    }
}

/// A session without an authenticated user is answered with 401, and one
/// with a user gives that user's id.
pub proof fn lemma_session_authorizes(lookup: Result<Option<u128>, Seq<Seq<char>>>)
    ensures
        lookup matches Ok(Some(id)) ==> auth_outcome(lookup) == Ok::<u128, IdentityErrorView>(id),
        !(lookup matches Ok(Some(_))) ==> (auth_outcome(lookup) matches Err(e)
            && crate::types::response::status_of(e) == 401),
{
}

/// The stored id and hash that a lookup by e-mail address gives: the row's,
/// or no id and an empty hash when no row matched.
pub open spec fn stored_outcome(
    lookup: Result<Option<(u128, Seq<char>)>, Option<Seq<Seq<char>>>>,
) -> Result<(Option<u128>, Seq<char>), Seq<Seq<char>>> {
    match lookup {
        Ok(Some((id, hash))) => Ok((Some(id), hash)),
        Ok(None) => Ok((None, Seq::empty())),
        Err(None) => Ok((None, Seq::empty())),
        Err(Some(c)) => Err(c),
    }
}

/// The view of a row lookup's result (`None` stands for a failure of kind `NotFound`).
pub open spec fn lookup_view(lookup: Result<Option<(u128, String)>, DatabaseError>) -> Result<
    Option<(u128, Seq<char>)>,
    Option<Seq<Seq<char>>>,
> {
    match lookup {
        Ok(Some((id, hash))) => Ok(Some((id, hash@))),
        Ok(None) => Ok(None),
        Err(e) => if e.kind == DatabaseErrorKind::NotFound {
            Err(None)
        } else {
            Err(Some(e.report@))
        },
    }
}

/// The view of the stored credentials.
pub open spec fn stored_view(s: Result<(Option<u128>, String), Report>) -> Result<
    (Option<u128>, Seq<char>),
    Seq<Seq<char>>,
> {
    match s {
        Ok((id, hash)) => Ok((id, hash@)),
        Err(rep) => Err(rep@),
    }
}

/// Turns what looking up a user's id and password hash by e-mail address
/// gave into the stored credentials.
pub fn get_stored_credentials(lookup: Result<Option<(u128, String)>, DatabaseError>) -> (r: Result<
    (Option<u128>, String),
    Report,
>)
    ensures
        stored_view(r) == stored_outcome(lookup_view(lookup)),
{
    match lookup {
        Ok(Some((user_id, password_hash))) => Ok((Some(user_id), password_hash)),
        Ok(None) => Ok((None, String::new())),
        Err(e) => match e.kind {
            DatabaseErrorKind::NotFound => Ok((None, String::new())),
            _ => Err(e.report),
        },
    }
}

/// Checks `password` against a well-formed stored hash: it is accepted
/// exactly when Argon2 verifies it.
pub fn verify_password(password: &str, password_hash: &str) -> (r: Result<(), Report>)
    requires
        phc_well_formed(password_hash@),
    ensures
        match r {
            Ok(()) => argon2_verdict(password@, password_hash@) == Some(true),
            Err(e) => argon2_verdict(password@, password_hash@) != Some(true)
                && e@ == seq!["Invalid password"@],
        },
{
    match verify_password_hash(password, password_hash) {
        Ok(()) => Ok(()),
        Err(_) => Err(Report::msg("Invalid password")),
    }
}

/// How the runtime reports a blocking task that panicked because the stored
/// hash did not parse: the task's id, then the panic message in `Debug`
/// form, the message being the parser's error after "Failed to parse
/// password hash: ".
pub open spec fn parse_panic_text(task: Seq<char>, failure: Seq<char>) -> Seq<char> {
    "task "@ + task + " panicked with message "@ + str_debug(
        "Failed to parse password hash: "@ + failure,
    )
}

/// What checking a password against the stored credentials decides, the
/// check running as the blocking task `task`: a failed lookup is
/// unexpected; an unknown user, or a password that does not verify against
/// the stored hash, is refused as invalid credentials; a stored hash that
/// does not parse makes the task panic, which is unexpected.
pub open spec fn credentials_outcome(
    password: Seq<char>,
    stored: Result<(Option<u128>, Seq<char>), Seq<Seq<char>>>,
    task: Seq<char>,
) -> Result<u128, IdentityErrorView> {
    match stored {
        Err(c) => Err(IdentityErrorView::UnexpectedError(seq!["Failed to get stored credentials"@] + c)),
        Ok((None, _)) => Err(IdentityErrorView::InvalidCredentials(seq!["User not found"@])),
        Ok((Some(id), hash)) => match phc_parse(hash) {
            Err(failure) => Err(
                IdentityErrorView::UnexpectedError(
                    seq!["Failed to sppawn blocking thread"@, parse_panic_text(task, failure)],
                ),
            ),
            Ok(()) => if argon2_verdict(password, hash) == Some(true) {
                Ok(id)
            } else {
                Err(IdentityErrorView::InvalidCredentials(seq!["Invalid password"@]))
            },
        },
    }
}

/// Checks the credentials against what is stored for their e-mail address
/// and gives the user's id when they hold; `task` is the id of the blocking
/// task that runs the check.
pub fn validate_credentials(
    credentials: &Credentials,
    stored: Result<(Option<u128>, String), Report>,
    task: &str,
) -> (r: Result<u128, IdentityError>)
    ensures
        outcome_view(r) == credentials_outcome(credentials.password@, stored_view(stored), task@),
{
    let (user_id, password_hash) = match stored {
        Ok(s) => s,
        Err(e) => {
            return Err(IdentityError::UnexpectedError(e.context("Failed to get stored credentials")));
        },
    };
    let user_id = match user_id {
        Some(id) => id,
        None => {
            return Err(IdentityError::InvalidCredentials(Report::msg("User not found")));
        },
    };
    if let Err((_, failure)) = parse_phc(password_hash.as_str()) {
        let mut panic_message = String::from_str("Failed to parse password hash: ");
        panic_message.append(failure.as_str());
        let mut join_text = String::from_str("task ");
        join_text.append(task);
        join_text.append(" panicked with message ");
        join_text.append(debug_text(panic_message.as_str()).as_str());
        let cause = Report::msg(join_text.as_str()).context("Failed to sppawn blocking thread");
        proof {
            assert(cause@ =~= seq!["Failed to sppawn blocking thread"@, parse_panic_text(task@, failure@)]);
        }
        return Err(IdentityError::UnexpectedError(cause));
    }
    match verify_password(credentials.password.as_str(), password_hash.as_str()) {
        Ok(()) => Ok(user_id),
        Err(e) => Err(IdentityError::InvalidCredentials(e)),
    }
}

/// How a successful login is answered.
#[derive(Debug)]
pub struct LoginResponse {
    /// The HTTP status.
    pub status: u16,
    /// Whether the session is renewed before the user is stored in it.
    pub renew_session: bool,
    /// The id stored in the session under `user_id`.
    pub session_user_id: u128,
    /// The `success` field of the JSON body.
    pub success: bool,
    /// The `msg` field of the JSON body.
    pub msg: String,
}

/// Decides how a login request is answered, given what checking the
/// credentials gave: for a user's id, 200 with "Login successful", after the
/// session is renewed and the id stored in it under `user_id`; a refusal is
/// passed on as it is.
pub fn login_response(outcome: Result<u128, IdentityError>) -> (r: Result<LoginResponse, IdentityError>)
    ensures
        match outcome {
            Ok(id) => r matches Ok(resp) && resp.status == 200 && resp.renew_session
                && resp.session_user_id == id && resp.success && resp.msg@ == "Login successful"@,
            Err(e) => r matches Err(f) && f == e,
        },
{
    match outcome {
        Ok(user_id) => Ok(
            LoginResponse {
                status: 200,
                renew_session: true,
                session_user_id: user_id,
                success: true,
                msg: String::from_str("Login successful"),
            },
        ),
        Err(e) => Err(e),
    }
}

/// A password whose Argon2 hash is stored for a user logs that user in.
pub proof fn lemma_registered_password_logs_in(password: Seq<char>, hash: Seq<char>, id: u128, task: Seq<char>)
    requires
        phc_well_formed(hash),
        argon2_verdict(password, hash) == Some(true),
    ensures
        credentials_outcome(password, Ok((Some(id), hash)), task) == Ok::<u128, IdentityErrorView>(id),
{
}

/// An unknown e-mail address, or a password that Argon2 does not verify
/// against the stored hash, is answered with 401.
pub proof fn lemma_bad_credentials_are_unauthorized(
    password: Seq<char>,
    id: Option<u128>,
    hash: Seq<char>,
    task: Seq<char>,
)
    requires
        id is None || (phc_well_formed(hash) && argon2_verdict(password, hash) != Some(true)),
    ensures
        credentials_outcome(password, Ok((id, hash)), task) matches Err(e) && crate::types::response::status_of(e) == 401,
{
}

/// What a logout request is answered with.
#[derive(Debug)]
pub struct LogoutResponse {
    /// The HTTP status.
    pub status: u16,
    /// Whether the session is cleared.
    pub purge_session: bool,
    /// Where the client is sent, if anywhere.
    pub location: Option<String>,
    /// The body of the response.
    pub body: String,
}

/// Decides how a logout request is answered, given what reading `user_id`
/// from the session gave: without an authenticated user, 401 and the
/// session is left alone; otherwise the session is cleared and the client
/// is sent to `/login` with 303.
pub fn logout_user(lookup: Result<Option<u128>, Report>) -> (r: LogoutResponse)
    ensures
        (lookup matches Ok(Some(_))) ==> {
            &&& r.status == 303
            &&& r.purge_session
            &&& r.location matches Some(l) && l@ == "/login"@
            &&& r.body@ == "User logged out successfully."@
        },
        !(lookup matches Ok(Some(_))) ==> {
            &&& r.status == 401
            &&& !r.purge_session
            &&& r.location is None
            &&& r.body@ == "User not authenticated"@
        },
{
    if check_auth(lookup).is_err() {
        return LogoutResponse {
            status: 401,
            purge_session: false,
            location: None,
            body: String::from_str("User not authenticated"),
        };
    }
    LogoutResponse {
        status: 303,
        purge_session: true,
        location: Some(String::from_str("/login")),
        body: String::from_str("User logged out successfully."),
    }
}

} // verus!
