pub mod error;

pub use error::{error_chain_fmt, AuthError, AuthErrorKind, DatabaseError, DatabaseErrorKind, Report};
