pub mod login;

pub use login::{check_auth, login_response, logout_user, validate_credentials};
