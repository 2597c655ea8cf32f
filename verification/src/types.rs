mod api;
pub mod email;
pub mod models;
pub mod name;
pub mod password;

pub use api::{request, response};
pub use email::Email;
pub use models::user::User;
pub use name::Name;
pub use password::Password;
