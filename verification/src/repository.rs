pub mod user;

pub use user::{hashed_user_row, hashed_user_row_with_salt};
