pub mod login_request;
pub mod page_request;
pub mod user;
