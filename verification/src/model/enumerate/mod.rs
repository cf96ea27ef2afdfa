pub mod logic_code;
pub mod response;
pub mod user_role;
pub mod user_status;
