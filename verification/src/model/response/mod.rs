pub mod login_response;
pub mod page_result;
pub mod response;
