pub mod get_all_users;
pub mod register_request;
