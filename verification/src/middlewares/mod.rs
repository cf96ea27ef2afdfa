pub mod authenticate;
pub mod request_logger;
