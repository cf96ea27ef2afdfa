pub mod constants;
pub mod database;
pub mod domain;
pub mod enumerate;
pub mod enumerates;
pub mod nats;
pub mod persistent;
pub mod request;
pub mod requests;
pub mod response;
pub mod responses;
