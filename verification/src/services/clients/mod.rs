pub mod kafka_client_service;
pub mod shared_connection;
