pub mod clients;
pub mod nats_server;
pub mod nats_service;
pub mod web_service;
