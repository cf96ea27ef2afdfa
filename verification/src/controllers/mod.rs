pub mod health_controller;
pub mod users_controller;
