pub mod health_response;
