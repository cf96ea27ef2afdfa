pub mod language_request;
