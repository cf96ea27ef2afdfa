pub mod pre_request;
