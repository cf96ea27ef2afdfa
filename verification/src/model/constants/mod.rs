pub mod status;
