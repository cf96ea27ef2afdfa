pub mod language;
pub mod logic_code;
