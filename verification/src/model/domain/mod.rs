pub mod language;
pub mod pagination_result;
pub mod users;
