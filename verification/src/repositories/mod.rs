pub mod users_repository;
