pub mod hasher;
pub mod project_profile;
pub mod translations;
