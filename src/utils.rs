pub mod cargo;
pub mod git;
pub mod helpers;
pub mod messages;
