pub mod dec;
pub mod enc;
pub mod sys;
