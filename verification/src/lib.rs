pub mod convention;
pub mod register;
