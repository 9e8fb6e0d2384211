//! Traits shared by the building blocks of the kit.

pub mod dispatch;
pub mod get;
pub mod password;
