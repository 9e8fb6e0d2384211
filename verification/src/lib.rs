//! A small kit of building blocks: value providers, dispatch traits and an
//! Argon2 backed password credential.

pub mod error;
pub mod password;
pub mod phc;
pub mod primitives;
pub mod traits;
