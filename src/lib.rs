//! Lifecycle of a local sidecar service: the decisions that start it at most
//! once, the endpoint it is reached at, and the laws that tie them together.

pub mod endpoint;
pub mod sidecar;
pub mod laws;
pub mod user;

pub use user::SystemUserInfo;
