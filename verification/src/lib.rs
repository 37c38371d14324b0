//! Credential store adapter: keeps a pair of authentication tokens (an
//! access token and a refresh token) in the operating system's native
//! credential store, under a fixed service namespace.
//!
//! `model` states the lifecycle of the two token slots abstractly and
//! proves its laws; `store` binds the three operations — set, get, clear —
//! to the platform credential backend.

pub mod model;
pub mod store;
