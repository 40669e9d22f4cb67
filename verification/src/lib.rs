//! Core logic of a gateway that lets authorized remote clients control and
//! inspect init-system units over HTTP: credential verification, unit-name
//! authorization, remote-call planning, error translation, and the
//! startup/shutdown lifecycle.
//!
//! Everything here works on plain values; the HTTP listener and the D-Bus
//! connection live in the surrounding application, which feeds this library
//! the extracted request data and the outcomes of remote calls.

pub mod auth;
pub mod config;
pub mod dispatch;
pub mod errors;
pub mod lifecycle;
pub mod models;
pub mod state;
pub mod text;
