//! Configuration resolution and status rendering for a tool that publishes a
//! local directory over HTTP.
//!
//! The crate turns raw command-line text into a validated server build plan,
//! collecting every validation failure on the way, and renders each outcome as
//! localized status text.

pub mod controller;
pub mod lifecycle;
pub mod locale;
pub mod model;
pub mod paths;
pub mod server_core;
pub mod sink;
pub mod text;
pub mod uri;
pub mod viewer;

pub use locale::Language;
pub use server_core::Mode;
