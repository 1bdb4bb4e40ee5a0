//! Shared logic of the Fortochka webcam-wallpaper service: the API contract
//! (routes and messages), the client-side retry policy and error model, the
//! device configuration and its mobile mirror, and the server's request
//! rules and frame cropping.

pub mod api_error;
pub mod client;
pub mod config;
pub mod error;
pub mod handlers;
pub mod images;
pub mod mobile;
pub mod proto;
pub mod retry;
pub mod routes;
pub mod state;
pub mod storage;
pub mod text;
