//! Core logic of an HTTP edge server: static asset resolution with
//! single-page-application fallback, the JSON API's request and response
//! rules, request validation and configuration parsing.

pub mod config;
pub mod error;
pub mod files;
pub mod health;
pub mod logging;
pub mod outside;
pub mod paths;
pub mod request_id;
pub mod router;
pub mod text;
pub mod types;
pub mod security;
pub mod static_files;
pub mod system;
