//! Core logic for a CloudWatch Logs viewer: view state, request/reply
//! bookkeeping for the background worker, and the pure computations behind
//! fetching and listing log groups.

pub mod app;
pub mod aws;
pub mod filtering;
pub mod json;
pub mod state;
pub mod status_bar;
pub mod text;
pub mod timefmt;
pub mod tray;
pub mod ui_logs;
pub mod worker;
