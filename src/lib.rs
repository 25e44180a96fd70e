//! Guaranteed-delivery relay: validation, classification and retry decisions for
//! outbound HTTP requests, plus the broker topology that delays the retries.
pub mod request;
pub mod outcome;
pub mod scheduler;
pub mod handling;
pub mod gateway;
pub mod topology;
