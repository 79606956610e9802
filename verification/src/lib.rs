//! Session-authenticated workflow engine for a remote e-learning platform.
//!
//! The crate models the platform's login rules, the study-time accrual
//! workflow, the exam-answering workflow driven by a local answer bank, and
//! the school directory lookup, each with machine-checked contracts. HTTP
//! transport, JSON decoding and console output live outside the library and
//! hand it plain values.

pub mod config;
pub mod errors;
pub mod exam;
pub mod model;
pub mod rng;
pub mod school;
pub mod session;
pub mod study;
pub mod text;
