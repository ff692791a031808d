//! Core logic of a resilient, resumable download engine with adaptive retry:
//! backoff scheduling, keyword-based error classification, range-support
//! probing decisions, transfer accounting, and release/version evaluation.
pub mod companion;
pub mod config;
pub mod downloader;
pub mod engine;
pub mod error_handler;
pub mod extractor;
pub mod launcher;
pub mod retry;
pub mod text;
pub mod transfer;
pub mod updater;
