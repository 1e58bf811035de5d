//! Extraction of practice questions from raw educational text, and the
//! composition of a personalized exam.
//!
//! The library decides and computes; it performs no input or output. The
//! extraction pipeline of `processor` hands out one request at a time and
//! takes its outcome back; `gemini_client` says what is sent to the
//! generative backend and what its replies mean; `education_manager`
//! composes the engines of `traits` into the exam workflow.

pub mod accessors;
pub mod config;
pub mod education_manager;
pub mod engines;
pub mod gemini_client;
pub mod ids;
pub mod ingest;
pub mod json;
pub mod model;
pub mod pipeline_laws;
pub mod processor;
pub mod text;
pub mod traits;
