//! Verified core of an agent execution engine.
//!
//! The library drives a bounded reason/act/observe loop between a language
//! model client and a set of named tools, tracks token and cost accumulators,
//! and classifies why a run stopped, with the behaviour stated in contracts
//! and proved.

pub mod anthropic;
pub mod config;
pub mod context;
pub mod error;
pub mod executor;
pub mod export;
pub mod fs;
pub mod http;
pub mod llm;
pub mod report;
pub mod storage;
pub mod strategy;
pub mod text;
pub mod tools;
