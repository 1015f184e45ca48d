//! An accumulator that collects items over a window of time and hands them to a processor in
//! batches.
//!
//! The library holds everything that is decided: what becomes of an item, when a batch is made and
//! what goes into it, who is told what, and how the window changes. It does no waiting of its own;
//! the program around it waits, and hands what has happened to the functions here.
pub mod accumulator;
pub mod batch;
pub mod channel;
pub mod config;
pub mod controller;
pub mod effects;
pub mod error;
pub mod flush;
pub mod handle;
pub mod item;
pub mod laws;
pub mod metrics;
pub mod operations;
pub mod run;
pub mod shared;
pub mod stats;
pub mod submission;
pub mod system;
pub mod text;
pub mod time;
pub mod trace;
pub mod vocabulary;
