//! Job pipeline and task queue engine for turning short videos into recipes.
//!
//! A link to a video is submitted ([`submit`]) and becomes a task in the
//! queue ([`store`]). A worker ([`worker`]) leases tasks and runs the stage
//! of each: the fetch stage ([`fetch`]) downloads and stores the video, the
//! transcribe stage ([`transcribe`]) has its audio transcribed, and the
//! extract stage ([`extract`]) asks a language model for the recipes in its
//! caption and transcript and normalizes the answer ([`recipe`]). Each stage
//! is a step function: it is told what happened outside and answers what is
//! to be done next, so that the library itself reads no clock, file, database
//! or network.

pub mod backoff;
pub mod context;
pub mod entities;
pub mod error;
pub mod extract;
pub mod fetch;
pub mod job;
pub mod json;
pub mod llm;
pub mod number;
pub mod prompt;
pub mod recipe;
pub mod store;
pub mod submit;
pub mod text;
pub mod transcribe;
pub mod worker;
