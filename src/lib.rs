//! Mutation protocol of an RTB extension point: the typed vocabulary of edits to
//! a bid object, the evaluator that maps a bid context to a mutation set, and the
//! decisions of the unary and streaming handlers.

pub mod model;
pub mod config;
pub mod paths;
pub mod builder;
pub mod evaluator;
pub mod stream;
pub mod service;
