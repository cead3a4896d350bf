//! Storage for the things that live around the processor.

pub mod entity;
