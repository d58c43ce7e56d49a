//! Water temperature: one sensor for two loops, routed by the divert valve.

pub mod ads;
pub mod convert;
pub mod poll;
