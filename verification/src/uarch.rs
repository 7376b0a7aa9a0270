//! A pipelined model of the machine: five stages that hand values to one another.

pub mod common;
pub mod simple;
