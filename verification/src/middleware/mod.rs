//! Route gates.

pub mod authenticate;
