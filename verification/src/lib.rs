//! Nebula: the account rules of an Inertia starter kit, verified.
//!
//! The kit's HTTP handlers interleave framework work (sessions, the
//! database, mail) with decisions. The decisions live here, as functions
//! from plain values to plain values with exact contracts: form validation,
//! what each handler answers, what a profile update writes, which public
//! files may be served, and how the links mailed to users are built.

pub mod bootstrap;
pub mod controllers;
pub mod middleware;
pub mod text;
pub mod validation;
