//! Command orchestration for the life cycle of on-chain contract code: validating what the user
//! asked for, deriving who signs, and conducting the deployment, instantiation and calls of
//! contracts, one node at a time or along a schedule of several.
//!
//! The library does no input or output. A command is a dialogue with a host: [`command::exec`]
//! turns a command into its first [`step::Step`], the host does the work that the step names
//! and hands the outcome to the step's continuation ([`conduct`]), until the step is
//! `Finish`. What follows what is written down as mathematics in [`protocol`]; what holds of
//! whole runs, in particular of a composable deployment, is proved in [`trace`].
//!
//! Arguments are validated by [`flags`], [`hexdata`], [`codehash`] and [`opts`]; signing keys
//! and account identifiers come from [`account`]; [`report`] words the one line that tells the
//! user how the command ended.

pub mod account;
pub mod call;
pub mod code;
pub mod codehash;
pub mod command;
pub mod conduct;
pub mod error;
pub mod flags;
pub mod hexdata;
pub mod opts;
pub mod protocol;
pub mod report;
pub mod schedule;
pub mod step;
pub mod text;
pub mod trace;
