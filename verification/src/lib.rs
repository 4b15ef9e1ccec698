//! Model catalog publishing, local account preparation and run-trace records
//! for the Cursor bridge server.
//!
//! - [`catalog`]: the catalog messages and their views;
//! - [`variants`]: context options, model parameters and the variant grid;
//! - [`models`]: catalog entries of configured and plugin models;
//! - [`frame`]: merging the local catalog into Cursor's upstream answer;
//! - [`account`]: preparing Cursor's local account for a TAB mode;
//! - [`token`]: token counts as configurations write them;
//! - [`text`]: string helpers;
//! - [`trace`]: run-trace records;
//! - [`bindings`]: the calls into outside crates.

pub mod text;
pub mod token;
pub mod catalog;
pub mod variants;
pub mod bindings;
pub mod models;
pub mod frame;
pub mod account;
pub mod trace;
