//! The code that `#[derive(EnumFilter)]` and `#[derive(EnumFilterCollection)]` generate,
//! as functions from token streams to token streams.

pub mod assembly;
pub mod collection;
pub mod commands;
pub mod enum_filter;
pub mod enum_plan;
pub mod extract;
pub mod ident;
pub mod items;
pub mod laws;
pub mod meta;
pub mod names;
pub mod naming;
pub mod outcomes;
pub mod payload;
pub mod routine;
pub mod spelling;
pub mod syntax;
pub mod template;
pub mod token;
pub mod views;

pub use collection::derive_enum_filter_collection;
pub use enum_filter::derive_enum_filter;
