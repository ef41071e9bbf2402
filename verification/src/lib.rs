//! The settings of a desktop application and the bindings of its actions to
//! key combinations.
//!
//! The settings live in one JSON-shaped document. [`store`] reads, heals and
//! writes that document; [`settings`] says what it holds and how it is
//! decoded, each setting by itself; [`startup`] and [`binding_change`] decide,
//! step by step, what to ask of the engine that captures key combinations and
//! what to persist; [`commands`] change one setting each.

pub mod assoc;
pub mod binding_change;
pub mod bindings;
pub mod commands;
pub mod json;
pub mod options;
pub mod platform;
pub mod settings;
pub mod shortcut;
pub mod startup;
pub mod store;
pub mod text;
