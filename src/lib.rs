//! Custom chat commands for a guild bot: a template engine that expands
//! stored command bodies with caller arguments, the authorization gate in
//! front of privileged directives, the pre-command checks, and the wiki
//! tables the bot answers from.

pub mod checks;
pub mod codec;
pub mod commands;
pub mod database;
pub mod directive;
pub mod floppa;
pub mod gate;
pub mod general;
pub mod injection;
pub mod laws;
pub mod minecraft;
pub mod store;
pub mod template;
pub mod text;
pub mod wiki;
