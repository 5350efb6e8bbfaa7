//! A mod manager core for RimWorld: resolving mod identifiers, filtering
//! catalog listings, driving the external download tool and installing mods
//! together with their declared dependencies.
pub mod text;
pub mod filter;
pub mod steamcmd;
pub mod install;
pub mod installer;
pub mod args;
pub mod package;

pub use text::parse_workshop_id;
