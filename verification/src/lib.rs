//! Resolution engine for layered game-launch profiles.
//!
//! A launch target is described in three layers — global defaults, named
//! templates, and named profiles. Resolving a profile fills each unset field
//! from its template and the global layer in a fixed precedence order,
//! synthesizes a prefix directory from the game identifier when no layer
//! supplies one, and finally translates the resolved profile into the
//! environment, executable and argument list the external launcher consumes.
//! Every resolution and precedence rule is stated in contracts and proved.
//! Reading configuration files and spawning the launcher are left to the
//! host program.

pub mod cli;
pub mod config;
pub mod error;
pub mod launch;
