//! Deterministic passphrase derivation: the verified core.
//!
//! A passphrase is the base64 text of an Argon2id key, derived from a
//! secret that the user types and from a configuration that holds no
//! secret. This crate decides and computes; reading, writing and the
//! terminal are the caller's business. `commands::run` starts a session
//! that tells the caller what to do next and takes what came of it.

use vstd::prelude::*;

pub mod acquisition;
pub mod commands;
pub mod config;
pub mod crypto;
pub mod error;
pub mod sensitive;
pub mod string_codec;

verus! {

/// The configuration file that is read where none is named.
pub const DEFAULT_CONFIG_FILE_PATH: &'static str = "sphragis.json5";

/// For how many seconds a passphrase is shown where nothing else is asked.
pub const DEFAULT_DISPLAY_DURATION: u64 = 60;

/// How many bytes a generated salt has where nothing else is asked.
pub const DEFAULT_SALT_LENGTH: usize = 16;

/// How much is logged.
#[derive(Clone, Copy, Debug, PartialEq, Eq, Structural)]
pub enum LogLevel {
    Debug,
    Info,
}

/// Arguments of the `derive` subcommand.
#[derive(Debug)]
pub struct DeriveArgs {
    /// Path of the configuration file.
    pub config: String,
    /// For how many seconds the passphrase is shown.
    pub display_duration: u64,
}

/// Subcommands.
#[derive(Debug)]
pub enum Command {
    /// Derive a passphrase from a secret that the user enters.
    Derive(DeriveArgs),
    /// Generate a new random salt, as base64 text.
    GenerateSalt {
        /// Number of bytes to generate.
        length: usize,
    },
}

/// The arguments of a run.
#[derive(Debug)]
pub struct Cli {
    /// Subcommand to run.
    pub command: Option<Command>,
    /// Whether verbose output was asked for.
    pub verbose: bool,
}

impl Default for DeriveArgs {
    fn default() -> (args: Self)
        ensures
            args.config@ == DEFAULT_CONFIG_FILE_PATH@,
            args.display_duration == DEFAULT_DISPLAY_DURATION,
    {
        DeriveArgs {
            config: DEFAULT_CONFIG_FILE_PATH.to_owned(),
            display_duration: DEFAULT_DISPLAY_DURATION,
        }
    }
}

impl Cli {
    /// Debug output if verbose output was asked for, else informational.
    pub fn log_level(&self) -> (level: LogLevel)
        ensures
            level == if self.verbose {
                LogLevel::Debug
            } else {
                LogLevel::Info
            },
    {
        if self.verbose {
            LogLevel::Debug
        } else {
            LogLevel::Info
        }
    }

    /// The subcommand to run: the one that was given, or else `derive` with
    /// its defaults.
    pub fn into_command(self) -> (command: Command)
        ensures
            match self.command {
                Some(given) => command == given,
                None => command matches Command::Derive(args) && args.config@
                    == DEFAULT_CONFIG_FILE_PATH@ && args.display_duration
                    == DEFAULT_DISPLAY_DURATION,
            },
    {
        match self.command {
            Some(given) => given,
            None => Command::Derive(DeriveArgs::default()),
        }
    }
}

} // verus!
