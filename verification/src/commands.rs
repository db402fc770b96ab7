//! Running a subcommand.
//!
//! A run alternates between work that only the caller can do (reading the
//! configuration file, talking to the user, writing the result) and
//! decisions. A `Session` holds the decisions: `action` says what the
//! caller has to do next, and `step` takes what came of it.

use vstd::prelude::*;
use vstd::string::StrSliceExecFns;
use vstd::utf8::encode_utf8;

use crate::acquisition::is_affirmative;
use crate::acquisition::secret_from_line;
use crate::acquisition::trimmed;
use crate::acquisition::Acquisition;
use crate::config::context_from_raw;
use crate::config::is_context_of;
use crate::config::Argon2idContext;
use crate::config::RawConfig;
use crate::crypto::derivation;
use crate::crypto::derive_key;
use crate::crypto::generate_salt;
use crate::error::Error;
use crate::sensitive::SecretBuffer;
use crate::sensitive::SensitiveText;
use crate::string_codec::base64_decode;
use crate::string_codec::base64_encode;
use crate::string_codec::base64_len;
use crate::string_codec::base64_string_from_salt;
use crate::string_codec::passphrase_from_key;
use crate::Command;

verus! {

/// Where a passphrase goes.
#[derive(Clone, Copy, Debug, PartialEq, Eq, Structural)]
pub enum Sink {
    /// To the screen, for so many seconds.
    Screen(u64),
    /// To standard output, as one line.
    Stream,
}

/// The state of a run.
#[derive(Debug)]
pub enum Session {
    /// The configuration file has to be read.
    LoadingConfig { path: String, display_duration: u64 },
    /// It has to be found out whether standard input is a terminal.
    ProbingTerminal { context: Argon2idContext, display_duration: u64 },
    /// Interactive mode: the secret has to be typed.
    Prompting { context: Argon2idContext, display_duration: u64 },
    /// Interactive mode: the secret was typed and has to be confirmed.
    Confirming { context: Argon2idContext, display_duration: u64, entered: SensitiveText },
    /// Batch mode: one line of standard input is the secret.
    ReadingSecret { context: Argon2idContext },
    /// All inputs are at hand; the key has to be derived.
    Deriving { context: Argon2idContext, secret: SecretBuffer, sink: Sink },
    /// The passphrase has to be shown, until it is acknowledged or the time
    /// has run out.
    Showing { passphrase: SensitiveText, display_duration: u64 },
    /// A line has to be written to standard output.
    Writing { line: SensitiveText },
    /// The run is over.
    Finished,
    /// The run has failed.
    Failed(Error),
}

/// What the caller has to do next.
#[derive(Debug)]
pub enum Action<'a> {
    /// Read and parse the configuration file at this path; answer with
    /// `Event::ConfigLoaded`.
    LoadConfig(&'a str),
    /// Find out whether standard input is a terminal; answer with
    /// `Event::TerminalProbed`.
    ProbeTerminal,
    /// Clear the screen, ask for the secret and read one line; answer with
    /// `Event::SecretRead`.
    PromptSecret,
    /// Show the secret with the number of its characters, ask whether it is
    /// correct, read one line and clear the screen; answer with
    /// `Event::AnswerRead`.
    ConfirmSecret { secret: &'a str, length: usize },
    /// Read one line from standard input; answer with `Event::SecretRead`.
    ReadSecret,
    /// Let the derivation run, which may take minutes: answer with
    /// `Event::Proceed`. With `progress`, show meanwhile that work is going
    /// on.
    Derive { progress: bool },
    /// Clear the screen, show the passphrase, wait for Enter or for so many
    /// seconds, whichever comes first, and clear the screen; answer with
    /// `Event::Acknowledged`, `Event::TimedOut` or `Event::Disconnected`.
    Show { passphrase: &'a str, seconds: u64 },
    /// Write the line to standard output; answer with `Event::Written`.
    Write(&'a str),
    /// Nothing: the run has ended.
    Stop,
}

/// What came of an action.
#[derive(Debug)]
pub enum Event {
    /// The configuration file holds this.
    ConfigLoaded(RawConfig),
    /// Whether standard input is a terminal.
    TerminalProbed(bool),
    /// This line was read as the secret.
    SecretRead(SensitiveText),
    /// This line was read as the answer to the question whether the secret
    /// is correct.
    AnswerRead(String),
    /// The derivation may run.
    Proceed,
    /// The user pressed Enter while the passphrase was shown.
    Acknowledged,
    /// The time for showing the passphrase ran out.
    TimedOut,
    /// The wait for the user broke off.
    Disconnected,
    /// The line was written.
    Written,
}

/// Whether `shown` is the state in which `passphrase` goes to `sink`.
pub open spec fn delivers(passphrase: Seq<char>, sink: Sink, shown: Session) -> bool {
    match sink {
        Sink::Screen(seconds) => shown matches Session::Showing { passphrase: p, display_duration }
            && p@ == passphrase && display_duration == seconds,
        Sink::Stream => shown matches Session::Writing { line } && line@ == passphrase,
    }
}

impl Session {
    /// Whether `next` is the state that follows `self` on `event`. A state
    /// moves on the event that answers its action; on any other event the
    /// run fails. A run that has ended stays as it is.
    pub open spec fn follows(self, event: Event, next: Session) -> bool {
        match self {
            Session::LoadingConfig { path, display_duration } => match event {
                Event::ConfigLoaded(raw) => match next {
                    Session::ProbingTerminal { context, display_duration: d } => {
                        &&& d == display_duration
                        &&& is_context_of(raw, Ok(context))
                    },
                    Session::Failed(e) => is_context_of(raw, Err(e)),
                    _ => false,
                },
                _ => next == Session::Failed(Error::UnexpectedEvent),
            },
            Session::ProbingTerminal { context, display_duration } => match event {
                Event::TerminalProbed(true) => next == (Session::Prompting {
                    context,
                    display_duration,
                }),
                Event::TerminalProbed(false) => next == (Session::ReadingSecret { context }),
                _ => next == Session::Failed(Error::UnexpectedEvent),
            },
            Session::Prompting { context, display_duration } => match event {
                Event::SecretRead(line) => next matches Session::Confirming {
                    context: c,
                    display_duration: d,
                    entered,
                } && c == context && d == display_duration && entered@ == trimmed(line@),
                _ => next == Session::Failed(Error::UnexpectedEvent),
            },
            Session::Confirming { context, display_duration, entered } => match event {
                Event::AnswerRead(answer) => if is_affirmative(answer@) {
                    next matches Session::Deriving { context: c, secret: bytes, sink } && c
                        == context && bytes@ == encode_utf8(entered@) && sink == Sink::Screen(
                        display_duration,
                    )
                } else {
                    next == Session::Failed(Error::Aborted)
                },
                _ => next == Session::Failed(Error::UnexpectedEvent),
            },
            Session::ReadingSecret { context } => match event {
                Event::SecretRead(line) => next matches Session::Deriving {
                    context: c,
                    secret: bytes,
                    sink,
                } && c == context && bytes@ == encode_utf8(trimmed(line@)) && sink == Sink::Stream,
                _ => next == Session::Failed(Error::UnexpectedEvent),
            },
            Session::Deriving { context, secret, sink } => match event {
                Event::Proceed => match derivation(
                    secret@,
                    context.salt@,
                    context.version,
                    context.params,
                ) {
                    Ok(key) => delivers(base64_encode(key), sink, next),
                    Err(fault) => next == Session::Failed(Error::Derivation(fault)),
                },
                _ => next == Session::Failed(Error::UnexpectedEvent),
            },
            Session::Showing { .. } => match event {
                Event::Acknowledged | Event::TimedOut => next == Session::Finished,
                Event::Disconnected => next == Session::Failed(Error::DisplayInterrupted),
                _ => next == Session::Failed(Error::UnexpectedEvent),
            },
            Session::Writing { .. } => match event {
                Event::Written => next == Session::Finished,
                _ => next == Session::Failed(Error::UnexpectedEvent),
            },
            Session::Finished => next == Session::Finished,
            Session::Failed(e) => next == Session::Failed(e),
        }
    }

    /// Whether `action` is what the state asks of the caller.
    pub open spec fn asks(self, action: Action) -> bool {
        match self {
            Session::LoadingConfig { path, .. } => action matches Action::LoadConfig(p) && p@
                == path@,
            Session::ProbingTerminal { .. } => action == Action::ProbeTerminal,
            Session::Prompting { .. } => action == Action::PromptSecret,
            Session::Confirming { entered, .. } => action matches Action::ConfirmSecret {
                secret: s,
                length,
            } && s@ == entered@ && length == entered@.len(),
            Session::ReadingSecret { .. } => action == Action::ReadSecret,
            Session::Deriving { sink, .. } => action == (Action::Derive {
                progress: sink is Screen,
            }),
            Session::Showing { passphrase, display_duration } => action matches Action::Show {
                passphrase: p,
                seconds,
            } && p@ == passphrase@ && seconds == display_duration,
            Session::Writing { line } => action matches Action::Write(l) && l@ == line@,
            Session::Finished => action == Action::Stop,
            Session::Failed(_) => action == Action::Stop,
        }
    }
}

/// Whether `line` is the base64 text of some salt of `length` bytes.
pub open spec fn is_salt_line(line: Seq<char>, length: usize) -> bool {
    base64_decode(line) matches Some(salt) && salt.len() == length
}

/// Generates a salt of `length` bytes and returns it as base64 text, the
/// line that the subcommand writes. Fails only if the random source of the
/// operating system fails.
pub fn run_generate_salt(length: usize) -> (generated: Result<String, Error>)
    requires
        base64_len(length as nat) <= usize::MAX,
    ensures
        match generated {
            Ok(line) => is_salt_line(line@, length),
            Err(e) => e is Rng,
        },
{
    let salt = match generate_salt(length) {
        Ok(salt) => salt,
        Err(e) => return Err(e),
    };
    Ok(base64_string_from_salt(salt.as_slice()))
}

/// Starts the run of a subcommand. `derive` begins by asking for the
/// configuration; `generate-salt` has its line ready to be written, unless
/// the random source failed.
pub fn run(command: &Command) -> (session: Session)
    requires
        command matches Command::GenerateSalt { length } ==> base64_len(length as nat)
            <= usize::MAX,
    ensures
        match *command {
            Command::Derive(args) => session matches Session::LoadingConfig {
                path,
                display_duration,
            } && path@ == args.config@ && display_duration == args.display_duration,
            Command::GenerateSalt { length } => match session {
                Session::Writing { line } => is_salt_line(line@, length),
                Session::Failed(e) => e is Rng,
                _ => false,
            },
        },
{
    match command {
        Command::Derive(args) => Session::LoadingConfig {
            path: args.config.clone(),
            display_duration: args.display_duration,
        },
        Command::GenerateSalt { length } => match run_generate_salt(*length) {
            Ok(line) => Session::Writing { line: SensitiveText::new(line) },
            Err(e) => Session::Failed(e),
        },
    }
}

impl Session {
    /// What the caller has to do next.
    pub fn action(&self) -> (action: Action<'_>)
        ensures
            self.asks(action),
    {
        match self {
            Session::LoadingConfig { path, .. } => Action::LoadConfig(path.as_str()),
            Session::ProbingTerminal { .. } => Action::ProbeTerminal,
            Session::Prompting { .. } => Action::PromptSecret,
            Session::Confirming { entered, .. } => {
                let text = entered.as_str();
                Action::ConfirmSecret { secret: text, length: text.unicode_len() }
            },
            Session::ReadingSecret { .. } => Action::ReadSecret,
            Session::Deriving { sink, .. } => match sink {
                Sink::Screen(_) => Action::Derive { progress: true },
                Sink::Stream => Action::Derive { progress: false },
            },
            Session::Showing { passphrase, display_duration } => Action::Show {
                passphrase: passphrase.as_str(),
                seconds: *display_duration,
            },
            Session::Writing { line } => Action::Write(line.as_str()),
            Session::Finished => Action::Stop,
            Session::Failed(_) => Action::Stop,
        }
    }

    /// Takes what came of the action and moves on.
    pub fn step(self, event: Event) -> (next: Session)
        ensures
            self.follows(event, next),
    {
        match self {
            Session::LoadingConfig { path, display_duration } => match event {
                Event::ConfigLoaded(raw) => match context_from_raw(&raw) {
                    Ok(context) => Session::ProbingTerminal { context, display_duration },
                    Err(e) => Session::Failed(e),
                },
                _ => Session::Failed(Error::UnexpectedEvent),
            },
            Session::ProbingTerminal { context, display_duration } => match event {
                Event::TerminalProbed(interactive) => if interactive {
                    Session::Prompting { context, display_duration }
                } else {
                    Session::ReadingSecret { context }
                },
                _ => Session::Failed(Error::UnexpectedEvent),
            },
            Session::Prompting { context, display_duration } => match event {
                Event::SecretRead(line) => match Acquisition::start().on_secret(line) {
                    Acquisition::Confirming(entered) => Session::Confirming {
                        context,
                        display_duration,
                        entered,
                    },
                    _ => Session::Failed(Error::UnexpectedEvent),
                },
                _ => Session::Failed(Error::UnexpectedEvent),
            },
            Session::Confirming { context, display_duration, entered } => match event {
                Event::AnswerRead(answer) => {
                    let decided = Acquisition::Confirming(entered).on_answer(answer.as_str());
                    match decided.outcome() {
                        Some(Ok(secret)) => Session::Deriving {
                            context,
                            secret,
                            sink: Sink::Screen(display_duration),
                        },
                        Some(Err(e)) => Session::Failed(e),
                        None => Session::Failed(Error::UnexpectedEvent),
                    }
                },
                _ => Session::Failed(Error::UnexpectedEvent),
            },
            Session::ReadingSecret { context } => match event {
                Event::SecretRead(line) => Session::Deriving {
                    context,
                    secret: secret_from_line(line.as_str()),
                    sink: Sink::Stream,
                },
                _ => Session::Failed(Error::UnexpectedEvent),
            },
            Session::Deriving { context, secret, sink } => match event {
                Event::Proceed => match derive_key(
                    secret.as_bytes(),
                    context.salt.as_slice(),
                    context.version,
                    context.params,
                ) {
                    Ok(key) => {
                        let passphrase = passphrase_from_key(key);
                        match sink {
                            Sink::Screen(display_duration) => Session::Showing {
                                passphrase,
                                display_duration,
                            },
                            Sink::Stream => Session::Writing { line: passphrase },
                        }
                    },
                    Err(e) => Session::Failed(e),
                },
                _ => Session::Failed(Error::UnexpectedEvent),
            },
            Session::Showing { .. } => match event {
                Event::Acknowledged => Session::Finished,
                Event::TimedOut => Session::Finished,
                Event::Disconnected => Session::Failed(Error::DisplayInterrupted),
                _ => Session::Failed(Error::UnexpectedEvent),
            },
            Session::Writing { .. } => match event {
                Event::Written => Session::Finished,
                _ => Session::Failed(Error::UnexpectedEvent),
            },
            Session::Finished => Session::Finished,
            Session::Failed(e) => Session::Failed(e),
        }
    }

    /// How the run ended, once it has. `None` while it is under way.
    pub fn outcome(self) -> (ended: Option<Result<(), Error>>)
        ensures
            match self {
                Session::Finished => ended == Some(Ok::<(), Error>(())),
                Session::Failed(e) => ended == Some(Err::<(), Error>(e)),
                _ => ended is None,
            },
    {
        match self {
            Session::Finished => Some(Ok(())),
            Session::Failed(e) => Some(Err(e)),
            _ => None,
        }
    }
}

} // verus!
