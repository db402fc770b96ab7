use sphragis::commands::run;
use sphragis::commands::run_generate_salt;
use sphragis::commands::Action;
use sphragis::commands::Event;
use sphragis::commands::Session;
use sphragis::commands::Sink;
use sphragis::config::Argon2idContext;
use sphragis::config::Argon2idParams;
use sphragis::config::RawConfig;
use sphragis::crypto::Params;
use sphragis::crypto::Version;
use sphragis::error::Error;
use sphragis::error::KdfError;
use sphragis::sensitive::SecretBuffer;
use sphragis::sensitive::SensitiveText;
use sphragis::string_codec::parse_base64_str;
use sphragis::Cli;
use sphragis::Command;
use sphragis::DeriveArgs;
use sphragis::LogLevel;
use sphragis::DEFAULT_CONFIG_FILE_PATH;
use sphragis::DEFAULT_DISPLAY_DURATION;
use sphragis::DEFAULT_SALT_LENGTH;

fn fixture_config() -> RawConfig {
    RawConfig {
        version: "0x13".to_string(),
        params: Argon2idParams { m_cost: 19456, t_cost: 2, p_cost: 1 },
        salt: "AAAAAAAAAAAAAAAAAAAAAA==".to_string(),
    }
}

fn small_config(salt: &str) -> RawConfig {
    RawConfig {
        version: "0x13".to_string(),
        params: Argon2idParams { m_cost: 8, t_cost: 1, p_cost: 1 },
        salt: salt.to_string(),
    }
}

fn small_context() -> Argon2idContext {
    Argon2idContext { version: Version::V0x13, params: Params::new(8, 1, 1).unwrap(), salt: b"saltsalt".to_vec() }
}

fn derive(path: &str, seconds: u64) -> Command {
    Command::Derive(DeriveArgs { config: path.to_string(), display_duration: seconds })
}

fn secret(text: &str) -> Event {
    Event::SecretRead(SensitiveText::new(text.to_string()))
}

fn answer(text: &str) -> Event {
    Event::AnswerRead(text.to_string())
}

fn every_event() -> Vec<Event> {
    vec![
        Event::ConfigLoaded(small_config("c2FsdHNhbHQ=")),
        Event::TerminalProbed(true),
        Event::TerminalProbed(false),
        secret("s"),
        answer("y"),
        Event::Proceed,
        Event::Acknowledged,
        Event::TimedOut,
        Event::Disconnected,
        Event::Written,
    ]
}

#[test]
fn defaults() {
    assert_eq!(DEFAULT_CONFIG_FILE_PATH, "sphragis.json5");
    assert_eq!(DEFAULT_DISPLAY_DURATION, 60);
    assert_eq!(DEFAULT_SALT_LENGTH, 16);
    let args = DeriveArgs::default();
    assert_eq!(args.config, "sphragis.json5");
    assert_eq!(args.display_duration, 60);
}

#[test]
fn log_level_follows_the_verbose_flag() {
    assert_eq!(Cli { command: None, verbose: true }.log_level(), LogLevel::Debug);
    assert_eq!(Cli { command: None, verbose: false }.log_level(), LogLevel::Info);
}

#[test]
fn no_subcommand_means_derive_with_defaults() {
    match (Cli { command: None, verbose: false }).into_command() {
        Command::Derive(args) => {
            assert_eq!(args.config, "sphragis.json5");
            assert_eq!(args.display_duration, 60);
        }
        _ => panic!("derive expected"),
    }
    match (Cli { command: Some(Command::GenerateSalt { length: 24 }), verbose: true }).into_command() {
        Command::GenerateSalt { length } => assert_eq!(length, 24),
        _ => panic!("generate-salt expected"),
    }
    match (Cli { command: Some(derive("other.json5", 5)), verbose: false }).into_command() {
        Command::Derive(args) => {
            assert_eq!(args.config, "other.json5");
            assert_eq!(args.display_duration, 5);
        }
        _ => panic!("derive expected"),
    }
}

#[test]
fn generated_salt_line_decodes_to_the_length() {
    for length in [0usize, 1, 2, 3, 16, 33] {
        let line = run_generate_salt(length).unwrap();
        assert_eq!(parse_base64_str(&line).unwrap().len(), length);
    }
    assert_ne!(run_generate_salt(16).unwrap(), run_generate_salt(16).unwrap());
}

#[test]
fn generate_salt_session() {
    let session = run(&Command::GenerateSalt { length: 16 });
    let written = match session.action() {
        Action::Write(line) => line.to_string(),
        _ => panic!("a line to write expected"),
    };
    assert_eq!(written.len(), 24);
    assert_eq!(parse_base64_str(&written).unwrap().len(), 16);
    let session = session.step(Event::Written);
    assert!(matches!(session.action(), Action::Stop));
    assert_eq!(session.outcome(), Some(Ok(())));
}

#[test]
fn interactive_session_end_to_end() {
    let session = run(&derive("sphragis.json5", 60));
    assert!(matches!(session.action(), Action::LoadConfig("sphragis.json5")));
    let session = session.step(Event::ConfigLoaded(fixture_config()));
    assert!(matches!(session.action(), Action::ProbeTerminal));
    let session = session.step(Event::TerminalProbed(true));
    assert!(matches!(session.action(), Action::PromptSecret));
    let session = session.step(secret("  correct horse battery staple \n"));
    assert!(matches!(
        session.action(),
        Action::ConfirmSecret { secret: "correct horse battery staple", length: 28 }
    ));
    let session = session.step(answer("\n"));
    assert!(matches!(session.action(), Action::Derive { progress: true }));
    let session = session.step(Event::Proceed);
    assert!(matches!(
        session.action(),
        Action::Show { passphrase: "vK9v0OWqoxsnIkDDgGdlMxPp94AvwibM+EFs97z55kQ=", seconds: 60 }
    ));
    assert!(session.outcome().is_none());
}

#[test]
fn batch_session_end_to_end() {
    let session = run(&derive("conf.json5", 5));
    assert!(matches!(session.action(), Action::LoadConfig("conf.json5")));
    let session = session.step(Event::ConfigLoaded(fixture_config()));
    let session = session.step(Event::TerminalProbed(false));
    assert!(matches!(session.action(), Action::ReadSecret));
    let session = session.step(secret("correct horse battery staple\n"));
    assert!(matches!(session.action(), Action::Derive { progress: false }));
    let session = session.step(Event::Proceed);
    assert!(matches!(session.action(), Action::Write("vK9v0OWqoxsnIkDDgGdlMxPp94AvwibM+EFs97z55kQ=")));
    let session = session.step(Event::Written);
    assert!(matches!(session.action(), Action::Stop));
    assert_eq!(session.outcome(), Some(Ok(())));
}

#[test]
fn interactive_and_batch_derive_the_same_passphrase() {
    let interactive = run(&derive("c", 9))
        .step(Event::ConfigLoaded(small_config("c2FsdHNhbHQ=")))
        .step(Event::TerminalProbed(true))
        .step(secret(" secret\n"))
        .step(answer("YES\n"))
        .step(Event::Proceed);
    let batch = run(&derive("c", 9))
        .step(Event::ConfigLoaded(small_config("c2FsdHNhbHQ=")))
        .step(Event::TerminalProbed(false))
        .step(secret("secret\n"))
        .step(Event::Proceed);
    let shown = match interactive.action() {
        Action::Show { passphrase, seconds: 9 } => passphrase.to_string(),
        _ => panic!("a passphrase to show expected"),
    };
    let written = match batch.action() {
        Action::Write(line) => line.to_string(),
        _ => panic!("a line to write expected"),
    };
    assert_eq!(shown, written);
    // the key of ("secret", "saltsalt") under the smallest costs
    assert_eq!(shown, "vk+JgWgZGbXHtEqPQPhzXbD+QxxkJR5Fq2AXLhDyYaY=");
}

#[test]
fn a_rejected_secret_aborts_the_session() {
    for reply in ["n", "no", "maybe"] {
        let session = run(&derive("c", 9))
            .step(Event::ConfigLoaded(small_config("c2FsdHNhbHQ=")))
            .step(Event::TerminalProbed(true))
            .step(secret("secret\n"))
            .step(answer(reply));
        assert!(matches!(session.action(), Action::Stop));
        assert_eq!(session.outcome(), Some(Err(Error::Aborted)));
    }
}

#[test]
fn a_faulty_configuration_fails_before_anything_is_asked() {
    let mut raw = fixture_config();
    raw.version = "0x99".to_string();
    let session = run(&derive("c", 9)).step(Event::ConfigLoaded(raw));
    assert!(matches!(session.action(), Action::Stop));
    assert_eq!(session.outcome(), Some(Err(Error::InvalidVersion("0x99".to_string()))));

    let mut raw = fixture_config();
    raw.params.m_cost = 0;
    let session = run(&derive("c", 9)).step(Event::ConfigLoaded(raw));
    assert_eq!(session.outcome(), Some(Err(Error::InvalidParams(KdfError::MemoryTooLittle))));

    let mut raw = fixture_config();
    raw.salt = "zz".to_string();
    let session = run(&derive("c", 9)).step(Event::ConfigLoaded(raw));
    assert_eq!(session.outcome(), Some(Err(Error::UndecodableSalt(2))));
}

#[test]
fn a_short_salt_fails_the_derivation() {
    let session = run(&derive("c", 9))
        .step(Event::ConfigLoaded(small_config("c2FsdA==")))
        .step(Event::TerminalProbed(false))
        .step(secret("secret\n"));
    assert!(matches!(session.action(), Action::Derive { progress: false }));
    let session = session.step(Event::Proceed);
    assert_eq!(session.outcome(), Some(Err(Error::Derivation(KdfError::SaltTooShort))));
}

#[test]
fn showing_ends_on_acknowledgment_or_timeout() {
    let showing = || Session::Showing { passphrase: SensitiveText::new("pass".to_string()), display_duration: 1 };
    assert!(matches!(showing().action(), Action::Show { passphrase: "pass", seconds: 1 }));
    assert_eq!(showing().step(Event::Acknowledged).outcome(), Some(Ok(())));
    assert_eq!(showing().step(Event::TimedOut).outcome(), Some(Ok(())));
    assert_eq!(showing().step(Event::Disconnected).outcome(), Some(Err(Error::DisplayInterrupted)));
    assert_eq!(showing().step(Event::Written).outcome(), Some(Err(Error::UnexpectedEvent)));
}

#[test]
fn deriving_sends_the_passphrase_to_its_sink() {
    let deriving = |sink: Sink| Session::Deriving {
        context: small_context(),
        secret: SecretBuffer::new(b"secret".to_vec()),
        sink,
    };
    assert!(matches!(deriving(Sink::Screen(3)).action(), Action::Derive { progress: true }));
    assert!(matches!(deriving(Sink::Stream).action(), Action::Derive { progress: false }));
    let shown = deriving(Sink::Screen(3)).step(Event::Proceed);
    assert!(matches!(
        shown.action(),
        Action::Show { passphrase: "vk+JgWgZGbXHtEqPQPhzXbD+QxxkJR5Fq2AXLhDyYaY=", seconds: 3 }
    ));
    let written = deriving(Sink::Stream).step(Event::Proceed);
    assert!(matches!(written.action(), Action::Write("vk+JgWgZGbXHtEqPQPhzXbD+QxxkJR5Fq2AXLhDyYaY=")));
}

#[test]
fn an_event_that_was_not_asked_for_fails_the_session() {
    let states: Vec<(fn() -> Session, usize)> = vec![
        (|| run(&Command::Derive(DeriveArgs::default())), 0),
        (|| Session::ProbingTerminal { context: small_context(), display_duration: 1 }, 1),
        (|| Session::Prompting { context: small_context(), display_duration: 1 }, 3),
        (
            || Session::Confirming {
                context: small_context(),
                display_duration: 1,
                entered: SensitiveText::new("s".to_string()),
            },
            4,
        ),
        (|| Session::ReadingSecret { context: small_context() }, 3),
        (
            || Session::Deriving {
                context: small_context(),
                secret: SecretBuffer::new(b"s".to_vec()),
                sink: Sink::Stream,
            },
            5,
        ),
        (|| Session::Writing { line: SensitiveText::new("l".to_string()) }, 9),
    ];
    for (state, awaited) in states {
        for (index, event) in every_event().into_iter().enumerate() {
            let next = state().step(event);
            // both answers to the probe are awaited where one is
            let asked_for = index == awaited || (awaited == 1 && index == 2);
            let failed = matches!(next, Session::Failed(Error::UnexpectedEvent));
            assert_eq!(failed, !asked_for);
        }
    }
}

#[test]
fn an_ended_session_stays_as_it_is() {
    for event in every_event() {
        assert_eq!(Session::Finished.step(event).outcome(), Some(Ok(())));
    }
    for event in every_event() {
        assert_eq!(Session::Failed(Error::Aborted).step(event).outcome(), Some(Err(Error::Aborted)));
    }
}

#[test]
fn a_session_under_way_has_no_outcome() {
    assert!(run(&Command::Derive(DeriveArgs::default())).outcome().is_none());
    assert!(Session::Prompting { context: small_context(), display_duration: 1 }.outcome().is_none());
    assert!(Session::Writing { line: SensitiveText::new("l".to_string()) }.outcome().is_none());
}
