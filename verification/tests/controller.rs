use happy_server::controller::{resolve, CliArgGetter, Features, FlagSpec, RawOptions};
use happy_server::lifecycle::{step, Action, Event, Phase};
use happy_server::locale::Language;
use happy_server::server_core::{BindAddress, HappyServerBuilder, HappyServerViewer, Ssl, Transport};
use happy_server::viewer::style::StyledString;
use happy_server::viewer::StreamViewer;
use happy_server::Mode;
use std::path::PathBuf;

const STYLED_ENGLISH: Features =
    Features { english: true, no_color: false, no_clipboard: false, no_ssl: false };
const STYLED_JAPANESE: Features =
    Features { english: false, no_color: false, no_clipboard: false, no_ssl: false };
const PLAIN_ENGLISH: Features =
    Features { english: true, no_color: true, no_clipboard: true, no_ssl: true };

fn raw(port: Option<&str>, dir: Option<&str>, prefix: Option<&str>) -> RawOptions {
    RawOptions {
        port: port.map(String::from),
        distribution_dir: dir.map(String::from),
        uri_prefix: prefix.map(String::from),
        flip_language: false,
        color_override: None,
        clipboard_override: None,
    }
}

fn names(flags: &[FlagSpec]) -> Vec<&'static str> {
    flags.iter().map(|flag| flag.name).collect()
}

#[test]
fn resolve_defaults() {
    let resolution = resolve(raw(None, None, None), STYLED_ENGLISH, Some(PathBuf::from("/tmp/demo")));
    assert_eq!(resolution.language, Language::English);
    assert_eq!(resolution.using_clipboard, Some(true));
    let plan = resolution.outcome.unwrap();
    assert_eq!(plan.socket_addr, BindAddress { octets: (0, 0, 0, 0), port: 80 });
    assert_eq!(plan.distribution_dir, PathBuf::from("/tmp/demo"));
    assert_eq!(plan.uri_prefix, "");
    assert!(plan.ssl.is_none());

    let mut viewer =
        StreamViewer::new(resolution.language, resolution.style, resolution.using_clipboard);
    let to_copy = viewer.clipboard_request(true, &plan);
    assert_eq!(to_copy, Some("http://localhost".to_string()));
    assert!(viewer.output_start_server(true, &plan, true).is_ok());
    let text = String::from_utf8(viewer.take_output()).unwrap();
    assert!(text.contains("Running"));
    assert!(text.contains("http://localhost"));
}

#[test]
fn resolve_custom_port_and_prefix() {
    let resolution = resolve(raw(Some("8080"), None, Some("docs")), STYLED_ENGLISH, Some(PathBuf::from("/srv")));
    let plan = resolution.outcome.unwrap();
    assert_eq!(plan.socket_addr.port, 8080);
    assert_eq!(plan.uri_prefix, "docs");
    assert_eq!(plan.browse_url(), "http://localhost:8080/docs");
}

#[test]
fn resolve_invalid_port() {
    let resolution = resolve(raw(Some("abc"), None, None), PLAIN_ENGLISH, Some(PathBuf::from("/srv")));
    let report = resolution.outcome.unwrap_err();
    assert_eq!(report.len(), 1);
    assert!(report.paragraphs[0].contains("port"));
    assert!(report.paragraphs[0].contains("0 and 65535"));
    assert_eq!(
        step(Phase::Resolving, Event::ResolutionShown { plan_exists: false, written: true }),
        (Phase::Done, Action::Exit(0))
    );
}

#[test]
fn resolve_invalid_prefix() {
    let resolution = resolve(raw(None, None, Some("/bad")), PLAIN_ENGLISH, Some(PathBuf::from("/srv")));
    let report = resolution.outcome.unwrap_err();
    assert_eq!(report.len(), 1);
    assert!(report.paragraphs[0].contains("You can't put \"/\" at the beginning"));
    assert!(report.paragraphs[0].contains("\"//\""));
}

#[test]
fn resolve_two_failures_at_once() {
    let resolution = resolve(raw(Some("foo"), None, Some("a//b")), PLAIN_ENGLISH, Some(PathBuf::from("/srv")));
    let report = resolution.outcome.unwrap_err();
    assert_eq!(report.len(), 2);
    assert!(report.paragraphs[0].contains("port number"));
    assert!(report.paragraphs[1].contains("URI setting"));
}

#[test]
fn resolve_unreadable_current_directory() {
    let resolution = resolve(raw(None, None, None), PLAIN_ENGLISH, None);
    let report = resolution.outcome.unwrap_err();
    assert_eq!(report.len(), 1);
    assert!(report.paragraphs[0].contains("Could not locate the current directory"));
    let given = resolve(raw(None, Some("/srv"), None), PLAIN_ENGLISH, None);
    assert_eq!(given.outcome.unwrap().distribution_dir, PathBuf::from("/srv"));
}

#[test]
fn resolve_language_flip() {
    let mut options = raw(None, None, None);
    options.flip_language = true;
    let resolution = resolve(options, STYLED_JAPANESE, Some(PathBuf::from("/srv")));
    assert_eq!(resolution.language, Language::English);
    let plan = resolution.outcome.unwrap();
    let mut viewer = StreamViewer::new(resolution.language, StyledString::no_colored(), None);
    assert!(viewer.output_start_server(true, &plan, false).is_ok());
    assert_eq!(
        String::from_utf8(viewer.take_output()).unwrap(),
        "Running: Distribution via http is now available!!\nYou can browse by visiting http://localhost\n\nTo exit, press Ctrl + C or close this window.\n"
    );

    let unflipped = resolve(raw(Some("x"), None, None), STYLED_JAPANESE, Some(PathBuf::from("/srv")));
    assert_eq!(unflipped.language, Language::Japanese);
    assert!(unflipped.outcome.unwrap_err().paragraphs[0].contains("ポート番号"));
}

#[test]
fn flipping_twice_returns_to_the_start() {
    for language in [Language::Japanese, Language::English] {
        assert_ne!(language.opposite(), language);
        assert_eq!(language.opposite().opposite(), language);
        assert_eq!(language.selected(false), language);
        assert_eq!(language.selected(true), language.opposite());
        assert_eq!(language.selected(true).selected(true), language);
    }
    assert_eq!(Language::Japanese.opposite(), Language::English);
}

#[test]
fn the_colour_switch_turns_the_default_around() {
    let getter = CliArgGetter { language: Language::English };
    for (features, color_override, expected) in [
        (STYLED_ENGLISH, None, true),
        (STYLED_ENGLISH, Some(true), false),
        (STYLED_ENGLISH, Some(false), true),
        (PLAIN_ENGLISH, None, false),
        (PLAIN_ENGLISH, Some(true), true),
        (PLAIN_ENGLISH, Some(false), false),
    ] {
        let mut options = raw(None, None, None);
        options.color_override = color_override;
        let (_, color, _, _) = getter.get_arguments(features, options);
        assert_eq!(color, expected);
    }
    assert!(STYLED_ENGLISH.default_color());
    assert!(!PLAIN_ENGLISH.default_color());
}

#[test]
fn plain_resolution_has_plain_tags() {
    let resolution = resolve(raw(None, None, None), PLAIN_ENGLISH, None);
    assert_eq!(resolution.style, StyledString::no_colored());
    let mut options = raw(None, None, None);
    options.color_override = Some(true);
    let resolution = resolve(options, STYLED_ENGLISH, None);
    assert_eq!(resolution.style, StyledString::no_colored());
}

#[test]
fn the_clipboard_switch_suppresses_the_clipboard() {
    let getter = CliArgGetter { language: Language::Japanese };
    for (features, clipboard_override, expected) in [
        (STYLED_JAPANESE, None, Some(true)),
        (STYLED_JAPANESE, Some(true), Some(false)),
        (STYLED_JAPANESE, Some(false), Some(false)),
        (PLAIN_ENGLISH, None, None),
        (PLAIN_ENGLISH, Some(true), None),
    ] {
        let mut options = raw(None, None, None);
        options.clipboard_override = clipboard_override;
        let (_, _, using_clipboard, _) = getter.get_arguments(features, options);
        assert_eq!(using_clipboard, expected);
    }
}

#[test]
fn raw_texts_pass_through_untouched() {
    let getter = CliArgGetter { language: Language::Japanese };
    let (language, _, _, model) =
        getter.get_arguments(STYLED_JAPANESE, raw(Some(" 80 "), Some("./x"), Some("//")));
    assert_eq!(language, Language::Japanese);
    assert_eq!(model.port, Some(" 80 ".to_string()));
    assert_eq!(model.distribution_dir, Some("./x".to_string()));
    assert_eq!(model.uri_prefix, Some("//".to_string()));
}

#[test]
fn only_the_switches_that_change_a_default_are_offered() {
    let japanese = CliArgGetter { language: STYLED_JAPANESE.default_language() };
    assert_eq!(
        names(&japanese.flags(STYLED_JAPANESE)),
        vec!["port", "uri_prefix", "distribution_dir", "english", "no_clipboard", "no_color"]
    );
    let english = CliArgGetter { language: PLAIN_ENGLISH.default_language() };
    assert_eq!(
        names(&english.flags(PLAIN_ENGLISH)),
        vec!["port", "uri_prefix", "distribution_dir", "japanese", "color"]
    );
}

#[test]
fn options_are_spelled_and_described() {
    let flags = CliArgGetter { language: Language::English }.flags(PLAIN_ENGLISH);
    assert_eq!(
        flags[0],
        FlagSpec {
            name: "port",
            short: Some('p'),
            long: "port",
            value_name: Some("port_number"),
            help: "Specify the distribution port",
        }
    );
    assert_eq!(
        flags[2],
        FlagSpec {
            name: "distribution_dir",
            short: Some('d'),
            long: "dist_dir",
            value_name: Some("distribution directory"),
            help: "Specify the distribution directory",
        }
    );
    assert_eq!(
        flags[3],
        FlagSpec {
            name: "japanese",
            short: Some('j'),
            long: "japanese",
            value_name: None,
            help: "Prints output with Japanese",
        }
    );
    assert_eq!(
        flags[4],
        FlagSpec {
            name: "color",
            short: Some('c'),
            long: "color",
            value_name: None,
            help: "Add color to the standard output (not supported by some terminals).",
        }
    );
    let flags = CliArgGetter { language: Language::Japanese }.flags(STYLED_JAPANESE);
    assert_eq!(
        flags[1],
        FlagSpec {
            name: "uri_prefix",
            short: Some('u'),
            long: "uri_prefix",
            value_name: Some("uri prefix"),
            help: "配信uriの指定 ... https://localhost/〇〇/index.html の〇〇の部分です。",
        }
    );
    assert_eq!(
        flags[3],
        FlagSpec {
            name: "english",
            short: Some('e'),
            long: "english",
            value_name: None,
            help: "標準出力を英語にします",
        }
    );
    assert_eq!(
        flags[4],
        FlagSpec {
            name: "no_clipboard",
            short: None,
            long: "no_clipboard",
            value_name: None,
            help: "クリップボード機能を使わない",
        }
    );
    assert_eq!(
        flags[5],
        FlagSpec {
            name: "no_color",
            short: None,
            long: "no_color",
            value_name: None,
            help: "標準出力に色を付けません",
        }
    );
}

#[test]
fn a_full_run_goes_through_every_phase() {
    let (phase, action) =
        step(Phase::Resolving, Event::ResolutionShown { plan_exists: true, written: true });
    assert_eq!((phase, action), (Phase::Starting, Action::StartServer));
    let (phase, action) = step(phase, Event::StartShown { started: true, written: true });
    assert_eq!((phase, action), (Phase::Running, Action::AwaitInterrupt));
    let (phase, action) = step(phase, Event::Interrupt);
    assert_eq!((phase, action), (Phase::Stopping, Action::StopServer));
    let (phase, action) = step(phase, Event::ServerStopped);
    assert_eq!((phase, action), (Phase::Stopped, Action::ShowStop));
    let (phase, action) = step(phase, Event::StopShown { written: true });
    assert_eq!((phase, action), (Phase::Done, Action::Exit(0)));
    assert_eq!(step(phase, Event::Interrupt), (Phase::Done, Action::Nothing));
}

#[test]
fn runs_end_early_with_the_right_exit_code() {
    assert_eq!(
        step(Phase::Resolving, Event::ResolutionShown { plan_exists: true, written: false }),
        (Phase::Done, Action::Exit(1))
    );
    assert_eq!(
        step(Phase::Resolving, Event::ResolutionShown { plan_exists: false, written: false }),
        (Phase::Done, Action::Exit(1))
    );
    assert_eq!(
        step(Phase::Starting, Event::StartShown { started: false, written: true }),
        (Phase::Done, Action::Exit(0))
    );
    assert_eq!(
        step(Phase::Starting, Event::StartShown { started: true, written: false }),
        (Phase::Done, Action::Exit(1))
    );
    assert_eq!(
        step(Phase::Stopped, Event::StopShown { written: false }),
        (Phase::Done, Action::Exit(1))
    );
}

#[test]
fn events_out_of_turn_change_nothing() {
    assert_eq!(step(Phase::Resolving, Event::Interrupt), (Phase::Resolving, Action::Nothing));
    assert_eq!(step(Phase::Starting, Event::Interrupt), (Phase::Starting, Action::Nothing));
    assert_eq!(step(Phase::Running, Event::ServerStopped), (Phase::Running, Action::Nothing));
    assert_eq!(step(Phase::Stopping, Event::Interrupt), (Phase::Stopping, Action::Nothing));
    assert_eq!(
        step(Phase::Running, Event::StopShown { written: true }),
        (Phase::Running, Action::Nothing)
    );
}

#[test]
fn the_transport_follows_the_plan() {
    let mut plan = HappyServerBuilder {
        socket_addr: BindAddress { octets: (0, 0, 0, 0), port: 443 },
        distribution_dir: PathBuf::from("/srv"),
        uri_prefix: String::new(),
        ssl: None,
    };
    assert_eq!(plan.transport(true), Some(Transport::Plain));
    assert_eq!(plan.transport(false), Some(Transport::Plain));
    plan.ssl = Some(Ssl { server_crt: vec![1], server_key: vec![2] });
    assert_eq!(plan.transport(true), Some(Transport::Tls));
    assert_eq!(plan.transport(false), None);
    let Mode::Http(inner) = Mode::Http(plan);
    assert_eq!(inner.socket_addr.port, 443);
}
