use quies::cli::{CliAction, parse_args};
use quies::controls::App;
use quies::daemon::{Request, parse_request};

fn args(list: &[&str]) -> Vec<String> {
    list.iter().map(|s| s.to_string()).collect()
}

fn sent(a: CliAction) -> String {
    match a {
        CliAction::Send { command } => command,
        other => panic!("expected a request, got {:?}", other),
    }
}

#[test]
fn request_volume_line() {
    match parse_request("vol brown 0.3\n") {
        Request::Volume { layer, level } => {
            assert_eq!(layer, "brown");
            assert_eq!(level, "0.3");
        }
        other => panic!("{:?}", other),
    }
}

#[test]
fn request_volume_keeps_rest_of_line() {
    match parse_request("vol brown 0.3 extra") {
        Request::Volume { layer, level } => {
            assert_eq!(layer, "brown");
            assert_eq!(level, "0.3 extra");
        }
        other => panic!("{:?}", other),
    }
    match parse_request("vol") {
        Request::Volume { layer, level } => {
            assert_eq!(layer, "");
            assert_eq!(level, "");
        }
        other => panic!("{:?}", other),
    }
}

#[test]
fn request_line_is_trimmed() {
    assert!(matches!(parse_request("  status \r\n"), Request::Status));
    assert!(matches!(parse_request("stop\n"), Request::Stop));
    match parse_request("\tmute pink\n") {
        Request::Mute { layer } => assert_eq!(layer, "pink"),
        other => panic!("{:?}", other),
    }
}

#[test]
fn request_unknown_words() {
    match parse_request("dance now\n") {
        Request::Unknown { command } => assert_eq!(command, "dance"),
        other => panic!("{:?}", other),
    }
    match parse_request("\n") {
        Request::Unknown { command } => assert_eq!(command, ""),
        other => panic!("{:?}", other),
    }
    match parse_request("STOP") {
        Request::Unknown { command } => assert_eq!(command, "STOP"),
        other => panic!("{:?}", other),
    }
}

#[test]
fn daemon_sets_volume() {
    let mut e = App::new("focus").unwrap().engine;
    let req = parse_request("vol brown 0.3\n");
    let r = e.handle_request(&req, Some(30));
    assert!(r.keep_running);
    assert_eq!(r.text, "Brown Noise \u{2192} 30%\n");
    assert_eq!(e.get_volume(0), 30);
    let r = e.handle_request(&parse_request("vol PINK 2"), Some(200));
    assert_eq!(r.text, "Pink Noise \u{2192} 100%\n");
}

#[test]
fn daemon_rejects_bad_volume_and_layer() {
    let mut e = App::new("focus").unwrap().engine;
    let r = e.handle_request(&parse_request("vol brown loud"), None);
    assert_eq!(r.text, "invalid volume: loud\n");
    assert_eq!(e.get_volume(0), 60);
    let r = e.handle_request(&parse_request("vol rain 0.5"), Some(50));
    assert_eq!(r.text, "unknown layer: rain\n");
    let r = e.handle_request(&parse_request("vol rain loud"), None);
    assert_eq!(r.text, "unknown layer: rain\n");
    let r = e.handle_request(&parse_request("mute rain"), None);
    assert_eq!(r.text, "unknown layer: rain\n");
    assert!(r.keep_running);
}

#[test]
fn daemon_toggles_mute() {
    let mut e = App::new("focus").unwrap().engine;
    let req = parse_request("mute pink");
    assert_eq!(e.handle_request(&req, None).text, "Pink Noise muted\n");
    assert!(!e.is_active(1));
    assert_eq!(e.handle_request(&req, None).text, "Pink Noise unmuted\n");
    assert!(e.is_active(1));
}

#[test]
fn daemon_status_and_stop() {
    let mut e = App::new("focus").unwrap().engine;
    let r = e.handle_request(&parse_request("status"), None);
    assert!(r.keep_running);
    assert_eq!(r.text, "playing\n  ~ Brown Noise 60%\n  ~ Pink Noise 20%\n");
    let r = e.handle_request(&parse_request("stop"), None);
    assert!(!r.keep_running);
    assert_eq!(r.text, "stopped\n");
    let r = e.handle_request(&parse_request("pause"), None);
    assert!(r.keep_running);
    assert_eq!(r.text, "unknown command: pause\n");
}

#[test]
fn cli_defaults_to_terminal_view() {
    match parse_args(&args(&[])) {
        CliAction::Tui { preset } => assert_eq!(preset, "default"),
        other => panic!("{:?}", other),
    }
    match parse_args(&args(&["focus"])) {
        CliAction::Tui { preset } => assert_eq!(preset, "focus"),
        other => panic!("{:?}", other),
    }
    match parse_args(&args(&[""])) {
        CliAction::Tui { preset } => assert_eq!(preset, "default"),
        other => panic!("{:?}", other),
    }
}

#[test]
fn cli_help_and_daemon() {
    assert!(matches!(parse_args(&args(&["--help"])), CliAction::Help));
    assert!(matches!(parse_args(&args(&["-h", "x"])), CliAction::Help));
    match parse_args(&args(&["start"])) {
        CliAction::Start { preset } => assert_eq!(preset, "default"),
        other => panic!("{:?}", other),
    }
    match parse_args(&args(&["start", "deep"])) {
        CliAction::Start { preset } => assert_eq!(preset, "deep"),
        other => panic!("{:?}", other),
    }
    match parse_args(&args(&["--daemon", "focus"])) {
        CliAction::Daemon { preset } => assert_eq!(preset, "focus"),
        other => panic!("{:?}", other),
    }
}

#[test]
fn cli_requests_to_daemon() {
    assert_eq!(sent(parse_args(&args(&["stop"]))), "stop");
    assert_eq!(sent(parse_args(&args(&["status", "x"]))), "status");
    assert_eq!(sent(parse_args(&args(&["vol", "brown", "0.3"]))), "vol brown 0.3");
    assert_eq!(sent(parse_args(&args(&["mute", "pink"]))), "mute pink");
}

#[test]
fn cli_usage_errors() {
    match parse_args(&args(&["vol", "brown"])) {
        CliAction::Usage { message } => assert_eq!(message, "usage: quies vol <layer> <0.0-1.0>"),
        other => panic!("{:?}", other),
    }
    match parse_args(&args(&["mute"])) {
        CliAction::Usage { message } => assert_eq!(message, "usage: quies mute <layer>"),
        other => panic!("{:?}", other),
    }
}

#[test]
fn request_line_trims_unicode_white_space() {
    assert!(matches!(parse_request("\u{3000}status\u{85}\u{2028}"), Request::Status));
    match parse_request("\u{a0}mute\u{2009}pink ") {
        Request::Unknown { command } => assert_eq!(command, "mute\u{2009}pink"),
        other => panic!("{:?}", other),
    }
    match parse_request(" \t\n ") {
        Request::Unknown { command } => assert_eq!(command, ""),
        other => panic!("{:?}", other),
    }
}
