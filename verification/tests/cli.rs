use bpm::cli::{answer, failure, request, Answer, Request, Stream, USAGE};

const HELP: &str = "bpm v0.3.1
Tap keys to calculate beats per minute (BPM)

OPTIONS:
  -h, --help: Print usage help
  -V, --version: Print version information";

#[test]
fn known_options() {
    assert_eq!(request("-h"), Request::Help);
    assert_eq!(request("--help"), Request::Help);
    assert_eq!(request("-V"), Request::Version);
    assert_eq!(request("--version"), Request::Version);
}

#[test]
fn anything_else_is_unknown() {
    for arg in ["", "-", "--", "-v", "-H", "--Help", "--HELP", "-hh", "help", "-h ", " -h", "--versio", "--version=1", "x", "-V\n", "\u{fffd}"] {
        assert_eq!(request(arg), Request::Unknown);
    }
}

#[test]
fn help_names_the_program_and_its_version() {
    for arg in ["-h", "--help"] {
        let given = answer(arg, "bpm", "0.3.1");
        assert_eq!(given, Answer { text: HELP.to_string(), stream: Stream::Output, code: 0 });
        assert!(given.text.contains("bpm"));
        assert!(given.text.contains("0.3.1"));
    }
}

#[test]
fn help_of_another_program() {
    let given = answer("--help", "taps", "12.0.0-rc1");
    assert!(given.text.starts_with("taps v12.0.0-rc1\nTap keys"));
    assert_eq!(given.text, format!("taps v12.0.0-rc1{}", USAGE));
    assert_eq!(given.code, 0);
}

#[test]
fn version_is_name_and_version() {
    for arg in ["-V", "--version"] {
        let given = answer(arg, "bpm", "0.3.1");
        assert_eq!(given, Answer { text: "bpm v0.3.1".to_string(), stream: Stream::Output, code: 0 });
    }
    assert_eq!(answer("-V", "", "").text, " v");
}

#[test]
fn unknown_option_is_named_in_the_complaint() {
    for arg in ["--frobnicate", "-x", "", "tap tap", "-hV", "--héllo", "\u{fffd}\u{fffd}"] {
        let given = answer(arg, "bpm", "0.3.1");
        assert_eq!(given.text, format!("error: unknown option {}", arg));
        assert!(given.text.contains(arg));
        assert_eq!(given.stream, Stream::Error);
        assert_eq!(given.code, 1);
    }
}

#[test]
fn failure_is_reported_with_its_cause() {
    assert_eq!(failure("Input/output error (os error 5)"), "error: Input/output error (os error 5)");
    assert_eq!(failure(""), "error: ");
}
