use opencmd::linux;
use opencmd::macos;
use opencmd::open;
use opencmd::open_browser;
use opencmd::open_editor;
use opencmd::resolve;
use opencmd::windows;
use opencmd::Error;
use opencmd::LookupError;
use opencmd::PathOrURI;

#[test]
fn test_resolve_override_not_on_path() {
    // An override that names a missing executable fails, naming exactly
    // that executable: no silent fallback to the platform default.
    let target = PathOrURI::parse("/tmp/report.pdf");
    let missing = String::from("no-such-program-on-any-search-path");
    match resolve(&target, Some(&missing)) {
        Err(Error::NotFound { exe, error }) => {
            assert_eq!(exe, missing);
            assert_eq!(error, LookupError::CannotFindBinaryPath);
        }
        other => panic!("expected NotFound, got {:?}", other),
    }
}

#[test]
fn test_resolve_override_present() {
    // `sh` is on the search path of any conformant Unix-like system, so
    // the override resolves to it, with the display string as argument.
    let target = PathOrURI::parse("/tmp/report.pdf");
    let shell = String::from("sh");
    let cmd = resolve(&target, Some(&shell)).unwrap();
    assert_eq!(cmd.program, "sh");
    assert_eq!(cmd.args, vec![String::from("/tmp/report.pdf")]);
}

#[test]
fn test_resolve_empty_override_delegates() {
    // An empty override value does not name an executable: it counts as
    // unset, and resolution delegates to the desktop opener.
    let target = PathOrURI::parse("/tmp/report.pdf");
    let empty = String::new();
    match resolve(&target, Some(&empty)) {
        Ok(cmd) => {
            assert_eq!(cmd.program, "xdg-open");
            assert_eq!(cmd.args, vec![String::from("/tmp/report.pdf")]);
        }
        Err(Error::NotFound { exe, .. }) => assert_eq!(exe, "xdg-open"),
        other => panic!("expected xdg-open outcome, got {:?}", other),
    }
}

#[test]
fn test_resolve_default_delegates_to_desktop_opener() {
    // Without an override, resolution delegates to the desktop opener,
    // which existence-checks its own program: either outcome names it.
    let target = PathOrURI::parse("https://example.com/x");
    match resolve(&target, None) {
        Ok(cmd) => {
            assert_eq!(cmd.program, "xdg-open");
            assert_eq!(cmd.args, vec![String::from("https://example.com/x")]);
        }
        Err(Error::NotFound { exe, .. }) => assert_eq!(exe, "xdg-open"),
        other => panic!("expected xdg-open outcome, got {:?}", other),
    }
}

#[test]
fn test_open_matches_resolve_without_override() {
    let target = PathOrURI::parse("https://example.com/x");
    match open(&target) {
        Ok(cmd) => {
            assert_eq!(cmd.program, "xdg-open");
            assert_eq!(cmd.args, vec![String::from("https://example.com/x")]);
        }
        Err(Error::NotFound { exe, .. }) => assert_eq!(exe, "xdg-open"),
        other => panic!("expected xdg-open outcome, got {:?}", other),
    }
}

#[test]
fn test_open_browser_uses_override_value() {
    let target = PathOrURI::parse("https://example.com/x");
    let shell = String::from("sh");
    let cmd = open_browser(&target, Some(&shell)).unwrap();
    assert_eq!(cmd.program, "sh");
    assert_eq!(cmd.args, vec![String::from("https://example.com/x")]);
}

#[test]
fn test_open_editor_unset_delegates() {
    let target = PathOrURI::parse("/tmp/notes.txt");
    match open_editor(&target, None) {
        Ok(cmd) => {
            assert_eq!(cmd.program, "xdg-open");
            assert_eq!(cmd.args, vec![String::from("/tmp/notes.txt")]);
        }
        Err(Error::NotFound { exe, .. }) => assert_eq!(exe, "xdg-open"),
        other => panic!("expected xdg-open outcome, got {:?}", other),
    }
}

#[test]
fn test_linux_adapter_program() {
    let target = PathOrURI::parse("/tmp/report.pdf");
    match linux::open(&target) {
        Ok(cmd) => {
            assert_eq!(cmd.program, "xdg-open");
            assert_eq!(cmd.args, vec![String::from("/tmp/report.pdf")]);
        }
        Err(Error::NotFound { exe, .. }) => assert_eq!(exe, "xdg-open"),
        other => panic!("expected xdg-open outcome, got {:?}", other),
    }
}

#[test]
fn test_macos_adapter_program() {
    let target = PathOrURI::parse("/tmp/report.pdf");
    match macos::open(&target) {
        Ok(cmd) => {
            assert_eq!(cmd.program, "open");
            assert_eq!(cmd.args, vec![String::from("/tmp/report.pdf")]);
        }
        Err(Error::NotFound { exe, .. }) => assert_eq!(exe, "open"),
        other => panic!("expected open outcome, got {:?}", other),
    }
}

#[test]
fn test_windows_adapter_uses_uri_form() {
    let target = PathOrURI::parse("/tmp/report.pdf");
    match windows::open(&target, "/home/u") {
        Ok(cmd) => {
            assert_eq!(cmd.program, "cmd");
            assert_eq!(
                cmd.args,
                vec![
                    String::from("/c"),
                    String::from("start"),
                    String::from("file:///tmp/report.pdf"),
                ]
            );
        }
        Err(Error::NotFound { exe, .. }) => assert_eq!(exe, "cmd"),
        other => panic!("expected cmd outcome, got {:?}", other),
    }
}

#[test]
fn test_windows_adapter_propagates_conversion_failure() {
    // A target whose URI conversion fails must surface the conversion
    // error, never an Ok descriptor built from the raw path.
    let target = PathOrURI::from_path(String::from("a.txt"));
    match windows::open(&target, "rel") {
        Ok(cmd) => panic!("expected an error, got {:?}", cmd.program),
        Err(Error::FileToURI(p)) => assert_eq!(p, "a.txt"),
        // The shell itself may be missing on the machine running this
        // test; that failure precedes the conversion.
        Err(Error::NotFound { exe, .. }) => assert_eq!(exe, "cmd"),
        other => panic!("expected FileToURI or NotFound, got {:?}", other),
    }
}
