use aivo_services::browser_open::{
    after_shell_execute, after_spawn, open_url, Launcher, OpenError, OpenStep, Platform,
};
use aivo_services::text::{decimal_text, hex_text, trim};
use aivo_services::transform_mode::{
    is_active, is_transparent, set_active, set_transparent, TransformMode,
};
use aivo_services::utf16::wide;

const URL: &str = "https://example.com/cb?a=1&b=%20#x";

fn done(result: Result<(), OpenError>) -> OpenStep {
    OpenStep::Done { result }
}

fn spawn(launcher: Launcher) -> OpenStep {
    OpenStep::Spawn {
        launcher,
        url: URL.to_string(),
    }
}

#[test]
fn macos_has_one_launcher() {
    assert_eq!(open_url(Platform::MacOs, URL), spawn(Launcher::Open));
    assert_eq!(after_spawn(Launcher::Open, true, URL), done(Ok(())));
    assert_eq!(
        after_spawn(Launcher::Open, false, URL),
        done(Err(OpenError::Launch))
    );
}

#[test]
fn linux_falls_back_once() {
    assert_eq!(open_url(Platform::Linux, URL), spawn(Launcher::XdgOpen));
    assert_eq!(after_spawn(Launcher::XdgOpen, true, URL), done(Ok(())));
    assert_eq!(
        after_spawn(Launcher::XdgOpen, false, URL),
        spawn(Launcher::SensibleBrowser)
    );
    assert_eq!(after_spawn(Launcher::SensibleBrowser, true, URL), done(Ok(())));
    assert_eq!(
        after_spawn(Launcher::SensibleBrowser, false, URL),
        done(Err(OpenError::Launch))
    );
}

#[test]
fn windows_calls_the_shell() {
    let mut file: Vec<u16> = URL.encode_utf16().collect();
    file.push(0);
    assert_eq!(
        open_url(Platform::Windows, URL),
        OpenStep::ShellExecute {
            operation: vec![111, 112, 101, 110, 0],
            file,
            show: 1,
        }
    );
    assert_eq!(after_shell_execute(33), done(Ok(())));
    for (code, message) in [
        (32, "ShellExecuteW failed (code 32)"),
        (0, "ShellExecuteW failed (code 0)"),
        (-1, "ShellExecuteW failed (code -1)"),
    ] {
        assert_eq!(
            after_shell_execute(code),
            done(Err(OpenError::Shell {
                message: message.to_string()
            }))
        );
    }
}

#[test]
fn other_platforms_are_unsupported() {
    assert_eq!(
        open_url(Platform::Other, URL),
        done(Err(OpenError::Unsupported {
            message: "no known browser launcher for this platform".to_string()
        }))
    );
}

#[test]
fn launcher_programs() {
    assert_eq!(Launcher::Open.program(), "open");
    assert_eq!(Launcher::XdgOpen.program(), "xdg-open");
    assert_eq!(Launcher::SensibleBrowser.program(), "sensible-browser");
}

#[test]
fn wide_text_reads_back() {
    for s in ["", "open", "größe", "→", "a\u{1f600}b\u{10ffff}\u{10000}\u{ffff}"] {
        let mut units = wide(s);
        assert_eq!(units.pop(), Some(0));
        assert_eq!(units, s.encode_utf16().collect::<Vec<u16>>());
        assert_eq!(String::from_utf16(&units).unwrap(), s);
    }
}

#[test]
fn flags_start_off_and_read_back() {
    let mut mode = TransformMode::new();
    assert!(!is_active(&mode));
    assert!(!is_transparent(&mode));
    set_active(&mut mode, true);
    assert!(is_active(&mode));
    assert!(!is_transparent(&mode));
    set_transparent(&mut mode, true);
    set_active(&mut mode, false);
    assert!(!is_active(&mode));
    assert!(is_transparent(&mode));
    set_transparent(&mut mode, false);
    assert_eq!(mode, TransformMode::new());
}

#[test]
fn trimming_agrees_with_the_standard_library() {
    for n in 0..=0x10ffffu32 {
        if let Some(c) = char::from_u32(n) {
            let s = format!("{c}x {c}");
            assert_eq!(trim(&s), s.trim(), "U+{n:04X}");
        }
    }
    assert_eq!(trim(""), "");
    assert_eq!(trim(" \u{85}\n"), "");
    assert_eq!(trim(trim("  a b  ")), "a b");
}

#[test]
fn numerals() {
    for i in [0, 1, 9, 10, 99, 100, 12345, -1, -10, i64::MAX, i64::MIN] {
        assert_eq!(decimal_text(i), i.to_string());
    }
    assert_eq!(hex_text(&[]), "");
    assert_eq!(hex_text(&[0x00, 0x0f, 0xf0, 0xff, 0xa9]), "000ff0ffa9");
}
