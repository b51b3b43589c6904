//! Which launcher opens a URL in the user's default browser, and what a launch means.
//!
//! Best-effort only; the caller must be prepared to fall back to printing the URL and asking the
//! user to paste the callback URL back. The functions here decide: a caller performs the step that
//! `open_url` gives, hands its outcome to `after_spawn` or `after_shell_execute`, and goes on until
//! a step says that it is done.

use crate::text;
use crate::utf16;
use vstd::prelude::*;

verus! {

/// The systems that a launcher is known for, and the others.
#[derive(Clone, Copy, Debug, PartialEq, Eq, Structural)]
pub enum Platform {
    MacOs,
    Linux,
    Windows,
    Other,
}

/// A program that opens the URL it is given.
#[derive(Clone, Copy, Debug, PartialEq, Eq, Structural)]
pub enum Launcher {
    Open,
    XdgOpen,
    SensibleBrowser,
}

/// Why a URL was not opened.
#[derive(Debug, PartialEq, Eq)]
pub enum OpenError {
    /// The last program could not be started; its error is the caller's answer.
    Launch,
    /// The shell call reported a failure.
    Shell { message: String },
    /// There is no launcher for this system.
    Unsupported { message: String },
}

/// What a caller does next.
#[derive(Debug, PartialEq, Eq)]
pub enum OpenStep {
    /// Start the launcher with the URL as its only argument, detached from the standard streams.
    Spawn { launcher: Launcher, url: String },
    /// Call `ShellExecuteW` with these zero-ended wide texts and this show command.
    ShellExecute { operation: Vec<u16>, file: Vec<u16>, show: i32 },
    /// Nothing: this is the answer.
    Done { result: Result<(), OpenError> },
}

/// The show command for an ordinary window.
pub const SW_SHOWNORMAL: i32 = 1;

/// `ShellExecuteW` reports success by a value above this one.
pub const SHELL_ERROR_MAX: isize = 32;

/// The error that an `OpenError` is.
pub enum OpenErrorView {
    Launch,
    Shell { message: Seq<char> },
    Unsupported { message: Seq<char> },
}

impl View for OpenError {
    type V = OpenErrorView;

    open spec fn view(&self) -> OpenErrorView {
        match *self {
            OpenError::Launch => OpenErrorView::Launch,
            OpenError::Shell { message } => OpenErrorView::Shell { message: message@ },
            OpenError::Unsupported { message } => OpenErrorView::Unsupported { message: message@ },
        }
    }
}

/// The step that an `OpenStep` is.
pub enum OpenStepView {
    Spawn { launcher: Launcher, url: Seq<char> },
    ShellExecute { operation: Seq<u16>, file: Seq<u16>, show: i32 },
    Done { result: Result<(), OpenErrorView> },
}

impl View for OpenStep {
    type V = OpenStepView;

    open spec fn view(&self) -> OpenStepView {
        match *self {
            OpenStep::Spawn { launcher, url } => OpenStepView::Spawn { launcher, url: url@ },
            OpenStep::ShellExecute { operation, file, show } => OpenStepView::ShellExecute {
                operation: operation@,
                file: file@,
                show,
            },
            OpenStep::Done { result } => OpenStepView::Done {
                result: match result {
                    Ok(_) => Ok(()),
                    Err(e) => Err(e@),
                },
            },
        }
    }
}

/// The program that a launcher is.
pub open spec fn program_name(launcher: Launcher) -> Seq<char> {
    match launcher {
        Launcher::Open => "open"@,
        Launcher::XdgOpen => "xdg-open"@,
        Launcher::SensibleBrowser => "sensible-browser"@,
    }
}

/// The step that opening starts with on a platform.
pub open spec fn first_step(platform: Platform, url: Seq<char>) -> OpenStepView {
    match platform {
        Platform::MacOs => OpenStepView::Spawn { launcher: Launcher::Open, url },
        Platform::Linux => OpenStepView::Spawn { launcher: Launcher::XdgOpen, url },
        Platform::Windows => OpenStepView::ShellExecute {
            operation: utf16::utf16("open"@).push(0),
            file: utf16::utf16(url).push(0),
            show: SW_SHOWNORMAL,
        },
        Platform::Other => OpenStepView::Done {
            result: Err(
                OpenErrorView::Unsupported {
                    message: "no known browser launcher for this platform"@,
                },
            ),
        },
    }
}

/// The step behind a launch: the URL counts as opened as soon as a program started, and only
/// `xdg-open` has another program behind it.
pub open spec fn step_after_spawn(launcher: Launcher, started: bool, url: Seq<char>) -> OpenStepView {
    if started {
        OpenStepView::Done { result: Ok(()) }
    } else if launcher == Launcher::XdgOpen {
        OpenStepView::Spawn { launcher: Launcher::SensibleBrowser, url }
    } else {
        OpenStepView::Done { result: Err(OpenErrorView::Launch) }
    }
}

/// The step behind a shell call that returned `code`.
pub open spec fn step_after_shell_execute(code: int) -> OpenStepView {
    if code > SHELL_ERROR_MAX {
        OpenStepView::Done { result: Ok(()) }
    } else {
        OpenStepView::Done {
            result: Err(
                OpenErrorView::Shell {
                    message: "ShellExecuteW failed (code "@ + text::signed_decimal(code) + ")"@,
                },
            ),
        }
    }
}

/// The answer that a caller arrives at from `step`, where `starts` says which launchers can be
/// started and `code` is what the shell call returns. `fuel` bounds the number of steps.
pub open spec fn answer(
    step: OpenStepView,
    starts: spec_fn(Launcher) -> bool,
    code: int,
    fuel: nat,
) -> Option<Result<(), OpenErrorView>>
    decreases fuel,
{
    match step {
        OpenStepView::Done { result } => Some(result),
        OpenStepView::Spawn { launcher, url } => if fuel == 0 {
            None
        } else {
            answer(
                step_after_spawn(launcher, starts(launcher), url),
                starts,
                code,
                (fuel - 1) as nat,
            )
        },
        OpenStepView::ShellExecute { .. } => if fuel == 0 {
            None
        } else {
            answer(step_after_shell_execute(code), starts, code, (fuel - 1) as nat)
        },
    }
}

/// Opening ends after at most two launches, whatever happens, and succeeds exactly where a launcher
/// of the platform works: `open` on macOS, `xdg-open` or else `sensible-browser` on Linux, a shell
/// call with a value above 32 on Windows, and nothing elsewhere.
pub proof fn law_opening_succeeds_iff_a_launcher_works(
    platform: Platform,
    url: Seq<char>,
    starts: spec_fn(Launcher) -> bool,
    code: int,
)
    ensures
        answer(first_step(platform, url), starts, code, 2) is Some,
        answer(first_step(platform, url), starts, code, 2)->0 is Ok <==> match platform {
            Platform::MacOs => starts(Launcher::Open),
            Platform::Linux => starts(Launcher::XdgOpen) || starts(Launcher::SensibleBrowser),
            Platform::Windows => code > 32,
            Platform::Other => false,
        },
{
    reveal_with_fuel(answer, 3);
}

/// The URL reaches the launcher, and the shell call, unchanged.
pub proof fn law_url_is_passed_through(
    platform: Platform,
    url: Seq<char>,
    launcher: Launcher,
    started: bool,
)
    ensures
        first_step(platform, url) matches OpenStepView::Spawn { url: given, .. } ==> given == url,
        step_after_spawn(launcher, started, url) matches OpenStepView::Spawn { url: given, .. }
            ==> given == url,
        first_step(platform, url) matches OpenStepView::ShellExecute { file, .. } ==> file.len() > 0
            && file.last() == 0 && utf16::from_utf16(file.drop_last()) == url,
{
    utf16::law_wide_text_reads_back(url);
    assert(utf16::utf16(url).push(0).drop_last() =~= utf16::utf16(url));
}

/// What opening starts with: `open` on macOS, `xdg-open` on Linux, and on Windows a shell call that
/// opens the file in an ordinary window. Elsewhere there is no launcher.
pub proof fn law_first_step_of_each_platform(url: Seq<char>)
    ensures
        first_step(Platform::MacOs, url) == (OpenStepView::Spawn { launcher: Launcher::Open, url }),
        first_step(Platform::Linux, url) == (OpenStepView::Spawn {
            launcher: Launcher::XdgOpen,
            url,
        }),
        first_step(Platform::Windows, url) matches OpenStepView::ShellExecute {
            operation,
            file,
            show,
        } && operation == utf16::utf16("open"@).push(0) && file == utf16::utf16(url).push(0) && show
            == 1,
        first_step(Platform::Other, url) == (OpenStepView::Done {
            result: Err(
                OpenErrorView::Unsupported {
                    message: "no known browser launcher for this platform"@,
                },
            ),
        }),
        program_name(Launcher::Open) == "open"@,
        program_name(Launcher::XdgOpen) == "xdg-open"@,
        program_name(Launcher::SensibleBrowser) == "sensible-browser"@,
{
}

/// A launcher that started has opened the URL. Of those that did not, `xdg-open` alone is followed
/// by another launcher, with the same URL, and the others by the launch error.
pub proof fn law_step_behind_a_launch(launcher: Launcher, url: Seq<char>)
    ensures
        step_after_spawn(launcher, true, url) == (OpenStepView::Done { result: Ok(()) }),
        step_after_spawn(Launcher::XdgOpen, false, url) == (OpenStepView::Spawn {
            launcher: Launcher::SensibleBrowser,
            url,
        }),
        launcher != Launcher::XdgOpen ==> step_after_spawn(launcher, false, url) == (
        OpenStepView::Done { result: Err(OpenErrorView::Launch) }),
{
}

/// A shell call has opened the URL where it returned more than 32; otherwise the error names what it
/// returned.
pub proof fn law_step_behind_a_shell_call(code: int)
    ensures
        code > 32 ==> step_after_shell_execute(code) == (OpenStepView::Done { result: Ok(()) }),
        code <= 32 ==> step_after_shell_execute(code) == (OpenStepView::Done {
            result: Err(
                OpenErrorView::Shell {
                    message: "ShellExecuteW failed (code "@ + text::signed_decimal(code) + ")"@,
                },
            ),
        }),
{
}

/// The models of steps and errors show every field as it is.
pub proof fn law_views_show_every_field(step: OpenStep, error: OpenError)
    ensures
        match error {
            OpenError::Launch => error@ == OpenErrorView::Launch,
            OpenError::Shell { message } => error@ == (OpenErrorView::Shell { message: message@ }),
            OpenError::Unsupported { message } => error@ == (OpenErrorView::Unsupported {
                message: message@,
            }),
        },
        match step {
            OpenStep::Spawn { launcher, url } => step@ == (OpenStepView::Spawn {
                launcher,
                url: url@,
            }),
            OpenStep::ShellExecute { operation, file, show } => step@ == (
            OpenStepView::ShellExecute { operation: operation@, file: file@, show }),
            OpenStep::Done { result: Ok(_) } => step@ == (OpenStepView::Done { result: Ok(()) }),
            OpenStep::Done { result: Err(e) } => step@ == (OpenStepView::Done { result: Err(e@) }),
        },
{
}

impl Launcher {
    /// The name of the program.
    pub fn program(&self) -> (r: &'static str)
        ensures
            r@ == program_name(*self),
    {
        match self {
            Launcher::Open => "open",
            Launcher::XdgOpen => "xdg-open",
            Launcher::SensibleBrowser => "sensible-browser",
        }
    }
}

/// Opens `url` in the default browser: the step to start with.
pub fn open_url(platform: Platform, url: &str) -> (r: OpenStep)
    ensures
        r@ == first_step(platform, url@),
{
    match platform {
        Platform::MacOs => OpenStep::Spawn { launcher: Launcher::Open, url: url.to_owned() },
        Platform::Linux => OpenStep::Spawn { launcher: Launcher::XdgOpen, url: url.to_owned() },
        // `cmd /C start` reparses `&`/`%xx`; `explorer.exe` rejects query-string URLs.
        // ShellExecuteW passes the URL through intact.
        Platform::Windows => OpenStep::ShellExecute {
            operation: utf16::wide("open"),
            file: utf16::wide(url),
            show: SW_SHOWNORMAL,
        },
        Platform::Other => OpenStep::Done {
            result: Err(
                OpenError::Unsupported {
                    message: "no known browser launcher for this platform".to_owned(),
                },
            ),
        },
    }
}

/// The step behind an attempt to start `launcher` for `url`.
pub fn after_spawn(launcher: Launcher, started: bool, url: &str) -> (r: OpenStep)
    ensures
        r@ == step_after_spawn(launcher, started, url@),
{
    if started {
        OpenStep::Done { result: Ok(()) }
    } else {
        match launcher {
            Launcher::XdgOpen => OpenStep::Spawn {
                launcher: Launcher::SensibleBrowser,
                url: url.to_owned(),
            },
            _ => OpenStep::Done { result: Err(OpenError::Launch) },
        }
    }
}

/// The step behind a `ShellExecuteW` call that returned `code`.
pub fn after_shell_execute(code: isize) -> (r: OpenStep)
    ensures
        r@ == step_after_shell_execute(code as int),
{
    if code > SHELL_ERROR_MAX {
        OpenStep::Done { result: Ok(()) }
    } else {
        let mut message: String = "ShellExecuteW failed (code ".to_owned();
        let number = text::decimal_text(code as i64);
        message.append(number.as_str());
        message.append(")");
        OpenStep::Done { result: Err(OpenError::Shell { message }) }
    }
}

} // verus!
