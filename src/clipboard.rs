//! The clipboard bridge and the file-manager launcher: which helper
//! programs put an image on the clipboard, or show a directory, on each
//! platform.
use vstd::prelude::*;
use crate::action::LaunchCommand;
use crate::config::{join_path, join_path_text, Platform};

verus! {

/// How an image is put on the clipboard: the file the bytes are first
/// written to, if any, then the helpers to try in order until one succeeds.
pub struct ClipboardPlan {
    pub staging_file: Option<String>,
    pub attempts: Vec<LaunchCommand>,
    /// The bytes are piped to each helper's standard input.
    pub pipe_bytes: bool,
    /// A helper that exits with a failure status counts as failed.
    pub check_status: bool,
}

/// The fixed file through which the clipboard receives an image where the
/// helper reads a file.
pub open spec fn clipboard_file(platform: Platform, temp_dir: Seq<char>) -> Seq<char> {
    join_path(platform, temp_dir, "markpix_clipboard.png"@)
}

pub open spec fn views(v: Seq<String>) -> Seq<Seq<char>> {
    v.map_values(|a: String| a@)
}

/// The helpers, each a program and its arguments, for `platform`.
pub open spec fn clipboard_helpers(platform: Platform, file: Seq<char>) -> Seq<
    (Seq<char>, Seq<Seq<char>>),
> {
    match platform {
        Platform::Linux => seq![
            ("wl-copy"@, seq!["--type"@, "image/png"@]),
            ("xclip"@, seq!["-selection"@, "clipboard"@, "-t"@, "image/png"@]),
        ],
        Platform::MacOs => seq![
            (
                "osascript"@,
                seq![
                    "-e"@,
                    "set the clipboard to (read (POSIX file \""@ + file
                        + "\") as «class PNGf»)"@,
                ],
            ),
        ],
        Platform::Windows => seq![
            ("powershell"@, seq!["-Command"@, "Set-Clipboard -Path '"@ + file + "'"@]),
        ],
        Platform::Other => Seq::empty(),
    }
}

/// What to do next while putting an image on the clipboard.
#[derive(Clone, Copy, Debug, PartialEq, Eq, Structural)]
pub enum ClipboardNext {
    /// The image is on the clipboard (or the platform offers no helper).
    Done,
    /// Run the helper at this position of the plan.
    Try(usize),
    /// Every helper failed.
    Fail,
}

impl ClipboardPlan {
    pub open spec fn helpers(&self) -> Seq<(Seq<char>, Seq<Seq<char>>)> {
        self.attempts@.map_values(|c: LaunchCommand| (c.program@, views(c.args@)))
    }

    /// The first step: the first helper, if there is one.
    pub fn first_step(&self) -> (r: ClipboardNext)
        ensures
            self.attempts@.len() == 0 ==> r == ClipboardNext::Done,
            self.attempts@.len() > 0 ==> r == ClipboardNext::Try(0),
    {
        if self.attempts.len() == 0 {
            ClipboardNext::Done
        } else {
            ClipboardNext::Try(0)
        }
    }

    /// The step after helper `attempt` ran: done when it succeeded, else
    /// the next helper in order, else failure.
    pub fn after_attempt(&self, attempt: usize, succeeded: bool) -> (r: ClipboardNext)
        requires
            attempt < self.attempts@.len(),
        ensures
            succeeded ==> r == ClipboardNext::Done,
            !succeeded && attempt + 1 < self.attempts@.len() ==> r == ClipboardNext::Try(
                (attempt + 1) as usize,
            ),
            !succeeded && attempt + 1 == self.attempts@.len() ==> r == ClipboardNext::Fail,
    {
        if succeeded {
            ClipboardNext::Done
        } else if attempt < self.attempts.len() - 1 {
            ClipboardNext::Try(attempt + 1)
        } else {
            ClipboardNext::Fail
        }
    }
}

fn command_of(program: &str, args: Vec<String>) -> (r: LaunchCommand)
    ensures
        r.program@ == program@,
        r.args == args,
{
    LaunchCommand { program: String::from_str(program), args }
}

/// The clipboard plan for `platform`, with files kept under `temp_dir`.
/// Linux pipes the bytes to the Wayland helper, then to the X11 one; macOS
/// and Windows write them to a fixed file that a scripting helper reads.
pub fn clipboard_plan(platform: Platform, temp_dir: &str) -> (r: ClipboardPlan)
    ensures
        r.helpers() == clipboard_helpers(platform, clipboard_file(platform, temp_dir@)),
        r.pipe_bytes == (platform == Platform::Linux),
        r.check_status == (platform == Platform::Linux),
        match platform {
            Platform::MacOs | Platform::Windows => r.staging_file matches Some(f) && f@
                == clipboard_file(platform, temp_dir@),
            _ => r.staging_file is None,
        },
{
    let file = join_path_text(platform, temp_dir, "markpix_clipboard.png");
    match platform {
        Platform::Linux => {
            let wl = command_of(
                "wl-copy",
                vec![String::from_str("--type"), String::from_str("image/png")],
            );
            let x = command_of(
                "xclip",
                vec![
                    String::from_str("-selection"),
                    String::from_str("clipboard"),
                    String::from_str("-t"),
                    String::from_str("image/png"),
                ],
            );
            let r = ClipboardPlan {
                staging_file: None,
                attempts: vec![wl, x],
                pipe_bytes: true,
                check_status: true,
            };
            assert(views(r.attempts@[0].args@) =~= seq!["--type"@, "image/png"@]);
            assert(views(r.attempts@[1].args@) =~= seq![
                "-selection"@,
                "clipboard"@,
                "-t"@,
                "image/png"@,
            ]);
            assert(r.helpers() =~= clipboard_helpers(platform, clipboard_file(platform, temp_dir@)));
            r
        },
        Platform::MacOs => {
            let mut script = String::from_str("set the clipboard to (read (POSIX file \"");
            script.append(file.as_str());
            script.append("\") as «class PNGf»)");
            let c = command_of("osascript", vec![String::from_str("-e"), script]);
            let r = ClipboardPlan {
                staging_file: Some(file),
                attempts: vec![c],
                pipe_bytes: false,
                check_status: false,
            };
            assert(views(r.attempts@[0].args@) =~= clipboard_helpers(
                platform,
                clipboard_file(platform, temp_dir@),
            )[0].1);
            assert(r.helpers() =~= clipboard_helpers(platform, clipboard_file(platform, temp_dir@)));
            r
        },
        Platform::Windows => {
            let mut script = String::from_str("Set-Clipboard -Path '");
            script.append(file.as_str());
            script.append("'");
            let c = command_of("powershell", vec![String::from_str("-Command"), script]);
            let r = ClipboardPlan {
                staging_file: Some(file),
                attempts: vec![c],
                pipe_bytes: false,
                check_status: false,
            };
            assert(views(r.attempts@[0].args@) =~= clipboard_helpers(
                platform,
                clipboard_file(platform, temp_dir@),
            )[0].1);
            assert(r.helpers() =~= clipboard_helpers(platform, clipboard_file(platform, temp_dir@)));
            r
        },
        Platform::Other => {
            let r = ClipboardPlan {
                staging_file: None,
                attempts: Vec::new(),
                pipe_bytes: false,
                check_status: false,
            };
            assert(r.helpers() =~= clipboard_helpers(platform, clipboard_file(platform, temp_dir@)));
            r
        },
    }
}

/// The program that shows a directory in the file manager of `platform`.
pub open spec fn file_manager(platform: Platform) -> Option<Seq<char>> {
    match platform {
        Platform::Linux => Some("xdg-open"@),
        Platform::MacOs => Some("open"@),
        Platform::Windows => Some("explorer"@),
        Platform::Other => None,
    }
}

/// How `path` is shown in the platform's file manager; nothing is launched
/// where the platform has none.
pub fn open_directory_command(platform: Platform, path: &str) -> (r: Option<LaunchCommand>)
    ensures
        match file_manager(platform) {
            Some(p) => r matches Some(c) && c.program@ == p && views(c.args@) == seq![path@],
            None => r is None,
        },
{
    let program = match platform {
        Platform::Linux => "xdg-open",
        Platform::MacOs => "open",
        Platform::Windows => "explorer",
        Platform::Other => {
            return None;
        },
    };
    let c = command_of(program, vec![String::from_str(path)]);
    assert(views(c.args@) =~= seq![path@]);
    Some(c)
}

} // verus!
