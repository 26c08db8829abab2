//! Per-platform integration descriptors: each platform's name and the text
//! its startup registration and notifications are built from. Delivering
//! them (files, registry, notifier processes) is the caller's part.

use vstd::prelude::*;
use vstd::string::*;
use crate::config::strings;

verus! {

/// `s` with every double quote preceded by a backslash.
pub open spec fn escape_quotes(s: Seq<char>) -> Seq<char>
    decreases s.len(),
{
    if s.len() == 0 {
        Seq::empty()
    } else {
        escape_quotes(s.drop_last()) + if s.last() == '"' {
            seq!['\\', '"']
        } else {
            seq![s.last()]
        }
    }
}

/// Appends `escape_quotes(s)` to `out`.
fn push_escaped(out: &mut String, s: &str)
    ensures
        final(out)@ == old(out)@ + escape_quotes(s@),
{
    let n = s.unicode_len();
    let mut i: usize = 0;
    while i < n
        invariant
            n == s@.len(),
            i <= n,
            out@ == old(out)@ + escape_quotes(s@.subrange(0, i as int)),
        decreases n - i,
    {
        let c = s.get_char(i);
        if c == '"' {
            out.append("\\\"");
        } else {
            let piece = s.substring_char(i, i + 1);
            assert(piece@ =~= seq![c]);
            out.append(piece);
        }
        proof {
            let pre = s@.subrange(0, i as int);
            let next = s@.subrange(0, i + 1);
            assert(next.drop_last() =~= pre);
            assert(next.last() == c);
            assert(escape_quotes(next) == escape_quotes(pre) + if c == '"' {
                seq!['\\', '"']
            } else {
                seq![c]
            });
            reveal_strlit("\\\"");
            assert("\\\""@ =~= seq!['\\', '"']);
            assert(out@ =~= old(out)@ + escape_quotes(next));
        }
        i = i + 1;
    }
    assert(s@.subrange(0, n as int) =~= s@);
}

/// The AppleScript line that shows a notification.
pub open spec fn notification_script_of(title: Seq<char>, message: Seq<char>) -> Seq<char> {
    "display notification \""@ + escape_quotes(message) + "\" with title \""@ + escape_quotes(title) + "\""@
}

/// First lines of the autostart desktop entry, up to the executable path.
pub const DESKTOP_ENTRY_HEAD: &'static str = "[Desktop Entry]\nName=TunnelForge\nComment=Terminal sharing made simple\nExec=";
/// Lines of the autostart desktop entry after the executable path.
pub const DESKTOP_ENTRY_TAIL: &'static str = "\nIcon=tunnelforge\nType=Application\nCategories=Development;Network;\nStartupNotify=true\nX-GNOME-Autostart-enabled=true\nHidden=false\n";
/// File name of the autostart desktop entry.
pub const DESKTOP_ENTRY_FILE: &'static str = "tunnelforge.desktop";
/// Registry value under which Windows starts the application at login.
pub const STARTUP_VALUE_NAME: &'static str = "TunnelForge";
/// Registry key holding per-user startup entries.
pub const STARTUP_KEY: &'static str = "SOFTWARE\\Microsoft\\Windows\\CurrentVersion\\Run";

/// Linux desktop integration.
#[derive(Clone, Copy, Debug, PartialEq, Eq, Structural)]
pub struct LinuxPlatform;

impl LinuxPlatform {
    pub fn new() -> (r: LinuxPlatform)
        ensures
            r == LinuxPlatform,
    {
        LinuxPlatform
    }

    /// `Linux`.
    pub fn platform_name(&self) -> (r: &'static str)
        ensures
            r@ == "Linux"@,
    {
        "Linux"
    }

    /// The autostart desktop entry that launches `exe_path`.
    pub fn desktop_entry(&self, exe_path: &str) -> (r: String)
        ensures
            r@ == DESKTOP_ENTRY_HEAD@ + exe_path@ + DESKTOP_ENTRY_TAIL@,
    {
        let mut out = String::from_str(DESKTOP_ENTRY_HEAD);
        out.append(exe_path);
        out.append(DESKTOP_ENTRY_TAIL);
        out
    }
}

/// macOS integration.
#[derive(Clone, Copy, Debug, PartialEq, Eq, Structural)]
pub struct MacosPlatform;

impl MacosPlatform {
    pub fn new() -> (r: MacosPlatform)
        ensures
            r == MacosPlatform,
    {
        MacosPlatform
    }

    /// `macOS`.
    pub fn platform_name(&self) -> (r: &'static str)
        ensures
            r@ == "macOS"@,
    {
        "macOS"
    }

    /// The AppleScript line showing `message` under `title`, with double
    /// quotes in both escaped.
    pub fn notification_script(&self, title: &str, message: &str) -> (r: String)
        ensures
            r@ == notification_script_of(title@, message@),
    {
        let mut out = String::from_str("display notification \"");
        push_escaped(&mut out, message);
        out.append("\" with title \"");
        push_escaped(&mut out, title);
        out.append("\"");
        out
    }
}

/// Windows integration.
#[derive(Clone, Copy, Debug, PartialEq, Eq, Structural)]
pub struct WindowsPlatform;

impl WindowsPlatform {
    pub fn new() -> (r: WindowsPlatform)
        ensures
            r == WindowsPlatform,
    {
        WindowsPlatform
    }

    /// `Windows`.
    pub fn platform_name(&self) -> (r: &'static str)
        ensures
            r@ == "Windows"@,
    {
        "Windows"
    }
}

/// Where an installed `tunnelforge` command-line tool is looked for.
pub fn cli_install_paths() -> (r: Vec<String>)
    ensures
        strings(r@) == seq!["/usr/local/bin/tunnelforge"@, "/opt/homebrew/bin/tunnelforge"@],
{
    let mut paths: Vec<String> = Vec::new();
    paths.push(String::from_str("/usr/local/bin/tunnelforge"));
    paths.push(String::from_str("/opt/homebrew/bin/tunnelforge"));
    assert(strings(paths@) =~= seq!["/usr/local/bin/tunnelforge"@, "/opt/homebrew/bin/tunnelforge"@]);
    paths
}

/// User settings of the desktop application.
#[derive(Clone, Copy, Debug, PartialEq, Eq, Structural)]
pub struct AppSettings {
    pub auto_start: bool,
    pub minimize_to_tray: bool,
    pub server_port: u16,
    pub enable_logging: bool,
    pub start_on_boot: bool,
    pub enable_windows_service: bool,
}

/// The port the server listens on unless configured otherwise.
pub const DEFAULT_SERVER_PORT: u16 = 4021;

impl Default for AppSettings {
    /// Minimise to tray, port 4021, everything else off.
    fn default() -> (r: AppSettings)
        ensures
            r == (AppSettings {
                auto_start: false,
                minimize_to_tray: true,
                server_port: DEFAULT_SERVER_PORT,
                enable_logging: false,
                start_on_boot: false,
                enable_windows_service: false,
            }),
    {
        AppSettings {
            auto_start: false,
            minimize_to_tray: true,
            server_port: DEFAULT_SERVER_PORT,
            enable_logging: false,
            start_on_boot: false,
            enable_windows_service: false,
        }
    }
}

} // verus!
