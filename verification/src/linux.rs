use vstd::prelude::*;

use crate::command::WineEnv;
use crate::text::{concat_text, contains, contains_text, joined, join_path};

verus! {

/// `/etc/os-release` names SteamOS as the system: it holds `ID=steamos` or
/// `ID="steamos"`.
pub open spec fn os_release_names_steamos(content: Seq<char>) -> bool {
    contains_text(content, "ID=steamos"@) || contains_text(content, "ID=\"steamos\""@)
}

/// Whether the text of `/etc/os-release` names SteamOS as the system.
pub fn os_release_says_steamos(content: &str) -> (r: bool)
    ensures
        r == os_release_names_steamos(content@),
{
    contains(content, "ID=steamos") || contains(content, "ID=\"steamos\"")
}

/// The system is SteamOS when `/etc/os-release` (where it could be read)
/// says so, or else when the `steamos-readonly` tool is found.
pub open spec fn steamos_detected(os_release: Option<Seq<char>>, tool_found: bool) -> bool {
    match os_release {
        Some(c) => os_release_names_steamos(c) || tool_found,
        None => tool_found,
    }
}

/// Whether the system is SteamOS, from the text of `/etc/os-release` (where
/// it could be read) and whether `which steamos-readonly` succeeded; the tool
/// only needs asking about where the file does not decide.
pub fn is_steamos(os_release: Option<String>, tool_found: bool) -> (r: bool)
    ensures
        r == steamos_detected(
            match os_release {
                Some(c) => Some(c@),
                None => None,
            },
            tool_found,
        ),
{
    match os_release {
        Some(c) => os_release_says_steamos(c.as_str()) || tool_found,
        None => tool_found,
    }
}

/// The value of an environment variable, or `default` where it is unset.
pub open spec fn or_default(value: Option<Seq<char>>, default: Seq<char>) -> Seq<char> {
    match value {
        Some(v) => v,
        None => default,
    }
}

/// An optional text, as text.
pub open spec fn opt_text(v: Option<String>) -> Option<Seq<char>> {
    match v {
        Some(s) => Some(s@),
        None => None,
    }
}

fn text_or(value: Option<String>, default: &str) -> (r: String)
    ensures
        r@ == or_default(opt_text(value), default@),
{
    match value {
        Some(v) => v,
        None => String::from_str(default),
    }
}

/// The environment variables a launch reads.
pub struct HostEnv {
    pub fontconfig_path: Option<String>,
    pub fontconfig_file: Option<String>,
    pub xdg_data_dirs: Option<String>,
    pub wineprefix: Option<String>,
    pub xauthority: Option<String>,
    pub home: Option<String>,
}

/// The settings of the Wine processes: each variable where it is set, else
/// its default; the prefix defaults to `pfx` in the game folder, the X
/// authority file to `.Xauthority` in the home folder (`/tmp` without one).
pub open spec fn resolved_env(host: HostEnv, game_folder: Seq<char>, env: WineEnv) -> bool {
    &&& env.fontconfig_path@ == or_default(opt_text(host.fontconfig_path), "/etc/fonts"@)
    &&& env.fontconfig_file@ == or_default(opt_text(host.fontconfig_file), "/etc/fonts/fonts.conf"@)
    &&& env.xdg_data_dirs@ == or_default(opt_text(host.xdg_data_dirs), "/usr/share:/usr/local/share"@)
    &&& env.wineprefix@ == or_default(opt_text(host.wineprefix), joined(game_folder, "pfx"@))
    &&& env.xauthority@ == or_default(
        opt_text(host.xauthority),
        or_default(opt_text(host.home), "/tmp"@) + "/.Xauthority"@,
    )
}

/// The settings of the Wine processes of a launch in `game_folder`.
pub fn resolve_env(host: HostEnv, game_folder: &str) -> (r: WineEnv)
    ensures
        resolved_env(host, game_folder@, r),
{
    let ghost h = host;
    let HostEnv { fontconfig_path, fontconfig_file, xdg_data_dirs, wineprefix, xauthority, home } = host;
    let wineprefix = match wineprefix {
        Some(p) => p,
        None => join_path(game_folder, "pfx"),
    };
    let xauthority = match xauthority {
        Some(x) => x,
        None => {
            let home = text_or(home, "/tmp");
            concat_text(home.as_str(), "/.Xauthority")
        },
    };
    WineEnv {
        fontconfig_path: text_or(fontconfig_path, "/etc/fonts"),
        fontconfig_file: text_or(fontconfig_file, "/etc/fonts/fonts.conf"),
        xdg_data_dirs: text_or(xdg_data_dirs, "/usr/share:/usr/local/share"),
        wineprefix,
        xauthority,
    }
}

/// The log file: `mhfz-launcher.log` in the home folder, or in `/tmp`
/// without one.
pub open spec fn log_path_for(home: Option<Seq<char>>) -> Seq<char> {
    or_default(home, "/tmp"@) + "/mhfz-launcher.log"@
}

/// The log file: `mhfz-launcher.log` in the home folder, or in `/tmp`
/// without one.
pub fn log_file_path(home: Option<String>) -> (r: String)
    ensures
        r@ == log_path_for(opt_text(home)),
{
    let base = text_or(home, "/tmp");
    concat_text(base.as_str(), "/mhfz-launcher.log")
}

/// One line of the log: the time stamp in brackets, a space, the message.
pub fn log_line(timestamp: &str, message: &str) -> (r: String)
    ensures
        r@ == "["@ + timestamp@ + "] "@ + message@,
{
    let mut s = String::from_str("[");
    s.append(timestamp);
    s.append("] ");
    s.append(message);
    s
}

/// Every variable the host sets is used as set; a default applies only to a
/// variable the host leaves unset. The X authority file defaults to
/// `.Xauthority` in the home folder (or in `/tmp`), the prefix to `pfx` in the
/// game folder.
pub proof fn law_host_values_win(host: HostEnv, game_folder: Seq<char>, env: WineEnv)
    requires
        resolved_env(host, game_folder, env),
    ensures
        host.fontconfig_path matches Some(v) ==> env.fontconfig_path@ == v@,
        host.fontconfig_file matches Some(v) ==> env.fontconfig_file@ == v@,
        host.xdg_data_dirs matches Some(v) ==> env.xdg_data_dirs@ == v@,
        host.wineprefix matches Some(v) ==> env.wineprefix@ == v@,
        host.xauthority matches Some(v) ==> env.xauthority@ == v@,
        host.xauthority is None ==> (host.home matches Some(h) ==> env.xauthority@ == h@ + "/.Xauthority"@),
        host.xauthority is None && host.home is None ==> env.xauthority@ == "/tmp/.Xauthority"@,
        host.wineprefix is None ==> env.wineprefix@ == joined(game_folder, "pfx"@),
        host.fontconfig_path is None ==> env.fontconfig_path@ == "/etc/fonts"@,
        host.fontconfig_file is None ==> env.fontconfig_file@ == "/etc/fonts/fonts.conf"@,
        host.xdg_data_dirs is None ==> env.xdg_data_dirs@ == "/usr/share:/usr/local/share"@,
{
    reveal_strlit("/tmp");
    reveal_strlit("/.Xauthority");
    reveal_strlit("/tmp/.Xauthority");
    assert("/tmp"@ + "/.Xauthority"@ =~= "/tmp/.Xauthority"@);
}

} // verus!
