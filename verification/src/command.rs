use vstd::prelude::*;

use crate::text::concat_text;

verus! {

/// A list of texts, each by its characters.
pub open spec fn texts(v: Seq<String>) -> Seq<Seq<char>> {
    v.map_values(|s: String| s@)
}

/// A list of environment variables, each name and value by its characters.
pub open spec fn env_texts(v: Seq<(String, String)>) -> Seq<(Seq<char>, Seq<char>)> {
    v.map_values(|p: (String, String)| (p.0@, p.1@))
}

/// What a command is, as text.
pub struct CommandView {
    pub program: Seq<char>,
    pub args: Seq<Seq<char>>,
    pub envs: Seq<(Seq<char>, Seq<char>)>,
    pub current_dir: Option<Seq<char>>,
}

/// A process to start: its program, its arguments in order, the environment
/// variables set on top of the inherited ones (in order), and the directory
/// it runs in, where one is given. Its standard input is closed.
#[derive(Debug)]
pub struct CommandSpec {
    pub program: String,
    pub args: Vec<String>,
    pub envs: Vec<(String, String)>,
    pub current_dir: Option<String>,
}

impl View for CommandSpec {
    type V = CommandView;

    open spec fn view(&self) -> CommandView {
        CommandView {
            program: self.program@,
            args: texts(self.args@),
            envs: env_texts(self.envs@),
            current_dir: match self.current_dir {
                Some(d) => Some(d@),
                None => None,
            },
        }
    }
}

fn push_text(v: &mut Vec<String>, s: String)
    ensures
        texts(final(v)@) == texts(old(v)@).push(s@),
{
    v.push(s);
    assert(texts(final(v)@) =~= texts(old(v)@).push(s@));
}

fn push_env(v: &mut Vec<(String, String)>, name: String, value: String)
    ensures
        env_texts(final(v)@) == env_texts(old(v)@).push((name@, value@)),
{
    v.push((name, value));
    assert(env_texts(final(v)@) =~= env_texts(old(v)@).push((name@, value@)));
}

fn lit(s: &str) -> (r: String)
    ensures
        r@ == s@,
{
    String::from_str(s)
}

/// The Flatpak application that provides Wine.
pub open spec fn wine_app() -> Seq<char> {
    "org.winehq.Wine"@
}

/// The program and leading arguments through which Wine is run: the Wine
/// Flatpak on SteamOS, the system `wine` elsewhere.
pub open spec fn wine_command(steamos: bool) -> (Seq<char>, Seq<Seq<char>>) {
    if steamos {
        ("flatpak"@, seq!["run"@, wine_app()])
    } else {
        ("wine"@, Seq::empty())
    }
}

/// The program and leading arguments through which Wine is run: the Wine
/// Flatpak on SteamOS, the system `wine` elsewhere.
pub fn get_wine_command(steamos: bool) -> (r: (String, Vec<String>))
    ensures
        (r.0@, texts(r.1@)) == wine_command(steamos),
{
    let mut args: Vec<String> = Vec::new();
    if steamos {
        push_text(&mut args, lit("run"));
        push_text(&mut args, lit("org.winehq.Wine"));
        assert(texts(args@) =~= seq!["run"@, wine_app()]);
        (lit("flatpak"), args)
    } else {
        assert(texts(args@) =~= Seq::<Seq<char>>::empty());
        (lit("wine"), args)
    }
}

/// The settings that every Wine process of a launch receives.
#[derive(Debug)]
pub struct WineEnv {
    pub fontconfig_path: String,
    pub fontconfig_file: String,
    pub xdg_data_dirs: String,
    pub wineprefix: String,
    pub xauthority: String,
}

/// The font settings passed to Wine processes: `FONTCONFIG_PATH`,
/// `FONTCONFIG_FILE` and `XDG_DATA_DIRS`, in this order.
pub open spec fn font_envs(env: WineEnv) -> Seq<(Seq<char>, Seq<char>)> {
    seq![
        ("FONTCONFIG_PATH"@, env.fontconfig_path@),
        ("FONTCONFIG_FILE"@, env.fontconfig_file@),
        ("XDG_DATA_DIRS"@, env.xdg_data_dirs@),
    ]
}

fn push_font_envs(v: &mut Vec<(String, String)>, env: &WineEnv)
    ensures
        env_texts(final(v)@) == env_texts(old(v)@) + font_envs(*env),
{
    push_env(v, lit("FONTCONFIG_PATH"), env.fontconfig_path.clone());
    push_env(v, lit("FONTCONFIG_FILE"), env.fontconfig_file.clone());
    push_env(v, lit("XDG_DATA_DIRS"), env.xdg_data_dirs.clone());
    assert(env_texts(final(v)@) =~= env_texts(old(v)@) + font_envs(*env));
}

/// The command that initialises the Wine prefix.
pub open spec fn wineboot_view(steamos: bool, env: WineEnv) -> CommandView {
    if steamos {
        CommandView {
            program: "flatpak"@,
            args: seq![
                "run"@,
                "--env=WINEPREFIX="@ + env.wineprefix@,
                "--env=WINEDEBUG=-all"@,
                "--env=WINEDLLOVERRIDES=winemenubuilder.exe=d"@,
                "--command=wineboot"@,
                wine_app(),
                "--init"@,
            ],
            envs: font_envs(env) + seq![
                ("WINEDLLOVERRIDES"@, "winemenubuilder.exe=d"@),
                ("WINEDEBUG"@, "-all"@),
            ],
            current_dir: None,
        }
    } else {
        CommandView {
            program: "wineboot"@,
            args: seq!["--init"@],
            envs: seq![("WINEPREFIX"@, env.wineprefix@)] + font_envs(env) + seq![
                ("WINEDLLOVERRIDES"@, "winemenubuilder.exe=d"@),
                ("WINEDEBUG"@, "-all"@),
            ],
            current_dir: None,
        }
    }
}

/// The command that initialises the Wine prefix (`wineboot --init`).
pub fn wineboot_command(steamos: bool, env: &WineEnv) -> (r: CommandSpec)
    ensures
        r@ == wineboot_view(steamos, *env),
{
    let mut args: Vec<String> = Vec::new();
    let mut envs: Vec<(String, String)> = Vec::new();
    if steamos {
        push_text(&mut args, lit("run"));
        push_text(&mut args, concat_text("--env=WINEPREFIX=", env.wineprefix.as_str()));
        push_text(&mut args, lit("--env=WINEDEBUG=-all"));
        push_text(&mut args, lit("--env=WINEDLLOVERRIDES=winemenubuilder.exe=d"));
        push_text(&mut args, lit("--command=wineboot"));
        push_text(&mut args, lit("org.winehq.Wine"));
        push_text(&mut args, lit("--init"));
        push_font_envs(&mut envs, env);
        push_env(&mut envs, lit("WINEDLLOVERRIDES"), lit("winemenubuilder.exe=d"));
        push_env(&mut envs, lit("WINEDEBUG"), lit("-all"));
        let r = CommandSpec { program: lit("flatpak"), args, envs, current_dir: None };
        assert(r@.args =~= wineboot_view(steamos, *env).args);
        assert(r@.envs =~= wineboot_view(steamos, *env).envs);
        r
    } else {
        push_text(&mut args, lit("--init"));
        push_env(&mut envs, lit("WINEPREFIX"), env.wineprefix.clone());
        push_font_envs(&mut envs, env);
        push_env(&mut envs, lit("WINEDLLOVERRIDES"), lit("winemenubuilder.exe=d"));
        push_env(&mut envs, lit("WINEDEBUG"), lit("-all"));
        let r = CommandSpec { program: lit("wineboot"), args, envs, current_dir: None };
        assert(r@.args =~= wineboot_view(steamos, *env).args);
        assert(r@.envs =~= wineboot_view(steamos, *env).envs);
        r
    }
}

/// The command that lets the Wine Flatpak reach the game folder.
pub open spec fn flatpak_override_view(game_path: Seq<char>) -> CommandView {
    CommandView {
        program: "flatpak"@,
        args: seq!["override"@, "--user"@, "--filesystem="@ + game_path, wine_app()],
        envs: Seq::empty(),
        current_dir: None,
    }
}

/// The command that lets the Wine Flatpak reach the game folder
/// (`flatpak override --user --filesystem=<folder> org.winehq.Wine`).
pub fn flatpak_override_command(game_path: &str) -> (r: CommandSpec)
    ensures
        r@ == flatpak_override_view(game_path@),
{
    let mut args: Vec<String> = Vec::new();
    push_text(&mut args, lit("override"));
    push_text(&mut args, lit("--user"));
    push_text(&mut args, concat_text("--filesystem=", game_path));
    push_text(&mut args, lit("org.winehq.Wine"));
    let envs: Vec<(String, String)> = Vec::new();
    let r = CommandSpec { program: lit("flatpak"), args, envs, current_dir: None };
    assert(r@.args =~= flatpak_override_view(game_path@).args);
    assert(r@.envs =~= flatpak_override_view(game_path@).envs);
    r
}

/// The registry key under which Windows lists its fonts.
pub open spec fn fonts_key() -> Seq<char> {
    "HKLM\\Software\\Microsoft\\Windows NT\\CurrentVersion\\Fonts"@
}

/// The command that registers one font file in the Wine registry. On
/// SteamOS the Flatpak options (the prefix and the command to run) stand
/// between `run` and the application name, as Flatpak reads them there.
pub open spec fn font_registration_view(
    steamos: bool,
    wineprefix: Seq<char>,
    font_name: Seq<char>,
    font_file: Seq<char>,
) -> CommandView {
    CommandView {
        program: wine_command(steamos).0,
        args: (if steamos {
            seq!["run"@, "--env=WINEPREFIX="@ + wineprefix, "--command=wine"@, wine_app()]
        } else {
            Seq::empty()
        }) + seq![
            "reg"@,
            "add"@,
            fonts_key(),
            "/v"@,
            font_name,
            "/t"@,
            "REG_SZ"@,
            "/d"@,
            font_file,
            "/f"@,
        ],
        envs: seq![("WINEPREFIX"@, wineprefix), ("WINEDEBUG"@, "-all"@)],
        current_dir: None,
    }
}

/// The command that registers one font file in the Wine registry
/// (`wine reg add ...\Fonts /v <name> /t REG_SZ /d <file> /f`, or on SteamOS
/// `flatpak run --env=WINEPREFIX=<prefix> --command=wine org.winehq.Wine reg add ...`).
pub fn font_registration_command(steamos: bool, wineprefix: &str, font_name: &str, font_file: &str) -> (r:
    CommandSpec)
    ensures
        r@ == font_registration_view(steamos, wineprefix@, font_name@, font_file@),
{
    let (program, _) = get_wine_command(steamos);
    let mut args: Vec<String> = Vec::new();
    if steamos {
        push_text(&mut args, lit("run"));
        push_text(&mut args, concat_text("--env=WINEPREFIX=", wineprefix));
        push_text(&mut args, lit("--command=wine"));
        push_text(&mut args, lit("org.winehq.Wine"));
    }
    let ghost mid = texts(args@);
    assert(mid =~= (if steamos {
        seq!["run"@, "--env=WINEPREFIX="@ + wineprefix@, "--command=wine"@, wine_app()]
    } else {
        Seq::empty()
    }));
    push_text(&mut args, lit("reg"));
    push_text(&mut args, lit("add"));
    push_text(&mut args, lit("HKLM\\Software\\Microsoft\\Windows NT\\CurrentVersion\\Fonts"));
    push_text(&mut args, lit("/v"));
    push_text(&mut args, lit(font_name));
    push_text(&mut args, lit("/t"));
    push_text(&mut args, lit("REG_SZ"));
    push_text(&mut args, lit("/d"));
    push_text(&mut args, lit(font_file));
    push_text(&mut args, lit("/f"));
    let mut envs: Vec<(String, String)> = Vec::new();
    push_env(&mut envs, lit("WINEPREFIX"), lit(wineprefix));
    push_env(&mut envs, lit("WINEDEBUG"), lit("-all"));
    let r = CommandSpec { program, args, envs, current_dir: None };
    assert(r@.args =~= font_registration_view(steamos, wineprefix@, font_name@, font_file@).args);
    assert(r@.envs =~= font_registration_view(steamos, wineprefix@, font_name@, font_file@).envs);
    r
}

/// The command that starts the Wine server and waits for it (`wineserver -w`).
pub open spec fn wineserver_view(steamos: bool, env: WineEnv) -> CommandView {
    CommandView {
        program: if steamos {
            "flatpak"@
        } else {
            "wineserver"@
        },
        args: if steamos {
            seq!["run"@, wine_app(), "wineserver"@, "-w"@]
        } else {
            seq!["-w"@]
        },
        envs: seq![("WINEPREFIX"@, env.wineprefix@)] + font_envs(env) + seq![("WINEDEBUG"@, "-all"@)],
        current_dir: None,
    }
}

/// The command that starts the Wine server and waits for it (`wineserver -w`).
pub fn wineserver_command(steamos: bool, env: &WineEnv) -> (r: CommandSpec)
    ensures
        r@ == wineserver_view(steamos, *env),
{
    let mut args: Vec<String> = Vec::new();
    let program = if steamos {
        let (p, a) = get_wine_command(true);
        args = a;
        push_text(&mut args, lit("wineserver"));
        p
    } else {
        lit("wineserver")
    };
    push_text(&mut args, lit("-w"));
    let mut envs: Vec<(String, String)> = Vec::new();
    push_env(&mut envs, lit("WINEPREFIX"), env.wineprefix.clone());
    push_font_envs(&mut envs, env);
    push_env(&mut envs, lit("WINEDEBUG"), lit("-all"));
    let r = CommandSpec { program, args, envs, current_dir: None };
    assert(r@.args =~= wineserver_view(steamos, *env).args);
    assert(r@.envs =~= wineserver_view(steamos, *env).envs);
    r
}

/// The command that starts the game in a session of its own: on SteamOS
/// through the Wine Flatpak, with the prefix passed by `--env` before the
/// application name; elsewhere through `wine`, with the prefix in the
/// environment. It runs in the game folder.
pub open spec fn game_view(steamos: bool, env: WineEnv, exe: Seq<char>, game_folder: Seq<char>) -> CommandView {
    CommandView {
        program: "setsid"@,
        args: if steamos {
            seq!["flatpak"@, "run"@, "--env=WINEPREFIX="@ + env.wineprefix@, wine_app(), exe]
        } else {
            seq!["wine"@, exe]
        },
        envs: (if steamos {
            Seq::empty()
        } else {
            seq![("WINEPREFIX"@, env.wineprefix@)]
        }) + seq![("WINEDEBUG"@, "-all"@)] + font_envs(env) + seq![("XAUTHORITY"@, env.xauthority@)],
        current_dir: Some(game_folder),
    }
}

/// The command that starts the game (`setsid <wine> ... <exe>`).
pub fn game_command(steamos: bool, env: &WineEnv, exe: &str, game_folder: &str) -> (r: CommandSpec)
    ensures
        r@ == game_view(steamos, *env, exe@, game_folder@),
{
    let (wine, wine_args) = get_wine_command(steamos);
    let mut args: Vec<String> = Vec::new();
    push_text(&mut args, wine);
    let mut envs: Vec<(String, String)> = Vec::new();
    if steamos {
        push_text(&mut args, lit("run"));
        push_text(&mut args, concat_text("--env=WINEPREFIX=", env.wineprefix.as_str()));
        push_text(&mut args, lit("org.winehq.Wine"));
        push_text(&mut args, lit(exe));
    } else {
        assert(wine_args@.len() == 0) by {
            assert(texts(wine_args@).len() == 0);
        }
        push_text(&mut args, lit(exe));
        push_env(&mut envs, lit("WINEPREFIX"), env.wineprefix.clone());
    }
    push_env(&mut envs, lit("WINEDEBUG"), lit("-all"));
    push_font_envs(&mut envs, env);
    push_env(&mut envs, lit("XAUTHORITY"), env.xauthority.clone());
    let r = CommandSpec { program: lit("setsid"), args, envs, current_dir: Some(lit(game_folder)) };
    assert(r@.args =~= game_view(steamos, *env, exe@, game_folder@).args);
    assert(r@.envs =~= game_view(steamos, *env, exe@, game_folder@).envs);
    r
}

/// For every system, the registration command ends with
/// `/v <font name> /t REG_SZ /d <font file> /f`: the font is registered under
/// the name passed in, pointing at the file passed in; before that come
/// `reg add` and the fonts key; the prefix is passed in the environment.
pub proof fn law_registration_names_font_and_file(
    steamos: bool,
    wineprefix: Seq<char>,
    font_name: Seq<char>,
    font_file: Seq<char>,
)
    ensures
        ({
            let c = font_registration_view(steamos, wineprefix, font_name, font_file);
            let n = c.args.len();
            &&& n >= 10
            &&& c.args[n - 10] == "reg"@
            &&& c.args[n - 9] == "add"@
            &&& c.args[n - 8] == fonts_key()
            &&& c.args[n - 7] == "/v"@
            &&& c.args[n - 6] == font_name
            &&& c.args[n - 5] == "/t"@
            &&& c.args[n - 4] == "REG_SZ"@
            &&& c.args[n - 3] == "/d"@
            &&& c.args[n - 2] == font_file
            &&& c.args[n - 1] == "/f"@
            &&& c.envs.contains(("WINEPREFIX"@, wineprefix))
        }),
{
    let c = font_registration_view(steamos, wineprefix, font_name, font_file);
    assert(c.envs[0] == ("WINEPREFIX"@, wineprefix));
}

/// For every system, the game is started by `setsid`, in the game folder,
/// with the executable as its last argument, and with the X authority file
/// and the prefix passed on.
pub proof fn law_game_runs_in_game_folder(steamos: bool, env: WineEnv, exe: Seq<char>, game_folder: Seq<char>)
    ensures
        ({
            let c = game_view(steamos, env, exe, game_folder);
            &&& c.current_dir == Some(game_folder)
            &&& c.program == "setsid"@
            &&& c.args.len() > 0 && c.args.last() == exe
            &&& c.envs.contains(("XAUTHORITY"@, env.xauthority@))
            &&& steamos ==> c.args.contains("--env=WINEPREFIX="@ + env.wineprefix@)
            &&& !steamos ==> c.envs.contains(("WINEPREFIX"@, env.wineprefix@))
        }),
{
    let c = game_view(steamos, env, exe, game_folder);
    let k = c.envs.len() - 1;
    assert(c.envs[k] == ("XAUTHORITY"@, env.xauthority@));
    if steamos {
        assert(c.args[2] == "--env=WINEPREFIX="@ + env.wineprefix@);
    } else {
        assert(c.envs[0] == ("WINEPREFIX"@, env.wineprefix@));
    }
}

} // verus!
