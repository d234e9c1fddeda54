use mhfz_launcher::command::{
    flatpak_override_command, font_registration_command, game_command, get_wine_command,
    wineboot_command, wineserver_command, CommandSpec, WineEnv,
};
use mhfz_launcher::fonts::{
    first_allowed, first_registrable, font_registry_name, is_allowed_font, is_among,
    registry_name_of_lowercase,
};
use mhfz_launcher::linux::{
    is_steamos, log_file_path, log_line, os_release_says_steamos, resolve_env, HostEnv,
};

fn s(v: &str) -> String {
    v.to_string()
}

fn strings(v: &[&str]) -> Vec<String> {
    v.iter().map(|x| x.to_string()).collect()
}

fn env() -> WineEnv {
    WineEnv {
        fontconfig_path: s("/etc/fonts"),
        fontconfig_file: s("/etc/fonts/fonts.conf"),
        xdg_data_dirs: s("/usr/share:/usr/local/share"),
        wineprefix: s("/g/pfx"),
        xauthority: s("/home/deck/.Xauthority"),
    }
}

fn envs(c: &CommandSpec) -> Vec<(String, String)> {
    c.envs.clone()
}

#[test]
fn whitelist_ignores_case() {
    assert!(is_allowed_font("msgothic.ttc"));
    assert!(is_allowed_font("MS Gothic.ttf"));
    assert!(is_allowed_font("MSGOTHIC.TTC"));
    assert!(is_allowed_font("ms gothic.TTF"));
    assert!(!is_allowed_font("msgothic.ttf"));
    assert!(!is_allowed_font("MSGOTHIC.TTF"));
    assert!(!is_allowed_font("msmincho.ttc"));
    assert!(!is_allowed_font("msgothic.otf"));
    assert!(!is_allowed_font(""));
}

#[test]
fn among_compares_exactly() {
    let allowed = strings(&["msgothic.ttc", "ms gothic.ttf"]);
    assert!(is_among(&s("ms gothic.ttf"), &allowed));
    assert!(!is_among(&s("MS Gothic.ttf"), &allowed));
    assert!(!is_among(&s("x"), &vec![]));
}

#[test]
fn registry_names_by_family() {
    let gothic = "MS Gothic & MS PGothic & MS UI Gothic (TrueType)";
    assert_eq!(font_registry_name("MS Gothic.ttf"), Some(s(gothic)));
    assert_eq!(font_registry_name("msgothic.ttc"), Some(s(gothic)));
    assert_eq!(font_registry_name("MSMINCHO.TTC"), Some(s("MS Mincho (TrueType)")));
    assert_eq!(font_registry_name("meiryo.ttc"), Some(s("Meiryo (TrueType)")));
    assert_eq!(font_registry_name("SourceHanSans.otf"), Some(s("Source Han Sans (TrueType)")));
    assert_eq!(font_registry_name("shanghai.ttf"), Some(s("Source Han Sans (TrueType)")));
    assert_eq!(font_registry_name("arial.ttf"), None);
    assert_eq!(registry_name_of_lowercase("Gothic.ttf"), None);
}

#[test]
fn first_allowed_and_registrable_positions() {
    let names = strings(&["readme.txt", "msgothic.ttc", "arial.ttf", "MS Gothic.ttf"]);
    assert_eq!(first_allowed(&names, 0), 1);
    assert_eq!(first_allowed(&names, 2), 3);
    assert_eq!(first_allowed(&names, 4), 4);
    assert_eq!(first_allowed(&names, 9), 4);
    let files = strings(&["arial.ttf", "msgothic.ttc"]);
    assert_eq!(first_registrable(&files, 0), 1);
    assert_eq!(first_registrable(&files, 2), 2);
}

#[test]
fn wine_command_per_system() {
    assert_eq!(get_wine_command(true), (s("flatpak"), strings(&["run", "org.winehq.Wine"])));
    assert_eq!(get_wine_command(false), (s("wine"), vec![]));
}

#[test]
fn wineboot_commands() {
    let c = wineboot_command(true, &env());
    assert_eq!(c.program, "flatpak");
    assert_eq!(
        c.args,
        strings(&[
            "run",
            "--env=WINEPREFIX=/g/pfx",
            "--env=WINEDEBUG=-all",
            "--env=WINEDLLOVERRIDES=winemenubuilder.exe=d",
            "--command=wineboot",
            "org.winehq.Wine",
            "--init",
        ])
    );
    assert_eq!(envs(&c)[3], (s("WINEDLLOVERRIDES"), s("winemenubuilder.exe=d")));
    let c = wineboot_command(false, &env());
    assert_eq!(c.program, "wineboot");
    assert_eq!(c.args, strings(&["--init"]));
    assert_eq!(envs(&c)[0], (s("WINEPREFIX"), s("/g/pfx")));
    assert_eq!(envs(&c).len(), 6);
    assert_eq!(c.current_dir, None);
}

#[test]
fn override_command() {
    let c = flatpak_override_command("/games/mhf");
    assert_eq!(c.program, "flatpak");
    assert_eq!(c.args, strings(&["override", "--user", "--filesystem=/games/mhf", "org.winehq.Wine"]));
    assert!(c.envs.is_empty());
}

#[test]
fn registration_commands() {
    let c = font_registration_command(true, "/g/pfx", "N", "msgothic.ttc");
    assert_eq!(c.program, "flatpak");
    assert_eq!(
        c.args,
        strings(&[
            "run",
            "--env=WINEPREFIX=/g/pfx",
            "--command=wine",
            "org.winehq.Wine",
            "reg",
            "add",
            "HKLM\\Software\\Microsoft\\Windows NT\\CurrentVersion\\Fonts",
            "/v",
            "N",
            "/t",
            "REG_SZ",
            "/d",
            "msgothic.ttc",
            "/f",
        ])
    );
    let c = font_registration_command(false, "/g/pfx", "N", "f.ttf");
    assert_eq!(c.program, "wine");
    assert_eq!(c.args[0], "reg");
    assert_eq!(c.envs, vec![(s("WINEPREFIX"), s("/g/pfx")), (s("WINEDEBUG"), s("-all"))]);
}

#[test]
fn wineserver_commands() {
    let c = wineserver_command(true, &env());
    assert_eq!(c.program, "flatpak");
    assert_eq!(c.args, strings(&["run", "org.winehq.Wine", "wineserver", "-w"]));
    let c = wineserver_command(false, &env());
    assert_eq!(c.program, "wineserver");
    assert_eq!(c.args, strings(&["-w"]));
    assert_eq!(c.envs.len(), 5);
}

#[test]
fn game_commands() {
    let c = game_command(true, &env(), "/g/mhf-iel.exe", "/g");
    assert_eq!(c.program, "setsid");
    assert_eq!(
        c.args,
        strings(&["flatpak", "run", "--env=WINEPREFIX=/g/pfx", "org.winehq.Wine", "/g/mhf-iel.exe"])
    );
    assert_eq!(c.current_dir, Some(s("/g")));
    assert_eq!(c.envs.len(), 5);
    assert_eq!(c.envs[4], (s("XAUTHORITY"), s("/home/deck/.Xauthority")));
    let c = game_command(false, &env(), "/g/mhf-iel.exe", "/g");
    assert_eq!(c.args, strings(&["wine", "/g/mhf-iel.exe"]));
    assert_eq!(c.envs[0], (s("WINEPREFIX"), s("/g/pfx")));
    assert_eq!(c.envs.len(), 6);
}

#[test]
fn steamos_detection() {
    assert!(os_release_says_steamos("NAME=\"SteamOS\"\nID=steamos\n"));
    assert!(os_release_says_steamos("ID=\"steamos\"\n"));
    assert!(!os_release_says_steamos("ID=arch\n"));
    assert!(is_steamos(Some(s("ID=steamos")), false));
    assert!(is_steamos(Some(s("ID=arch")), true));
    assert!(!is_steamos(Some(s("ID=arch")), false));
    assert!(is_steamos(None, true));
    assert!(!is_steamos(None, false));
}

#[test]
fn environment_defaults() {
    let host = HostEnv {
        fontconfig_path: None,
        fontconfig_file: None,
        xdg_data_dirs: None,
        wineprefix: None,
        xauthority: None,
        home: None,
    };
    let e = resolve_env(host, "/g");
    assert_eq!(e.fontconfig_path, "/etc/fonts");
    assert_eq!(e.fontconfig_file, "/etc/fonts/fonts.conf");
    assert_eq!(e.xdg_data_dirs, "/usr/share:/usr/local/share");
    assert_eq!(e.wineprefix, "/g/pfx");
    assert_eq!(e.xauthority, "/tmp/.Xauthority");
    let host = HostEnv {
        fontconfig_path: Some(s("/fc")),
        fontconfig_file: Some(s("/fc/f.conf")),
        xdg_data_dirs: Some(s("/x")),
        wineprefix: Some(s("/w")),
        xauthority: None,
        home: Some(s("/home/deck")),
    };
    let e = resolve_env(host, "/g");
    assert_eq!(e.fontconfig_path, "/fc");
    assert_eq!(e.fontconfig_file, "/fc/f.conf");
    assert_eq!(e.xdg_data_dirs, "/x");
    assert_eq!(e.wineprefix, "/w");
    assert_eq!(e.xauthority, "/home/deck/.Xauthority");
}

#[test]
fn log_file_and_lines() {
    assert_eq!(log_file_path(Some(s("/home/deck"))), "/home/deck/mhfz-launcher.log");
    assert_eq!(log_file_path(None), "/tmp/mhfz-launcher.log");
    assert_eq!(log_line("2024-01-02 03:04:05", "hello"), "[2024-01-02 03:04:05] hello");
}
