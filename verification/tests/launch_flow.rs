use mhfz_launcher::command::WineEnv;
use mhfz_launcher::launch::{Launch, LaunchAction, LaunchError, LaunchEvent, Phase};

fn s(v: &str) -> String {
    v.to_string()
}

fn env() -> WineEnv {
    WineEnv {
        fontconfig_path: s("/etc/fonts"),
        fontconfig_file: s("/etc/fonts/fonts.conf"),
        xdg_data_dirs: s("/usr/share:/usr/local/share"),
        wineprefix: s("/g/pfx"),
        xauthority: s("/home/deck/.Xauthority"),
    }
}

/// A short description of an action, to compare whole launches.
fn describe(a: &LaunchAction) -> String {
    match a {
        LaunchAction::WriteConfig { path } => format!("write {}", path),
        LaunchAction::CheckExists { path } => format!("exists? {}", path),
        LaunchAction::CreateDirAll { path } => format!("mkdir {}", path),
        LaunchAction::Run { command } => format!("run {} {}", command.program, command.args.join(" ")),
        LaunchAction::Spawn { command } => format!("spawn {} {}", command.program, command.args.join(" ")),
        LaunchAction::Sleep { seconds } => format!("sleep {}", seconds),
        LaunchAction::RemoveFilesIn { dir } => format!("clear {}", dir),
        LaunchAction::ListDir { dir } => format!("list {}", dir),
        LaunchAction::CopyFile { from, to } => format!("copy {} -> {}", from, to),
        LaunchAction::Finish { result } => match result {
            Ok(()) => s("finish ok"),
            Err(e) => format!("finish err {}", e.message()),
        },
    }
}

/// Runs a launch, answering each action with the next event, and returns
/// the actions asked for.
fn drive(steamos: bool, events: Vec<LaunchEvent>) -> (Vec<String>, Launch) {
    let (mut launch, first) = Launch::new(s("/g"), steamos, env());
    let mut seen = vec![describe(&first)];
    for e in events {
        let a = launch.step(e);
        seen.push(describe(&a));
    }
    (seen, launch)
}

const DEST: &str = "/g/pfx/drive_c/windows/Fonts";

#[test]
fn first_launch_on_steamos_installs_two_gothic_fonts() {
    let listing = vec![s("readme.txt"), s("msgothic.ttc"), s("MS Gothic.ttf"), s("msmincho.ttc")];
    let (seen, launch) = drive(
        true,
        vec![
            LaunchEvent::Succeeded,     // config written
            LaunchEvent::Exists(false), // mhf-iel.exe
            LaunchEvent::Exists(true),  // mhf-iel-cli.exe
            LaunchEvent::Exists(false), // prefix
            LaunchEvent::Succeeded,     // mkdir prefix
            LaunchEvent::Succeeded,     // wineboot
            LaunchEvent::Succeeded,     // sleep
            LaunchEvent::Succeeded,     // flatpak override
            LaunchEvent::Exists(true),  // Font
            LaunchEvent::Exists(false), // Fonts dest
            LaunchEvent::Succeeded,     // mkdir dest
            LaunchEvent::Succeeded,     // clear dest
            LaunchEvent::Listed(listing),
            LaunchEvent::Succeeded, // copy msgothic.ttc
            LaunchEvent::Succeeded, // copy MS Gothic.ttf
            LaunchEvent::Succeeded, // register
            LaunchEvent::Succeeded, // register
            LaunchEvent::Succeeded, // wineserver
            LaunchEvent::Succeeded, // sleep
            LaunchEvent::Succeeded, // game spawned
        ],
    );
    let gothic = "MS Gothic & MS PGothic & MS UI Gothic (TrueType)";
    let reg = |file: &str| {
        format!(
            "run flatpak run --env=WINEPREFIX=/g/pfx --command=wine org.winehq.Wine reg add HKLM\\Software\\Microsoft\\Windows NT\\CurrentVersion\\Fonts /v {} /t REG_SZ /d {} /f",
            gothic, file
        )
    };
    let expected = vec![
        s("write /g/config.json"),
        s("exists? /g/mhf-iel.exe"),
        s("exists? /g/mhf-iel-cli.exe"),
        s("exists? /g/pfx"),
        s("mkdir /g/pfx"),
        s("run flatpak run --env=WINEPREFIX=/g/pfx --env=WINEDEBUG=-all --env=WINEDLLOVERRIDES=winemenubuilder.exe=d --command=wineboot org.winehq.Wine --init"),
        s("sleep 10"),
        s("run flatpak override --user --filesystem=/g org.winehq.Wine"),
        s("exists? /g/Font"),
        format!("exists? {}", DEST),
        format!("mkdir {}", DEST),
        format!("clear {}", DEST),
        s("list /g/Font"),
        format!("copy /g/Font/msgothic.ttc -> {}/msgothic.ttc", DEST),
        format!("copy /g/Font/MS Gothic.ttf -> {}/MS Gothic.ttf", DEST),
        reg("msgothic.ttc"),
        reg("MS Gothic.ttf"),
        s("spawn flatpak run org.winehq.Wine wineserver -w"),
        s("sleep 1"),
        s("spawn setsid flatpak run --env=WINEPREFIX=/g/pfx org.winehq.Wine /g/mhf-iel-cli.exe"),
        s("finish ok"),
    ];
    assert_eq!(seen, expected);
    assert_eq!(launch.phase(), Phase::Finished);
}

#[test]
fn ready_prefix_on_linux_goes_straight_to_the_game() {
    let (seen, _) = drive(
        false,
        vec![
            LaunchEvent::Succeeded,
            LaunchEvent::Exists(true), // mhf-iel.exe
            LaunchEvent::Exists(true), // prefix
            LaunchEvent::Exists(true), // system.reg
            LaunchEvent::Succeeded,    // wineserver
            LaunchEvent::Succeeded,    // sleep
            LaunchEvent::Succeeded,    // game
        ],
    );
    assert_eq!(
        seen,
        vec![
            s("write /g/config.json"),
            s("exists? /g/mhf-iel.exe"),
            s("exists? /g/pfx"),
            s("exists? /g/pfx/system.reg"),
            s("spawn wineserver -w"),
            s("sleep 1"),
            s("spawn setsid wine /g/mhf-iel.exe"),
            s("finish ok"),
        ]
    );
}

#[test]
fn incomplete_prefix_on_linux_is_initialised_without_flatpak() {
    let (seen, _) = drive(
        false,
        vec![
            LaunchEvent::Succeeded,
            LaunchEvent::Exists(true),  // mhf-iel.exe
            LaunchEvent::Exists(true),  // prefix
            LaunchEvent::Exists(false), // system.reg missing
            LaunchEvent::Succeeded,     // mkdir
            LaunchEvent::Failed(s("wineboot: not found")),
            LaunchEvent::Succeeded,     // sleep
            LaunchEvent::Exists(false), // Font
            LaunchEvent::Exists(false), // fonts
        ],
    );
    assert_eq!(
        &seen[4..],
        &[
            s("mkdir /g/pfx"),
            s("run wineboot --init"),
            s("sleep 3"),
            s("exists? /g/Font"),
            s("exists? /g/fonts"),
            s("spawn wineserver -w"),
        ]
    );
}

#[test]
fn unwritable_config_ends_the_launch() {
    let (seen, mut launch) = drive(true, vec![LaunchEvent::Failed(s("disk full"))]);
    assert_eq!(seen, vec![s("write /g/config.json"), s("finish err Failed to write config.json: disk full")]);
    // a finished launch keeps reporting the same outcome
    let again = launch.step(LaunchEvent::Succeeded);
    assert_eq!(describe(&again), "finish err Failed to write config.json: disk full");
    match again {
        LaunchAction::Finish { result: Err(LaunchError::ConfigWrite(m)) } => assert_eq!(m, "disk full"),
        other => panic!("unexpected {:?}", other),
    }
}

#[test]
fn missing_executables_end_the_launch() {
    let (seen, _) = drive(false, vec![LaunchEvent::Succeeded, LaunchEvent::Exists(false), LaunchEvent::Exists(false)]);
    assert_eq!(seen.last().unwrap(), "finish err mhf-iel.exe or mhf-iel-cli.exe not found in game folder");
}

#[test]
fn failed_game_start_is_reported() {
    let (seen, _) = drive(
        false,
        vec![
            LaunchEvent::Succeeded,
            LaunchEvent::Exists(true),
            LaunchEvent::Exists(true),
            LaunchEvent::Exists(true),
            LaunchEvent::Succeeded,
            LaunchEvent::Succeeded,
            LaunchEvent::Failed(s("No such file or directory (os error 2)")),
        ],
    );
    assert_eq!(seen.last().unwrap(), "finish err No such file or directory (os error 2)");
}

fn to_font_listing(steamos: bool) -> Vec<LaunchEvent> {
    let mut v = vec![
        LaunchEvent::Succeeded,
        LaunchEvent::Exists(true),  // exe
        LaunchEvent::Exists(false), // prefix
        LaunchEvent::Succeeded,     // mkdir
        LaunchEvent::Succeeded,     // wineboot
        LaunchEvent::Succeeded,     // sleep
    ];
    if steamos {
        v.push(LaunchEvent::Succeeded); // override
    }
    v
}

#[test]
fn at_most_two_fonts_even_when_more_are_allowed() {
    let mut events = to_font_listing(false);
    events.extend(vec![
        LaunchEvent::Exists(false), // Font
        LaunchEvent::Exists(true),  // fonts
        LaunchEvent::Exists(true),  // dest
        LaunchEvent::Succeeded,     // clear
        LaunchEvent::Listed(vec![s("msgothic.ttc"), s("MSGOTHIC.TTC"), s("MS Gothic.ttf"), s("ms gothic.ttf"), s("msgothic.ttf")]),
        LaunchEvent::Failed(s("copy failed")), // msgothic.ttc
        LaunchEvent::Succeeded,                // MSGOTHIC.TTC
        LaunchEvent::Succeeded,                // MS Gothic.ttf
        LaunchEvent::Succeeded,                // register
        LaunchEvent::Succeeded,                // register
    ]);
    let (seen, _) = drive(false, events);
    let copies: Vec<&String> = seen.iter().filter(|a| a.starts_with("copy")).collect();
    assert_eq!(copies.len(), 3);
    assert_eq!(*copies[2], format!("copy /g/fonts/MS Gothic.ttf -> {}/MS Gothic.ttf", DEST));
    let regs: Vec<&String> = seen.iter().filter(|a| a.starts_with("run wine reg")).collect();
    assert_eq!(regs.len(), 2);
    assert!(regs[0].ends_with("/d MSGOTHIC.TTC /f"));
    assert!(regs[1].ends_with("/d MS Gothic.ttf /f"));
    assert_eq!(seen.last().unwrap(), "spawn wineserver -w");
}

#[test]
fn no_allowed_font_means_no_registration() {
    let mut events = to_font_listing(true);
    events.extend(vec![
        LaunchEvent::Exists(true), // Font
        LaunchEvent::Exists(true), // dest
        LaunchEvent::Succeeded,    // clear
        LaunchEvent::Listed(vec![s("arial.ttf")]),
    ]);
    let (seen, _) = drive(true, events);
    assert_eq!(seen.last().unwrap(), "spawn flatpak run org.winehq.Wine wineserver -w");
}

#[test]
fn failed_copies_install_nothing() {
    let mut events = to_font_listing(false);
    events.extend(vec![
        LaunchEvent::Exists(true), // Font
        LaunchEvent::Exists(true), // dest
        LaunchEvent::Succeeded,    // clear
        LaunchEvent::Listed(vec![s("msgothic.ttc")]),
        LaunchEvent::Failed(s("permission denied")),
    ]);
    let (seen, _) = drive(false, events);
    assert_eq!(seen.last().unwrap(), "spawn wineserver -w");
}

#[test]
fn unreadable_font_folder_is_treated_as_empty() {
    let mut events = to_font_listing(false);
    events.extend(vec![
        LaunchEvent::Exists(true), // Font
        LaunchEvent::Exists(true), // dest
        LaunchEvent::Succeeded,    // clear
        LaunchEvent::Failed(s("cannot read")),
    ]);
    let (seen, _) = drive(false, events);
    assert_eq!(seen.last().unwrap(), "spawn wineserver -w");
}

#[test]
fn uncreatable_font_destination_skips_fonts() {
    let mut events = to_font_listing(false);
    events.extend(vec![
        LaunchEvent::Exists(true),  // Font
        LaunchEvent::Exists(false), // dest
        LaunchEvent::Failed(s("read-only")),
    ]);
    let (seen, _) = drive(false, events);
    assert_eq!(seen.last().unwrap(), "spawn wineserver -w");
}
