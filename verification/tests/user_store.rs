use mhfz_launcher::user::{
    after_file, after_keyring, CredentialChange, CredentialsFile, Endpoint, FileUpdate,
    PasswordStep, UserData, UserManager,
};

fn endpoint(name: &str, is_remote: bool) -> Endpoint {
    Endpoint { name: name.to_string(), is_remote }
}

fn user(name: &str, remember_me: bool) -> UserData {
    UserData { username: name.to_string(), remember_me }
}

#[test]
fn target_joins_name_and_remoteness() {
    let m = UserManager::new();
    assert_eq!(m.get_target(&endpoint("Rain", true)), "Rain:true");
    assert_eq!(m.get_target(&endpoint("Rain", false)), "Rain:false");
    assert_eq!(m.get_target(&endpoint("", false)), ":false");
}

#[test]
fn unknown_endpoint_shows_empty_user_with_remember_me() {
    let m = UserManager::new();
    let (ud, step) = m.get(&endpoint("Rain", false));
    assert_eq!(ud.username, "");
    assert!(ud.remember_me);
    match step {
        PasswordStep::Done(p) => assert_eq!(p, ""),
        _ => panic!("an empty username needs no password search"),
    }
}

#[test]
fn default_user_data_is_empty_and_not_remembered() {
    let d = UserData::default();
    assert_eq!(d.username, "");
    assert!(!d.remember_me);
}

#[test]
fn remembered_user_is_read_back_and_keyring_asked() {
    let mut m = UserManager::new();
    let ep = endpoint("Rain", true);
    let change = m.set(&ep, user("hunter", true), "secret".to_string());
    match change {
        CredentialChange::Store { target, service, username, endpoint_name, password } => {
            assert_eq!(target, "Rain:true");
            assert_eq!(service, "mhf-launcher");
            assert_eq!(username, "hunter");
            assert_eq!(endpoint_name, "Rain");
            assert_eq!(password, "secret");
        }
        _ => panic!("a remembered user stores its password"),
    }
    let (ud, step) = m.get(&ep);
    assert_eq!(ud.username, "hunter");
    assert!(ud.remember_me);
    match step {
        PasswordStep::AskKeyring { target, service, username } => {
            assert_eq!(target, "Rain:true");
            assert_eq!(service, "mhf-launcher");
            assert_eq!(username, "hunter");
        }
        _ => panic!("a known username asks the keyring first"),
    }
}

#[test]
fn forgotten_user_shows_default() {
    let mut m = UserManager::new();
    let ep = endpoint("Rain", false);
    m.set(&ep, user("hunter", true), "secret".to_string());
    let change = m.set(&ep, user("hunter", false), "ignored".to_string());
    match change {
        CredentialChange::Forget { target, username, endpoint_name, .. } => {
            assert_eq!(target, "Rain:false");
            assert_eq!(username, "hunter");
            assert_eq!(endpoint_name, "Rain");
        }
        _ => panic!("a user not remembered is forgotten"),
    }
    let (ud, step) = m.get(&ep);
    assert_eq!(ud.username, "");
    assert!(ud.remember_me);
    assert!(matches!(step, PasswordStep::Done(ref p) if p.is_empty()));
}

#[test]
fn local_and_remote_tables_are_separate() {
    let mut m = UserManager::new();
    m.set(&endpoint("Rain", false), user("local-user", true), "a".to_string());
    m.set(&endpoint("Rain", true), user("remote-user", true), "b".to_string());
    m.set(&endpoint("Other", false), user("other", true), "c".to_string());
    assert_eq!(m.get(&endpoint("Rain", false)).0.username, "local-user");
    assert_eq!(m.get(&endpoint("Rain", true)).0.username, "remote-user");
    m.set(&endpoint("Rain", true), user("remote-user", false), String::new());
    assert_eq!(m.get(&endpoint("Rain", false)).0.username, "local-user");
    assert_eq!(m.get(&endpoint("Rain", true)).0.username, "");
    assert_eq!(m.get(&endpoint("Other", false)).0.username, "other");
}

#[test]
fn setting_again_replaces_the_user() {
    let mut m = UserManager::new();
    let ep = endpoint("Rain", false);
    m.set(&ep, user("first", true), "a".to_string());
    m.set(&ep, user("second", true), "b".to_string());
    assert_eq!(m.get(&ep).0.username, "second");
    assert_eq!(m.entries(false).len(), 1);
}

#[test]
fn manager_rebuilt_from_lists() {
    let m = UserManager::from_lists(
        vec![("A".to_string(), user("a", true)), ("A".to_string(), user("a2", false))],
        vec![("B".to_string(), user("b", true))],
    );
    let (ud, _) = m.get(&endpoint("A", false));
    assert_eq!(ud.username, "a2");
    assert!(!ud.remember_me);
    assert_eq!(m.get(&endpoint("B", true)).0.username, "b");
    assert_eq!(m.get(&endpoint("B", false)).0.username, "");
    assert_eq!(m.entries(false).len(), 1);
    assert_eq!(m.entries(true)[0].0, "B");
}

#[test]
fn keyring_password_wins_over_file() {
    match after_keyring(Some("k".to_string()), "Rain".to_string(), "hunter".to_string()) {
        PasswordStep::Done(p) => assert_eq!(p, "k"),
        _ => panic!("a keyring password ends the search"),
    }
    match after_keyring(None, "Rain".to_string(), "hunter".to_string()) {
        PasswordStep::AskFile { endpoint_name, username } => {
            assert_eq!(endpoint_name, "Rain");
            assert_eq!(username, "hunter");
        }
        _ => panic!("without a keyring password the file is asked"),
    }
    assert_eq!(after_file(Some("f".to_string())), "f");
    assert_eq!(after_file(None), "");
}

#[test]
fn file_update_only_when_keyring_failed_to_store() {
    let store = || CredentialChange::Store {
        target: "Rain:false".to_string(),
        service: "mhf-launcher".to_string(),
        username: "hunter".to_string(),
        endpoint_name: "Rain".to_string(),
        password: "pw".to_string(),
    };
    assert!(store().file_update(true).is_none());
    match store().file_update(false) {
        Some(FileUpdate::Store { endpoint_name, username, password }) => {
            assert_eq!((endpoint_name.as_str(), username.as_str(), password.as_str()), ("Rain", "hunter", "pw"));
        }
        _ => panic!("a failed keyring store falls back to the file"),
    }
    let forget = || CredentialChange::Forget {
        target: "Rain:false".to_string(),
        service: "mhf-launcher".to_string(),
        username: "hunter".to_string(),
        endpoint_name: "Rain".to_string(),
    };
    assert!(matches!(forget().file_update(true), Some(FileUpdate::Forget { .. })));
    assert!(matches!(forget().file_update(false), Some(FileUpdate::Forget { .. })));
}

#[test]
fn stored_password_reads_back() {
    let mut c = CredentialsFile::new();
    let ep = "Rain".to_string();
    let u = "hunter".to_string();
    assert_eq!(c.password(&ep, &u), None);
    c.store(&ep, &u, &"pw1".to_string());
    assert_eq!(c.password(&ep, &u), Some("pw1".to_string()));
    c.store(&ep, &u, &"pw2".to_string());
    assert_eq!(c.password(&ep, &u), Some("pw2".to_string()));
    c.store(&ep, &"other".to_string(), &"x".to_string());
    c.store(&"Far".to_string(), &u, &"y".to_string());
    assert_eq!(c.password(&ep, &u), Some("pw2".to_string()));
    assert_eq!(c.password(&"Far".to_string(), &u), Some("y".to_string()));
}

#[test]
fn forgotten_password_is_gone_and_others_stay() {
    let mut c = CredentialsFile::new();
    let ep = "Rain".to_string();
    c.store(&ep, &"a".to_string(), &"1".to_string());
    c.store(&ep, &"b".to_string(), &"2".to_string());
    c.forget(&ep, &"a".to_string());
    assert_eq!(c.password(&ep, &"a".to_string()), None);
    assert_eq!(c.password(&ep, &"b".to_string()), Some("2".to_string()));
    // forgetting under an unknown endpoint changes nothing
    c.forget(&"Nowhere".to_string(), &"b".to_string());
    assert_eq!(c.password(&ep, &"b".to_string()), Some("2".to_string()));
    assert_eq!(c.entries().len(), 1);
}

#[test]
fn forget_keeps_empty_endpoint_table() {
    let mut c = CredentialsFile::new();
    let ep = "Rain".to_string();
    c.store(&ep, &"a".to_string(), &"1".to_string());
    c.forget(&ep, &"a".to_string());
    let entries = c.entries();
    assert_eq!(entries.len(), 1);
    assert_eq!(entries[0].0, "Rain");
    assert_eq!(entries[0].1.entries().len(), 0);
}

#[test]
fn apply_runs_file_updates() {
    let mut c = CredentialsFile::new();
    c.apply(&FileUpdate::Store {
        endpoint_name: "Rain".to_string(),
        username: "hunter".to_string(),
        password: "pw".to_string(),
    });
    assert_eq!(c.password(&"Rain".to_string(), &"hunter".to_string()), Some("pw".to_string()));
    c.apply(&FileUpdate::Forget { endpoint_name: "Rain".to_string(), username: "hunter".to_string() });
    assert_eq!(c.password(&"Rain".to_string(), &"hunter".to_string()), None);
}

#[test]
fn credentials_rebuilt_from_lists() {
    let c = CredentialsFile::from_lists(vec![(
        "Rain".to_string(),
        vec![("hunter".to_string(), "pw".to_string())],
    )]);
    assert_eq!(c.password(&"Rain".to_string(), &"hunter".to_string()), Some("pw".to_string()));
    assert_eq!(c.password(&"Rain".to_string(), &"other".to_string()), None);
}
