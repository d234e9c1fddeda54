use vstd::prelude::*;

use crate::strmap::{map_from_list, StrMap};

verus! {

/// A server the launcher can log into, as far as the user store reads it.
pub struct Endpoint {
    pub name: String,
    pub is_remote: bool,
}

/// The text that `bool`'s `Display` writes.
pub open spec fn bool_text(b: bool) -> Seq<char> {
    if b {
        "true"@
    } else {
        "false"@
    }
}

/// The keyring target of an endpoint: its name, a colon, and whether it is remote.
pub open spec fn target_of(name: Seq<char>, is_remote: bool) -> Seq<char> {
    name + ":"@ + bool_text(is_remote)
}

/// The service name under which passwords are kept in the system keyring.
pub open spec fn app_name() -> Seq<char> {
    "mhf-launcher"@
}

/// The service name under which passwords are kept in the system keyring.
pub fn app_name_text() -> (r: String)
    ensures
        r@ == app_name(),
{
    String::from_str("mhf-launcher")
}

/// What the launcher remembers of the user of one endpoint.
#[derive(Clone)]
pub struct UserData {
    pub username: String,
    pub remember_me: bool,
}

impl UserData {
    /// A field-by-field copy.
    pub fn copied(&self) -> (r: UserData)
        ensures
            r == *self,
    {
        UserData { username: self.username.clone(), remember_me: self.remember_me }
    }
}

impl Default for UserData {
    fn default() -> (r: UserData)
        ensures
            r.username@ == Seq::<char>::empty(),
            !r.remember_me,
    {
        UserData { username: String::new(), remember_me: false }
    }
}

/// The username and remember-me flag shown for `name`: the stored ones, or an
/// empty name with remember-me set where nothing is stored.
pub open spec fn shown_user(users: Map<Seq<char>, UserData>, name: Seq<char>) -> (Seq<char>, bool) {
    if users.contains_key(name) {
        (users[name].username@, users[name].remember_me)
    } else {
        (Seq::empty(), true)
    }
}

/// The users of one side after `set`: remembered data is stored under the
/// endpoint's name, otherwise the name is forgotten.
pub open spec fn users_after_set(users: Map<Seq<char>, UserData>, name: Seq<char>, userdata: UserData) -> Map<
    Seq<char>,
    UserData,
> {
    if userdata.remember_me {
        users.insert(name, userdata)
    } else {
        users.remove(name)
    }
}

/// Where the search for a password stands.
pub enum PasswordStep {
    /// The search is over; this is the password.
    Done(String),
    /// Ask the system keyring for the entry `target` / `service` / `username`.
    AskKeyring { target: String, service: String, username: String },
    /// Ask the credentials file for `username` under `endpoint_name`.
    AskFile { endpoint_name: String, username: String },
}

/// What `set` asks to be done with the password, outside the manager.
pub enum CredentialChange {
    /// Put the password into the keyring entry; should that fail, into the
    /// credentials file.
    Store { target: String, service: String, username: String, endpoint_name: String, password: String },
    /// Delete the keyring entry, and the password in the credentials file.
    Forget { target: String, service: String, username: String, endpoint_name: String },
}

/// A change to apply to the credentials file.
pub enum FileUpdate {
    Store { endpoint_name: String, username: String, password: String },
    Forget { endpoint_name: String, username: String },
}

impl CredentialChange {
    /// The change to make to the credentials file once the keyring has been
    /// tried: a stored password goes to the file only where the keyring
    /// failed; a forgotten one is removed from the file in any case.
    pub fn file_update(self, keyring_ok: bool) -> (r: Option<FileUpdate>)
        ensures
            match self {
                CredentialChange::Store { username, endpoint_name, password, .. } => if keyring_ok {
                    r is None
                } else {
                    r == Some(FileUpdate::Store { endpoint_name, username, password })
                },
                CredentialChange::Forget { username, endpoint_name, .. } => r == Some(
                    FileUpdate::Forget { endpoint_name, username },
                ),
            },
    {
        match self {
            CredentialChange::Store { username, endpoint_name, password, .. } => {
                if keyring_ok {
                    None
                } else {
                    Some(FileUpdate::Store { endpoint_name, username, password })
                }
            },
            CredentialChange::Forget { username, endpoint_name, .. } => Some(
                FileUpdate::Forget { endpoint_name, username },
            ),
        }
    }
}

/// The users remembered per endpoint name, one table for local endpoints and
/// one for remote ones.
pub struct UserManager {
    local: StrMap<UserData>,
    remote: StrMap<UserData>,
}

impl UserManager {
    pub closed spec fn wf(&self) -> bool {
        self.local.wf() && self.remote.wf()
    }

    /// A well-formed manager remembers finitely many users on each side.
    pub proof fn lemma_wf(&self)
        requires
            self.wf(),
        ensures
            self.users(false).dom().finite(),
            self.users(true).dom().finite(),
    {
        self.local.lemma_wf();
        self.remote.lemma_wf();
    }

    /// The users remembered for remote (`true`) or local (`false`) endpoints.
    pub closed spec fn users(&self, is_remote: bool) -> Map<Seq<char>, UserData> {
        if is_remote {
            self.remote@
        } else {
            self.local@
        }
    }

    /// No user remembered on either side.
    pub fn new() -> (m: UserManager)
        ensures
            m.wf(),
            m.users(false) == Map::<Seq<char>, UserData>::empty(),
            m.users(true) == Map::<Seq<char>, UserData>::empty(),
    {
        UserManager { local: StrMap::new(), remote: StrMap::new() }
    }

    /// The manager that holds `local` and `remote` entries, later entries of a
    /// name replacing earlier ones.
    pub fn from_lists(local: Vec<(String, UserData)>, remote: Vec<(String, UserData)>) -> (m: UserManager)
        ensures
            m.wf(),
            m.users(false) == map_from_list(local@),
            m.users(true) == map_from_list(remote@),
    {
        UserManager { local: StrMap::from_list(local), remote: StrMap::from_list(remote) }
    }

    /// The entries of one side, in the order their names first arrived.
    pub fn entries(&self, is_remote: bool) -> (r: &Vec<(String, UserData)>)
        requires
            self.wf(),
        ensures
            crate::strmap::keys_distinct(r@),
            crate::strmap::map_of(r@) == self.users(is_remote),
    {
        if is_remote {
            proof {
                self.remote.lemma_view();
            }
            self.remote.entries()
        } else {
            proof {
                self.local.lemma_view();
            }
            self.local.entries()
        }
    }

    /// The keyring target of `endpoint`: its name, `:`, and `true` or `false`.
    pub fn get_target(&self, endpoint: &Endpoint) -> (r: String)
        ensures
            r@ == target_of(endpoint.name@, endpoint.is_remote),
    {
        let mut s = endpoint.name.clone();
        s.append(":");
        if endpoint.is_remote {
            s.append("true");
        } else {
            s.append("false");
        }
        s
    }

    /// The user data remembered for `endpoint` (an empty name with
    /// remember-me set where none is), and the first step of the search for
    /// its password: none where the name is empty, else the keyring.
    pub fn get(&self, endpoint: &Endpoint) -> (r: (UserData, PasswordStep))
        requires
            self.wf(),
        ensures
            (r.0.username@, r.0.remember_me) == shown_user(self.users(endpoint.is_remote), endpoint.name@),
            match r.1 {
                PasswordStep::Done(p) => r.0.username@.len() == 0 && p@ == Seq::<char>::empty(),
                PasswordStep::AskKeyring { target, service, username } => {
                    &&& r.0.username@.len() > 0
                    &&& target@ == target_of(endpoint.name@, endpoint.is_remote)
                    &&& service@ == app_name()
                    &&& username@ == r.0.username@
                },
                PasswordStep::AskFile { .. } => false,
            },
    {
        let target = self.get_target(endpoint);
        let table = if endpoint.is_remote {
            &self.remote
        } else {
            &self.local
        };
        let userdata = match table.get(&endpoint.name) {
            Some(u) => u.copied(),
            None => UserData { username: String::new(), remember_me: true },
        };
        let step = if userdata.username.as_str().is_empty() {
            PasswordStep::Done(String::new())
        } else {
            PasswordStep::AskKeyring {
                target,
                service: app_name_text(),
                username: userdata.username.clone(),
            }
        };
        (userdata, step)
    }

    /// Remembers `userdata` for `endpoint` where it asks to be remembered,
    /// forgets the endpoint otherwise, and says what is to become of the
    /// password.
    pub fn set(&mut self, endpoint: &Endpoint, userdata: UserData, password: String) -> (r: CredentialChange)
        requires
            old(self).wf(),
        ensures
            final(self).wf(),
            final(self).users(endpoint.is_remote) == users_after_set(
                old(self).users(endpoint.is_remote),
                endpoint.name@,
                userdata,
            ),
            final(self).users(!endpoint.is_remote) == old(self).users(!endpoint.is_remote),
            match r {
                CredentialChange::Store { target, service, username, endpoint_name, password: p } => {
                    &&& userdata.remember_me
                    &&& target@ == target_of(endpoint.name@, endpoint.is_remote)
                    &&& service@ == app_name()
                    &&& username@ == userdata.username@
                    &&& endpoint_name@ == endpoint.name@
                    &&& p@ == password@
                },
                CredentialChange::Forget { target, service, username, endpoint_name } => {
                    &&& !userdata.remember_me
                    &&& target@ == target_of(endpoint.name@, endpoint.is_remote)
                    &&& service@ == app_name()
                    &&& username@ == userdata.username@
                    &&& endpoint_name@ == endpoint.name@
                },
            },
    {
        let target = self.get_target(endpoint);
        let username = userdata.username.clone();
        let endpoint_name = endpoint.name.clone();
        if userdata.remember_me {
            if endpoint.is_remote {
                self.remote.insert(endpoint.name.clone(), userdata);
            } else {
                self.local.insert(endpoint.name.clone(), userdata);
            }
            CredentialChange::Store { target, service: app_name_text(), username, endpoint_name, password }
        } else {
            if endpoint.is_remote {
                self.remote.remove(&endpoint.name);
            } else {
                self.local.remove(&endpoint.name);
            }
            CredentialChange::Forget { target, service: app_name_text(), username, endpoint_name }
        }
    }
}

impl Default for UserManager {
    fn default() -> (m: UserManager)
        ensures
            m.wf(),
            m.users(false) == Map::<Seq<char>, UserData>::empty(),
            m.users(true) == Map::<Seq<char>, UserData>::empty(),
    {
        UserManager::new()
    }
}

/// The next step once the keyring has answered: its password where it had
/// one, else the credentials file.
pub fn after_keyring(found: Option<String>, endpoint_name: String, username: String) -> (r: PasswordStep)
    ensures
        match found {
            Some(p) => r == PasswordStep::Done(p),
            None => r == PasswordStep::AskFile { endpoint_name, username },
        },
{
    match found {
        Some(p) => PasswordStep::Done(p),
        None => PasswordStep::AskFile { endpoint_name, username },
    }
}

/// The password once the credentials file has answered: its password where
/// it had one, else the empty password.
pub fn after_file(found: Option<String>) -> (r: String)
    ensures
        match found {
            Some(p) => r == p,
            None => r@ == Seq::<char>::empty(),
        },
{
    match found {
        Some(p) => p,
        None => String::new(),
    }
}

/// The passwords saved outside the keyring: per endpoint name, per username.
pub struct CredentialsFile {
    passwords: StrMap<StrMap<String>>,
}

/// The passwords of `users` as text.
pub open spec fn password_texts(users: Map<Seq<char>, String>) -> Map<Seq<char>, Seq<char>> {
    users.map_values(|p: String| p@)
}

/// The credentials that `lists` stand for: each endpoint's passwords in
/// turn, later entries of a name replacing earlier ones.
pub open spec fn creds_from_lists(lists: Seq<(String, Vec<(String, String)>)>) -> Map<
    Seq<char>,
    Map<Seq<char>, Seq<char>>,
>
    decreases lists.len(),
{
    if lists.len() == 0 {
        Map::empty()
    } else {
        creds_from_lists(lists.drop_last()).insert(
            lists.last().0@,
            password_texts(map_from_list(lists.last().1@)),
        )
    }
}

/// The credentials after `password` is stored for `username` under `endpoint`.
pub open spec fn creds_after_store(
    creds: Map<Seq<char>, Map<Seq<char>, Seq<char>>>,
    endpoint: Seq<char>,
    username: Seq<char>,
    password: Seq<char>,
) -> Map<Seq<char>, Map<Seq<char>, Seq<char>>> {
    let users = if creds.contains_key(endpoint) {
        creds[endpoint]
    } else {
        Map::empty()
    };
    creds.insert(endpoint, users.insert(username, password))
}

/// The credentials after the password of `username` under `endpoint` is
/// deleted; an endpoint that had no entry gets none.
pub open spec fn creds_after_forget(
    creds: Map<Seq<char>, Map<Seq<char>, Seq<char>>>,
    endpoint: Seq<char>,
    username: Seq<char>,
) -> Map<Seq<char>, Map<Seq<char>, Seq<char>>> {
    if creds.contains_key(endpoint) {
        creds.insert(endpoint, creds[endpoint].remove(username))
    } else {
        creds
    }
}

/// The password saved for `username` under `endpoint`, if any.
pub open spec fn creds_lookup(
    creds: Map<Seq<char>, Map<Seq<char>, Seq<char>>>,
    endpoint: Seq<char>,
    username: Seq<char>,
) -> Option<Seq<char>> {
    if creds.contains_key(endpoint) && creds[endpoint].contains_key(username) {
        Some(creds[endpoint][username])
    } else {
        None
    }
}

impl CredentialsFile {
    pub closed spec fn wf(&self) -> bool {
        &&& self.passwords.wf()
        &&& forall|k: Seq<char>| #[trigger] self.passwords@.contains_key(k) ==> self.passwords@[k].wf()
    }

    /// A well-formed credentials file holds finitely many endpoints, each
    /// with finitely many users.
    pub proof fn lemma_wf(&self)
        requires
            self.wf(),
        ensures
            self.view().dom().finite(),
            forall|e: Seq<char>| #[trigger] self.view().contains_key(e) ==> self.view()[e].dom().finite(),
    {
        self.passwords.lemma_wf();
        assert(self.view().dom() =~= self.passwords@.dom());
        assert forall|e: Seq<char>| #[trigger] self.view().contains_key(e) implies self.view()[e].dom().finite() by {
            let users = self.passwords@[e];
            users.lemma_wf();
            assert(self.view()[e].dom() =~= users@.dom());
        }
    }

    /// Per endpoint name, per username, the saved password.
    pub closed spec fn view(&self) -> Map<Seq<char>, Map<Seq<char>, Seq<char>>> {
        self.passwords@.map_values(|users: StrMap<String>| password_texts(users@))
    }

    /// No password saved.
    pub fn new() -> (c: CredentialsFile)
        ensures
            c.wf(),
            c.view() == Map::<Seq<char>, Map<Seq<char>, Seq<char>>>::empty(),
    {
        let c = CredentialsFile { passwords: StrMap::new() };
        assert(c.view() =~= Map::<Seq<char>, Map<Seq<char>, Seq<char>>>::empty());
        c
    }

    /// The credentials built from `lists`: per endpoint name, the passwords
    /// per username; later entries of a name replace earlier ones.
    pub fn from_lists(lists: Vec<(String, Vec<(String, String)>)>) -> (c: CredentialsFile)
        ensures
            c.wf(),
            c.view() == creds_from_lists(lists@),
    {
        let ghost whole = lists@;
        let mut rest = lists;
        let mut c = CredentialsFile::new();
        let ghost mut n: int = 0;
        while rest.len() > 0
            invariant
                c.wf(),
                0 <= n <= whole.len(),
                rest@ == whole.subrange(n, whole.len() as int),
                c.view() == creds_from_lists(whole.subrange(0, n)),
            decreases rest@.len(),
        {
            let (name, users) = rest.remove(0);
            proof {
                assert(whole.subrange(0, n + 1).drop_last() =~= whole.subrange(0, n));
                assert(whole.subrange(0, n + 1).last() == (name, users));
            }
            let ghost before = c.view();
            let table = StrMap::from_list(users);
            assert(password_texts(table@) == password_texts(map_from_list(users@)));
            c.passwords.insert(name, table);
            assert(c.view() =~= before.insert(name@, password_texts(map_from_list(users@))));
            proof {
                n = n + 1;
                assert(rest@ =~= whole.subrange(n, whole.len() as int));
            }
        }
        assert(whole.subrange(0, n) =~= whole);
        c
    }

    /// The entries, per endpoint name, in the order the names first arrived.
    pub fn entries(&self) -> (r: &Vec<(String, StrMap<String>)>)
        requires
            self.wf(),
        ensures
            crate::strmap::keys_distinct(r@),
            forall|i: int| 0 <= i < r@.len() ==> (#[trigger] r@[i]).1.wf(),
            self.view() == crate::strmap::map_of(r@).map_values(|users: StrMap<String>| password_texts(users@)),
    {
        proof {
            self.passwords.lemma_view();
            assert forall|i: int| 0 <= i < self.passwords.pairs().len() implies (
            #[trigger] self.passwords.pairs()[i]).1.wf() by {
                crate::strmap::lemma_map_of_at(self.passwords.pairs(), i);
            }
        }
        self.passwords.entries()
    }

    /// The password saved for `username` under `endpoint_name`, if any.
    pub fn password(&self, endpoint_name: &String, username: &String) -> (r: Option<String>)
        requires
            self.wf(),
        ensures
            match r {
                Some(p) => creds_lookup(self.view(), endpoint_name@, username@) == Some(p@),
                None => creds_lookup(self.view(), endpoint_name@, username@) is None,
            },
    {
        match self.passwords.get(endpoint_name) {
            Some(users) => {
                match users.get(username) {
                    Some(p) => Some(p.clone()),
                    None => None,
                }
            },
            None => None,
        }
    }

    /// Saves `password` for `username` under `endpoint_name`, in place of any
    /// password saved there before.
    pub fn store(&mut self, endpoint_name: &String, username: &String, password: &String)
        requires
            old(self).wf(),
        ensures
            final(self).wf(),
            final(self).view() == creds_after_store(old(self).view(), endpoint_name@, username@, password@),
    {
        let ghost before = self.view();
        let ghost old_p = self.passwords@;
        let mut users = match self.passwords.remove(endpoint_name) {
            Some(u) => u,
            None => StrMap::new(),
        };
        let ghost old_users = users@;
        assert(before.contains_key(endpoint_name@) ==> before[endpoint_name@] == password_texts(old_users));
        assert(!before.contains_key(endpoint_name@) ==> password_texts(old_users) =~= Map::<Seq<char>, Seq<char>>::empty());
        users.insert(username.clone(), password.clone());
        assert(password_texts(users@) =~= password_texts(old_users).insert(username@, password@));
        self.passwords.insert(endpoint_name.clone(), users);
        assert(self.passwords@ == old_p.remove(endpoint_name@).insert(endpoint_name@, users));
        assert(self.view() =~= creds_after_store(before, endpoint_name@, username@, password@));
    }

    /// Deletes the password of `username` under `endpoint_name`; an endpoint
    /// with no entry is left without one.
    pub fn forget(&mut self, endpoint_name: &String, username: &String)
        requires
            old(self).wf(),
        ensures
            final(self).wf(),
            final(self).view() == creds_after_forget(old(self).view(), endpoint_name@, username@),
    {
        let ghost before = self.view();
        match self.passwords.remove(endpoint_name) {
            Some(users) => {
                let mut users = users;
                let ghost old_users = users@;
                users.remove(username);
                assert(password_texts(users@) =~= password_texts(old_users).remove(username@));
                self.passwords.insert(endpoint_name.clone(), users);
                assert(self.view() =~= creds_after_forget(before, endpoint_name@, username@));
            },
            None => {
                assert(self.view() =~= before);
            },
        }
    }

    /// Applies a change that `CredentialChange::file_update` asked for.
    pub fn apply(&mut self, update: &FileUpdate)
        requires
            old(self).wf(),
        ensures
            final(self).wf(),
            final(self).view() == match update {
                FileUpdate::Store { endpoint_name, username, password } => creds_after_store(
                    old(self).view(),
                    endpoint_name@,
                    username@,
                    password@,
                ),
                FileUpdate::Forget { endpoint_name, username } => creds_after_forget(
                    old(self).view(),
                    endpoint_name@,
                    username@,
                ),
            },
    {
        match update {
            FileUpdate::Store { endpoint_name, username, password } => self.store(
                endpoint_name,
                username,
                password,
            ),
            FileUpdate::Forget { endpoint_name, username } => self.forget(endpoint_name, username),
        }
    }
}

/// Different endpoints (by name, or local against remote) never share a
/// keyring target.
pub proof fn law_targets_are_distinct(n1: Seq<char>, r1: bool, n2: Seq<char>, r2: bool)
    requires
        n1 != n2 || r1 != r2,
    ensures
        target_of(n1, r1) != target_of(n2, r2),
{
    reveal_strlit(":");
    reveal_strlit("true");
    reveal_strlit("false");
    let t1 = target_of(n1, r1);
    let t2 = target_of(n2, r2);
    if t1 == t2 {
        if r1 != r2 {
            // ":true" and "false" end the two texts and differ in their last five characters
            let l = t1.len();
            assert(t1[l - 5] == t2[l - 5]);
            if r1 {
                assert(t1[l - 5] == ':');
                assert(t2[l - 5] == 'f');
            } else {
                assert(t1[l - 5] == 'f');
                assert(t2[l - 5] == ':');
            }
        } else {
            let tail = ":"@ + bool_text(r1);
            assert(t1 =~= n1 + tail);
            assert(t2 =~= n2 + tail);
            assert(n1 =~= t1.subrange(0, n1.len() as int));
            assert(n2 =~= t2.subrange(0, n2.len() as int));
        }
    }
}

/// A user set with remember-me is what `get` shows for that endpoint.
pub proof fn law_remembered_user_is_shown(users: Map<Seq<char>, UserData>, name: Seq<char>, userdata: UserData)
    requires
        userdata.remember_me,
    ensures
        shown_user(users_after_set(users, name, userdata), name) == (userdata.username@, true),
{
}

/// A user set without remember-me is forgotten: `get` shows an empty name
/// with remember-me set, whatever was stored before.
pub proof fn law_forgotten_user_shows_default(users: Map<Seq<char>, UserData>, name: Seq<char>, userdata: UserData)
    requires
        !userdata.remember_me,
    ensures
        shown_user(users_after_set(users, name, userdata), name) == (Seq::<char>::empty(), true),
{
}

/// Setting the user of one endpoint name changes nothing shown for another.
pub proof fn law_set_keeps_other_names(
    users: Map<Seq<char>, UserData>,
    name: Seq<char>,
    other: Seq<char>,
    userdata: UserData,
)
    requires
        other != name,
    ensures
        shown_user(users_after_set(users, name, userdata), other) == shown_user(users, other),
{
}

/// A stored password is what a lookup of the same endpoint and user finds.
pub proof fn law_stored_password_reads_back(
    creds: Map<Seq<char>, Map<Seq<char>, Seq<char>>>,
    endpoint: Seq<char>,
    username: Seq<char>,
    password: Seq<char>,
)
    ensures
        creds_lookup(creds_after_store(creds, endpoint, username, password), endpoint, username) == Some(password),
{
}

/// After a password is deleted, a lookup of the same endpoint and user finds nothing.
pub proof fn law_forgotten_password_is_gone(
    creds: Map<Seq<char>, Map<Seq<char>, Seq<char>>>,
    endpoint: Seq<char>,
    username: Seq<char>,
)
    ensures
        creds_lookup(creds_after_forget(creds, endpoint, username), endpoint, username) is None,
{
}

/// Storing or deleting one password leaves what every other endpoint and
/// user pair finds.
pub proof fn law_other_passwords_untouched(
    creds: Map<Seq<char>, Map<Seq<char>, Seq<char>>>,
    endpoint: Seq<char>,
    username: Seq<char>,
    password: Seq<char>,
    other_endpoint: Seq<char>,
    other_username: Seq<char>,
)
    requires
        other_endpoint != endpoint || other_username != username,
    ensures
        creds_lookup(creds_after_store(creds, endpoint, username, password), other_endpoint, other_username)
            == creds_lookup(creds, other_endpoint, other_username),
        creds_lookup(creds_after_forget(creds, endpoint, username), other_endpoint, other_username)
            == creds_lookup(creds, other_endpoint, other_username),
{
}

/// Deleting a password that was stored where none was before gives back
/// what every lookup found before.
pub proof fn law_forget_undoes_store(
    creds: Map<Seq<char>, Map<Seq<char>, Seq<char>>>,
    endpoint: Seq<char>,
    username: Seq<char>,
    password: Seq<char>,
    e: Seq<char>,
    u: Seq<char>,
)
    requires
        creds_lookup(creds, endpoint, username) is None,
    ensures
        creds_lookup(creds_after_forget(creds_after_store(creds, endpoint, username, password), endpoint, username), e, u)
            == creds_lookup(creds, e, u),
{
}

} // verus!
