use vstd::prelude::*;

use crate::text::{concat_text, decimal, decimal_text};

verus! {

/// The XInputPlus files that setup writes into the game folder, in the order
/// they are written.
pub open spec fn xinput_files() -> Seq<Seq<char>> {
    seq!["XInputPlus.ini"@, "Dinput.dll"@, "Dinput8.dll"@, "XInput1_3.dll"@]
}

/// The names of the XInputPlus files, in the order setup writes them.
pub fn xinput_file_names() -> (r: Vec<String>)
    ensures
        r@.len() == xinput_files().len(),
        forall|i: int| 0 <= i < r@.len() ==> #[trigger] r@[i]@ == xinput_files()[i],
{
    let mut v: Vec<String> = Vec::new();
    v.push(String::from_str("XInputPlus.ini"));
    v.push(String::from_str("Dinput.dll"));
    v.push(String::from_str("Dinput8.dll"));
    v.push(String::from_str("XInput1_3.dll"));
    v
}

/// The marker file that records the installed XInputPlus version.
pub open spec fn version_marker() -> Seq<char> {
    ".xinputplus_version"@
}

/// The version that the marker file records.
pub open spec fn version_tag() -> Seq<char> {
    "4.15.2-butterclient"@
}

/// The marker file that records the installed XInputPlus version.
pub fn version_marker_name() -> (r: String)
    ensures
        r@ == version_marker(),
{
    String::from_str(".xinputplus_version")
}

/// The text written into the version marker file.
pub fn version_marker_text() -> (r: String)
    ensures
        r@ == version_tag(),
{
    String::from_str("4.15.2-butterclient")
}

/// The two files whose presence counts as XInputPlus being installed: the
/// DLL `XInput1_3.dll` and the INI file `XInputPlus.ini`.
pub open spec fn installed_markers() -> (Seq<char>, Seq<char>) {
    ("XInput1_3.dll"@, "XInputPlus.ini"@)
}

/// Both marker files are among the files that setup writes (and that
/// removal deletes): after a setup that wrote every file, XInputPlus counts as
/// installed; after a removal, it does not.
pub proof fn law_markers_are_setup_files()
    ensures
        xinput_files().contains(installed_markers().0),
        xinput_files().contains(installed_markers().1),
        installed_markers().0 == xinput_files()[3],
        installed_markers().1 == xinput_files()[0],
{
    assert(xinput_files()[3] == installed_markers().0);
    assert(xinput_files()[0] == installed_markers().1);
}

/// The two files to look for in the game folder: `XInput1_3.dll` and
/// `XInputPlus.ini`.
pub fn installed_marker_names() -> (r: (String, String))
    ensures
        (r.0@, r.1@) == installed_markers(),
{
    (String::from_str("XInput1_3.dll"), String::from_str("XInputPlus.ini"))
}

/// XInputPlus counts as installed when both marker files exist in the game
/// folder.
pub fn is_xinputplus_installed(dll_exists: bool, ini_exists: bool) -> (r: bool)
    ensures
        r == (dll_exists && ini_exists),
{
    dll_exists && ini_exists
}

/// Why setup did not succeed.
pub enum XInputError {
    /// The game folder does not exist; `folder` is the folder as `Debug` writes it.
    FolderNotFound { folder: String },
    /// Only `installed` of the `total` files could be written.
    Incomplete { installed: usize, total: usize },
}

/// The message of a setup error.
pub open spec fn error_message(e: XInputError) -> Seq<char> {
    match e {
        XInputError::FolderNotFound { folder } => "Game folder not found: "@ + folder@,
        XInputError::Incomplete { installed, total } => "Only "@ + decimal(installed as nat) + " of "@
            + decimal(total as nat) + " files installed"@,
    }
}

impl XInputError {
    /// The message the error carries.
    pub fn message(&self) -> (r: String)
        ensures
            r@ == error_message(*self),
    {
        match self {
            XInputError::FolderNotFound { folder } => concat_text("Game folder not found: ", folder.as_str()),
            XInputError::Incomplete { installed, total } => {
                let mut s = String::from_str("Only ");
                s.append(decimal_text(*installed).as_str());
                s.append(" of ");
                s.append(decimal_text(*total).as_str());
                s.append(" files installed");
                s
            },
        }
    }
}

/// The number of `true` entries of `s`.
pub open spec fn count_true(s: Seq<bool>) -> nat
    decreases s.len(),
{
    if s.len() == 0 {
        0
    } else {
        count_true(s.drop_last()) + if s.last() {
            1nat
        } else {
            0nat
        }
    }
}

proof fn lemma_count_true_le(s: Seq<bool>)
    ensures
        count_true(s) <= s.len(),
    decreases s.len(),
{
    if s.len() > 0 {
        lemma_count_true_le(s.drop_last());
    }
}

/// The outcome of setup once the folder was checked and, where it exists,
/// each file write was tried (`writes[i]` tells whether file `i` was
/// written): the folder must exist and every file must have been written.
pub fn setup_outcome(folder_exists: bool, folder_debug: String, writes: &Vec<bool>) -> (r: Result<
    (),
    XInputError,
>)
    ensures
        match r {
            Ok(()) => folder_exists && count_true(writes@) == xinput_files().len(),
            Err(XInputError::FolderNotFound { folder }) => !folder_exists && folder == folder_debug,
            Err(XInputError::Incomplete { installed, total }) => {
                &&& folder_exists
                &&& installed == count_true(writes@)
                &&& installed != xinput_files().len()
                &&& total == xinput_files().len()
            },
        },
{
    if !folder_exists {
        return Err(XInputError::FolderNotFound { folder: folder_debug });
    }
    let mut count: usize = 0;
    let mut i: usize = 0;
    while i < writes.len()
        invariant
            i <= writes@.len(),
            count == count_true(writes@.subrange(0, i as int)),
        decreases writes@.len() - i,
    {
        proof {
            assert(writes@.subrange(0, i + 1).drop_last() =~= writes@.subrange(0, i as int));
            lemma_count_true_le(writes@.subrange(0, i as int));
        }
        if writes[i] {
            count = count + 1;
        }
        i = i + 1;
    }
    assert(writes@.subrange(0, i as int) =~= writes@);
    if count == 4 {
        Ok(())
    } else {
        Err(XInputError::Incomplete { installed: count, total: 4 })
    }
}

proof fn lemma_count_true_all(s: Seq<bool>)
    requires
        count_true(s) == s.len(),
    ensures
        forall|i: int| 0 <= i < s.len() ==> s[i],
    decreases s.len(),
{
    if s.len() > 0 {
        lemma_count_true_le(s.drop_last());
        lemma_count_true_all(s.drop_last());
        assert forall|i: int| 0 <= i < s.len() implies s[i] by {
            if i < s.len() - 1 {
                assert(s[i] == s.drop_last()[i]);
            }
        }
    }
}

/// After a setup that succeeded, XInputPlus counts as installed. Here
/// `writes[i]` tells whether file `i` of `xinput_files()` was written (as
/// `setup_outcome` receives them; setup succeeds exactly when all were), and
/// `present` holds the names of the files in the game folder, among them
/// every file that was written.
pub proof fn law_installed_after_setup(writes: Seq<bool>, present: Set<Seq<char>>)
    requires
        writes.len() == xinput_files().len(),
        count_true(writes) == xinput_files().len(),
        forall|i: int| 0 <= i < writes.len() && #[trigger] writes[i] ==> present.contains(xinput_files()[i]),
    ensures
        present.contains(installed_markers().0),
        present.contains(installed_markers().1),
{
    lemma_count_true_all(writes);
    assert(writes[3]);
    assert(writes[0]);
    law_markers_are_setup_files();
}

/// After a removal that deleted every XInputPlus file from the game folder
/// (`present` holds the names of the files left there), XInputPlus no longer
/// counts as installed.
pub proof fn law_not_installed_after_removal(present: Set<Seq<char>>)
    requires
        forall|i: int| 0 <= i < xinput_files().len() ==> !present.contains(#[trigger] xinput_files()[i]),
    ensures
        !(present.contains(installed_markers().0) && present.contains(installed_markers().1)),
{
    law_markers_are_setup_files();
    assert(!present.contains(xinput_files()[3]));
}

} // verus!
