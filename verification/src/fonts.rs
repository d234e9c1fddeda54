use vstd::prelude::*;

use crate::command::texts;
use crate::text::{contains, contains_text, lowercase, to_lowercase};

verus! {

/// The font files that may be installed into the Wine prefix: MS Gothic, as
/// `msgothic.ttc` and `MS Gothic.ttf`.
pub open spec fn allowed_fonts() -> Seq<Seq<char>> {
    seq!["msgothic.ttc"@, "MS Gothic.ttf"@]
}

/// The most font files installed by one launch.
pub open spec fn max_fonts() -> nat {
    2
}

/// `lower` equals one of `allowed_lower`.
pub open spec fn among(lower: Seq<char>, allowed_lower: Seq<Seq<char>>) -> bool {
    exists|i: int| 0 <= i < allowed_lower.len() && allowed_lower[i] == lower
}

/// A file name is allowed when its lowercase form is that of an allowed name.
pub open spec fn font_allowed(name: Seq<char>) -> bool {
    among(lowercase(name), allowed_fonts().map_values(|a: Seq<char>| lowercase(a)))
}

/// The allowed font names, as written.
pub fn allowed_font_names() -> (r: Vec<String>)
    ensures
        texts(r@) == allowed_fonts(),
{
    let mut v: Vec<String> = Vec::new();
    v.push(String::from_str("msgothic.ttc"));
    v.push(String::from_str("MS Gothic.ttf"));
    assert(texts(v@) =~= allowed_fonts());
    v
}

/// Whether the lowercase file name `lower` equals one of the lowercase
/// allowed names `allowed_lower`.
pub fn is_among(lower: &String, allowed_lower: &Vec<String>) -> (r: bool)
    ensures
        r == among(lower@, texts(allowed_lower@)),
{
    let mut i: usize = 0;
    while i < allowed_lower.len()
        invariant
            i <= allowed_lower@.len(),
            forall|j: int| 0 <= j < i ==> allowed_lower@[j]@ != lower@,
        decreases allowed_lower@.len() - i,
    {
        if allowed_lower[i] == *lower {
            assert(texts(allowed_lower@)[i as int] == lower@);
            return true;
        }
        i = i + 1;
    }
    assert forall|j: int| 0 <= j < texts(allowed_lower@).len() implies texts(allowed_lower@)[j] != lower@ by {
        assert(texts(allowed_lower@)[j] == allowed_lower@[j]@);
    }
    false
}

/// Whether `name` is one of the allowed font files, compared without regard
/// to case (both sides lowercased by `str::to_lowercase`).
pub fn is_allowed_font(name: &str) -> (r: bool)
    ensures
        r == font_allowed(name@),
{
    let lower = to_lowercase(name);
    let allowed = allowed_font_names();
    let mut allowed_lower: Vec<String> = Vec::new();
    let mut i: usize = 0;
    while i < allowed.len()
        invariant
            i <= allowed@.len(),
            texts(allowed@) == allowed_fonts(),
            allowed_lower@.len() == i,
            forall|j: int| 0 <= j < i ==> #[trigger] allowed_lower@[j]@ == lowercase(allowed@[j]@),
        decreases allowed@.len() - i,
    {
        allowed_lower.push(to_lowercase(allowed[i].as_str()));
        i = i + 1;
    }
    assert(texts(allowed_lower@) =~= allowed_fonts().map_values(|a: Seq<char>| lowercase(a))) by {
        assert forall|j: int| 0 <= j < allowed_lower@.len() implies texts(allowed_lower@)[j]
            == allowed_fonts().map_values(|a: Seq<char>| lowercase(a))[j] by {
            assert(allowed_fonts()[j] == texts(allowed@)[j]);
        }
    }
    is_among(&lower, &allowed_lower)
}

/// The registry name under which a font file is registered, chosen by what
/// its lowercase name contains; none for a file of no known family.
pub open spec fn registry_name_for(lower: Seq<char>) -> Option<Seq<char>> {
    if contains_text(lower, "gothic"@) {
        Some("MS Gothic & MS PGothic & MS UI Gothic (TrueType)"@)
    } else if contains_text(lower, "mincho"@) {
        Some("MS Mincho (TrueType)"@)
    } else if contains_text(lower, "meiryo"@) {
        Some("Meiryo (TrueType)"@)
    } else if contains_text(lower, "source"@) || contains_text(lower, "han"@) {
        Some("Source Han Sans (TrueType)"@)
    } else {
        None
    }
}

/// The registry name for the lowercase file name `lower`.
pub fn registry_name_of_lowercase(lower: &str) -> (r: Option<String>)
    ensures
        match r {
            Some(n) => registry_name_for(lower@) == Some(n@),
            None => registry_name_for(lower@) is None,
        },
{
    if contains(lower, "gothic") {
        Some(String::from_str("MS Gothic & MS PGothic & MS UI Gothic (TrueType)"))
    } else if contains(lower, "mincho") {
        Some(String::from_str("MS Mincho (TrueType)"))
    } else if contains(lower, "meiryo") {
        Some(String::from_str("Meiryo (TrueType)"))
    } else if contains(lower, "source") || contains(lower, "han") {
        Some(String::from_str("Source Han Sans (TrueType)"))
    } else {
        None
    }
}

/// The registry name for the font file `file`, by its lowercase name.
pub fn font_registry_name(file: &str) -> (r: Option<String>)
    ensures
        match r {
            Some(n) => registry_name_for(lowercase(file@)) == Some(n@),
            None => registry_name_for(lowercase(file@)) is None,
        },
{
    let lower = to_lowercase(file);
    registry_name_of_lowercase(lower.as_str())
}

/// The first position at or after `from` whose name is allowed, or the
/// length of `names` where there is none.
pub open spec fn first_allowed_from(names: Seq<Seq<char>>, from: int) -> int
    decreases names.len() - from,
{
    if from < 0 || from >= names.len() {
        names.len() as int
    } else if font_allowed(names[from]) {
        from
    } else {
        first_allowed_from(names, from + 1)
    }
}

/// The first position at or after `from` whose name is allowed, or the
/// length of `names` where there is none.
pub fn first_allowed(names: &Vec<String>, from: usize) -> (r: usize)
    ensures
        r as int == first_allowed_from(texts(names@), from as int),
{
    let mut i = from;
    if i > names.len() {
        i = names.len();
    }
    while i < names.len()
        invariant
            from <= i <= names@.len() || (from > names@.len() && i == names@.len()),
            first_allowed_from(texts(names@), from as int) == first_allowed_from(texts(names@), i as int),
        decreases names@.len() - i,
    {
        if is_allowed_font(names[i].as_str()) {
            assert(texts(names@)[i as int] == names@[i as int]@);
            return i;
        }
        assert(texts(names@)[i as int] == names@[i as int]@);
        i = i + 1;
    }
    i
}

/// The first position at or after `from` whose file has a registry name, or
/// the length of `files` where there is none.
pub open spec fn first_registrable_from(files: Seq<Seq<char>>, from: int) -> int
    decreases files.len() - from,
{
    if from < 0 || from >= files.len() {
        files.len() as int
    } else if registry_name_for(lowercase(files[from])) is Some {
        from
    } else {
        first_registrable_from(files, from + 1)
    }
}

/// The first position at or after `from` whose file has a registry name, or
/// the length of `files` where there is none.
pub fn first_registrable(files: &Vec<String>, from: usize) -> (r: usize)
    ensures
        r as int == first_registrable_from(texts(files@), from as int),
{
    let mut i = from;
    if i > files.len() {
        i = files.len();
    }
    while i < files.len()
        invariant
            from <= i <= files@.len() || (from > files@.len() && i == files@.len()),
            first_registrable_from(texts(files@), from as int) == first_registrable_from(
                texts(files@),
                i as int,
            ),
        decreases files@.len() - i,
    {
        assert(texts(files@)[i as int] == files@[i as int]@);
        if font_registry_name(files[i].as_str()).is_some() {
            return i;
        }
        i = i + 1;
    }
    i
}

} // verus!
