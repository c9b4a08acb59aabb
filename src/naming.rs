use vstd::prelude::*;

verus! {

/// Whether `c` is alphabetic or numeric in the Unicode sense.
pub uninterp spec fn alphanumeric(c: char) -> bool;

/// Relies on `char::is_alphanumeric`: true when the character has the Unicode
/// `Alphabetic` or `Numeric` property, which depends on the character alone.
#[verifier::external_body]
fn is_alphanumeric(c: char) -> (r: bool)
    ensures
        r == alphanumeric(c),
{
    c.is_alphanumeric()
}

pub open spec fn spaces_message() -> Seq<char> {
    "Project name cannot contain spaces"@
}

pub open spec fn characters_message() -> Seq<char> {
    "Project name can only contain letters, numbers, underscores and hyphens"@
}

pub open spec fn empty_message() -> Seq<char> {
    "Project name cannot be empty"@
}

/// A character may stand in a project name when it is alphanumeric
/// (`alnum`), an underscore or a hyphen.
pub open spec fn allowed_in_name(c: char, alnum: bool) -> bool {
    alnum || c == '_' || c == '-'
}

/// What is wrong with `name`, given for each of its characters whether it is
/// alphanumeric: spaces are reported first, then other characters that are
/// not allowed, then emptiness.
pub open spec fn name_error_given(name: Seq<char>, alnum: Seq<bool>) -> Option<Seq<char>> {
    if name.contains(' ') {
        Some(spaces_message())
    } else if exists|i: int| 0 <= i < name.len() && !allowed_in_name(name[i], #[trigger] alnum[i]) {
        Some(characters_message())
    } else if name.len() == 0 {
        Some(empty_message())
    } else {
        None
    }
}

pub open spec fn alnum_flags(name: Seq<char>) -> Seq<bool> {
    Seq::new(name.len(), |i: int| alphanumeric(name[i]))
}

/// What is wrong with `name` as a project name, if anything.
pub open spec fn name_error(name: Seq<char>) -> Option<Seq<char>> {
    name_error_given(name, alnum_flags(name))
}

/// The validation message for `name`, where `alnum[i]` tells whether the
/// `i`-th character of `name` is alphanumeric.
pub fn name_error_for(name: &String, alnum: &Vec<bool>) -> (r: Option<String>)
    requires
        alnum@.len() == name@.len(),
    ensures
        r.deep_view() == name_error_given(name@, alnum@),
{
    let s = name.as_str();
    let n = s.unicode_len();
    let mut has_space = false;
    let mut bad: Option<usize> = None;
    let mut i: usize = 0;
    while i < n
        invariant
            n == name@.len(),
            s@ == name@,
            alnum@.len() == n,
            0 <= i <= n,
            has_space <==> exists|j: int| 0 <= j < i && name@[j] == ' ',
            match bad {
                Some(j) => j < i && !allowed_in_name(name@[j as int], alnum@[j as int]),
                None => forall|j: int| 0 <= j < i ==> allowed_in_name(name@[j], #[trigger] alnum@[j]),
            },
        decreases n - i,
    {
        let c = s.get_char(i);
        if c == ' ' {
            has_space = true;
        }
        if bad.is_none() && !(alnum[i] || c == '_' || c == '-') {
            bad = Some(i);
        }
        i = i + 1;
    }
    if has_space {
        assert(name@.contains(' '));
        Some(String::from_str("Project name cannot contain spaces"))
    } else if bad.is_some() {
        let j = bad.unwrap();
        assert(!allowed_in_name(name@[j as int], alnum@[j as int]));
        Some(String::from_str("Project name can only contain letters, numbers, underscores and hyphens"))
    } else if n == 0 {
        Some(String::from_str("Project name cannot be empty"))
    } else {
        None
    }
}

/// The validation message for `name` as a project name, if it is not a valid one.
pub fn validate_project_name(name: &String) -> (r: Option<String>)
    ensures
        r.deep_view() == name_error(name@),
{
    let s = name.as_str();
    let n = s.unicode_len();
    let mut alnum: Vec<bool> = Vec::new();
    let mut i: usize = 0;
    while i < n
        invariant
            n == name@.len(),
            s@ == name@,
            0 <= i <= n,
            alnum@ == alnum_flags(name@).take(i as int),
        decreases n - i,
    {
        let c = s.get_char(i);
        alnum.push(is_alphanumeric(c));
        i = i + 1;
        assert(alnum@ =~= alnum_flags(name@).take(i as int));
    }
    assert(alnum@ =~= alnum_flags(name@));
    name_error_for(name, &alnum)
}

} // verus!
