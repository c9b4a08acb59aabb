use vstd::prelude::*;

use core::cmp::Ordering;

verus! {

/// One line of the project's file tree.
#[derive(Clone, Debug)]
pub struct TreeEntry {
    /// The file or directory name.
    pub name: String,
    pub is_directory: bool,
    /// How many directories deep the entry lies.
    pub indent_level: usize,
    /// Whether the entry came last among the entries of its directory.
    pub is_last_in_level: bool,
}

/// Whether `s` ends with `suffix`.
pub open spec fn has_suffix(s: Seq<char>, suffix: Seq<char>) -> bool {
    suffix.len() <= s.len() && s.subrange(s.len() - suffix.len(), s.len() as int) == suffix
}

/// A file is listed when it is a `.json` or `.proc` file.
pub open spec fn listed_file(name: Seq<char>) -> bool {
    has_suffix(name, ".json"@) || has_suffix(name, ".proc"@)
}

/// Orders names character by character, by code point; a proper prefix comes first.
pub open spec fn name_order(a: Seq<char>, b: Seq<char>) -> Ordering
    decreases a.len(),
{
    if a.len() == 0 {
        if b.len() == 0 {
            Ordering::Equal
        } else {
            Ordering::Less
        }
    } else if b.len() == 0 {
        Ordering::Greater
    } else if (a[0] as u32) < (b[0] as u32) {
        Ordering::Less
    } else if (a[0] as u32) > (b[0] as u32) {
        Ordering::Greater
    } else {
        name_order(a.drop_first(), b.drop_first())
    }
}

/// Directories come before files; within each group, entries go by name.
pub open spec fn listing_order(a_dir: bool, a: Seq<char>, b_dir: bool, b: Seq<char>) -> Ordering {
    if a_dir && !b_dir {
        Ordering::Less
    } else if !a_dir && b_dir {
        Ordering::Greater
    } else {
        name_order(a, b)
    }
}

/// Whether some directory at depth `level` came last in its own directory.
pub open spec fn closed_level(entries: Seq<TreeEntry>, level: int) -> bool {
    exists|j: int|
        0 <= j < entries.len() && (#[trigger] entries[j]).indent_level == level && entries[j].is_directory
            && entries[j].is_last_in_level
}

/// The indentation before an entry `depth` levels deep: per level, blank
/// when that level is closed, a vertical rule otherwise.
pub open spec fn indent_prefix(entries: Seq<TreeEntry>, depth: nat) -> Seq<char>
    decreases depth,
{
    if depth == 0 {
        Seq::empty()
    } else {
        indent_prefix(entries, (depth - 1) as nat) + if closed_level(entries, depth - 1) {
            "    "@
        } else {
            "│   "@
        }
    }
}

pub open spec fn connector(last: bool) -> Seq<char> {
    if last {
        "└── "@
    } else {
        "├── "@
    }
}

/// The text shown for `e` in the tree made of `entries`; directories end with `/`.
pub open spec fn tree_line(entries: Seq<TreeEntry>, e: TreeEntry) -> Seq<char> {
    indent_prefix(entries, e.indent_level as nat) + connector(e.is_last_in_level) + e.name@ + if e.is_directory {
        "/"@
    } else {
        Seq::empty()
    }
}

/// Whether `s` ends with `suffix`.
pub fn ends_with(s: &str, suffix: &str) -> (r: bool)
    ensures
        r == has_suffix(s@, suffix@),
{
    let n = s.unicode_len();
    let m = suffix.unicode_len();
    if m > n {
        return false;
    }
    let start = n - m;
    let mut i: usize = 0;
    while i < m
        invariant
            n == s@.len(),
            m == suffix@.len(),
            start == n - m,
            0 <= i <= m,
            forall|k: int| 0 <= k < i ==> s@[start + k] == suffix@[k],
        decreases m - i,
    {
        if s.get_char(start + i) != suffix.get_char(i) {
            assert(s@.subrange(start as int, n as int)[i as int] != suffix@[i as int]);
            return false;
        }
        i = i + 1;
    }
    assert(s@.subrange(start as int, n as int) =~= suffix@);
    true
}

/// Whether a file of this name is shown in the tree.
pub fn is_listed_file(name: &String) -> (r: bool)
    ensures
        r == listed_file(name@),
{
    ends_with(name.as_str(), ".json") || ends_with(name.as_str(), ".proc")
}

proof fn lemma_name_order_skip(a: Seq<char>, b: Seq<char>, i: int)
    requires
        0 <= i < a.len(),
        i < b.len(),
    ensures
        a.skip(i).drop_first() == a.skip(i + 1),
        b.skip(i).drop_first() == b.skip(i + 1),
        a.skip(i)[0] == a[i],
        b.skip(i)[0] == b[i],
{
    assert(a.skip(i).drop_first() =~= a.skip(i + 1));
    assert(b.skip(i).drop_first() =~= b.skip(i + 1));
}

/// Compares two names character by character.
pub fn compare_names(a: &String, b: &String) -> (r: Ordering)
    ensures
        r == name_order(a@, b@),
{
    let sa = a.as_str();
    let sb = b.as_str();
    let n = sa.unicode_len();
    let m = sb.unicode_len();
    let mut i: usize = 0;
    assert(a@.skip(0) =~= a@);
    assert(b@.skip(0) =~= b@);
    while i < n && i < m
        invariant
            n == a@.len(),
            m == b@.len(),
            sa@ == a@,
            sb@ == b@,
            0 <= i <= n,
            i <= m,
            name_order(a@, b@) == name_order(a@.skip(i as int), b@.skip(i as int)),
        decreases n - i,
    {
        let ca = sa.get_char(i);
        let cb = sb.get_char(i);
        proof {
            lemma_name_order_skip(a@, b@, i as int);
        }
        if (ca as u32) < (cb as u32) {
            return Ordering::Less;
        } else if (ca as u32) > (cb as u32) {
            return Ordering::Greater;
        }
        i = i + 1;
    }
    if i == n {
        if i == m {
            Ordering::Equal
        } else {
            Ordering::Less
        }
    } else {
        Ordering::Greater
    }
}

/// How two entries of one directory are ordered in the tree.
pub fn compare_entries(a_is_dir: bool, a_name: &String, b_is_dir: bool, b_name: &String) -> (r: Ordering)
    ensures
        r == listing_order(a_is_dir, a_name@, b_is_dir, b_name@),
{
    if a_is_dir && !b_is_dir {
        Ordering::Less
    } else if !a_is_dir && b_is_dir {
        Ordering::Greater
    } else {
        compare_names(a_name, b_name)
    }
}

fn is_closed_level(entries: &Vec<TreeEntry>, level: usize) -> (r: bool)
    ensures
        r == closed_level(entries@, level as int),
{
    let mut j: usize = 0;
    while j < entries.len()
        invariant
            0 <= j <= entries@.len(),
            forall|k: int|
                0 <= k < j ==> !((#[trigger] entries@[k]).indent_level == level && entries@[k].is_directory
                    && entries@[k].is_last_in_level),
        decreases entries@.len() - j,
    {
        let e = &entries[j];
        if e.indent_level == level && e.is_directory && e.is_last_in_level {
            assert(entries@[j as int].indent_level == level);
            return true;
        }
        j = j + 1;
    }
    false
}

/// The text of each entry of the tree, in order.
pub fn tree_lines(entries: &Vec<TreeEntry>) -> (r: Vec<String>)
    ensures
        r@.len() == entries@.len(),
        forall|k: int| 0 <= k < entries@.len() ==> (#[trigger] r@[k])@ == tree_line(entries@, entries@[k]),
{
    let mut lines: Vec<String> = Vec::new();
    let mut k: usize = 0;
    while k < entries.len()
        invariant
            0 <= k <= entries@.len(),
            lines@.len() == k,
            forall|q: int| 0 <= q < k ==> (#[trigger] lines@[q])@ == tree_line(entries@, entries@[q]),
        decreases entries@.len() - k,
    {
        let e = &entries[k];
        let mut line = String::new();
        let mut i: usize = 0;
        while i < e.indent_level
            invariant
                0 <= i <= e.indent_level,
                line@ == indent_prefix(entries@, i as nat),
            decreases e.indent_level - i,
        {
            if is_closed_level(entries, i) {
                line.append("    ");
            } else {
                line.append("│   ");
            }
            i = i + 1;
        }
        if e.is_last_in_level {
            line.append("└── ");
        } else {
            line.append("├── ");
        }
        line.append(e.name.as_str());
        if e.is_directory {
            line.append("/");
        } else {
            assert(line@ + Seq::<char>::empty() =~= line@);
        }
        lines.push(line);
        k = k + 1;
    }
    lines
}

} // verus!
