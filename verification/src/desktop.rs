//! Sorting the items of the desktop into start-menu categories.

use vstd::prelude::*;
use crate::category::{Category, folder_entries, folder_table, lookup, table_view};
use crate::index::ExeIndex;
use crate::text::{
    lacks_char, law_extension_after_last_dot,
    ascii_fold, ascii_lower, eq_ignore_ascii_case_seq, is_ascii_seq, contains_seq, extension_of, file_extension, file_stem, file_stem_of, lowercase, str_contains,
    to_lowercase,
};

verus! {

/// Whether a desktop file name is a shortcut: its lowercased extension is `lnk`.
pub open spec fn is_desktop_shortcut_name(name: Seq<char>) -> bool {
    match extension_of(name) {
        Some(e) => lowercase(e) == "lnk"@,
        None => false,
    }
}

/// Whether the desktop file `file_name` is a shortcut. For an ASCII
/// extension this is the same as `lnk` in any ASCII case.
pub fn is_desktop_shortcut(file_name: &str) -> (b: bool)
    ensures
        b == is_desktop_shortcut_name(file_name@),
        extension_of(file_name@) matches Some(e) ==> (is_ascii_seq(e) ==> (b
            <==> eq_ignore_ascii_case_seq(e, "lnk"@))),
{
    match file_extension(file_name) {
        Some(e) => {
            let lower = to_lowercase(e.as_str());
            let lnk = "lnk".to_owned();
            proof {
                if is_ascii_seq(e@) {
                    lemma_ascii_lower_matches_fold(e@, "lnk"@);
                }
            }
            lower == lnk
        },
        None => false,
    }
}

/// For an ASCII string `s` and a target `t` made of lowercase ASCII letters,
/// lower-casing `s` gives `t` exactly when `s` and `t` are equal ignoring
/// ASCII case.
proof fn lemma_ascii_lower_matches_fold(s: Seq<char>, t: Seq<char>)
    requires
        is_ascii_seq(s),
        t == "lnk"@,
    ensures
        (s.map_values(|c: char| ascii_lower(c)) == t) <==> eq_ignore_ascii_case_seq(s, t),
{
    reveal_strlit("lnk");
    assert(t =~= seq!['l', 'n', 'k']);
    let m = s.map_values(|c: char| ascii_lower(c));
    if m == t {
        assert forall|i: int| 0 <= i < s.len() implies ascii_fold(s[i]) == ascii_fold(t[i]) by {
            assert(m[i] == ascii_lower(s[i]));
        }
    }
    if eq_ignore_ascii_case_seq(s, t) {
        assert forall|i: int| 0 <= i < s.len() implies m[i] == t[i] by {
            assert(ascii_fold(s[i]) == ascii_fold(t[i]));
            assert((s[i] as u32) < 128);
        }
        assert(m =~= t);
    }
}

/// Whether a program stem and a (lowercased) folder name contain one another.
pub open spec fn keyword_match(stem: Seq<char>, folder: Seq<char>) -> bool {
    contains_seq(stem, folder) || contains_seq(folder, stem)
}

/// The category of the first table entry whose lowercased folder name and
/// `stem` contain one another.
pub open spec fn keyword_category(t: Seq<(Seq<char>, Category)>, stem: Seq<char>) -> Option<
    Category,
>
    decreases t.len(),
{
    if t.len() == 0 {
        None
    } else if keyword_match(stem, lowercase(t[0].0)) {
        Some(t[0].1)
    } else {
        keyword_category(t.drop_first(), stem)
    }
}

/// The category label of a desktop shortcut to the program `exe`: the
/// index's category for its lowercase name, else that of the first folder
/// whose name matches the program's stem, else `Other`.
pub open spec fn shortcut_label(index: Map<Seq<char>, Category>, exe: Seq<char>) -> Seq<char> {
    let lower = lowercase(exe);
    match lookup(index, lower) {
        Some(c) => c.label(),
        None => match file_stem_of(lower) {
            Some(stem) => match keyword_category(folder_table(), stem) {
                Some(c) => c.label(),
                None => Category::Other.label(),
            },
            None => Category::Other.label(),
        },
    }
}

/// The label of the group of non-shortcut desktop files.
pub open spec fn file_label() -> Seq<char> {
    "文件"@
}

/// The category label of a desktop item named `name` whose shortcut target,
/// when it is a shortcut and the target could be read, is `target`.
pub open spec fn desktop_label(
    index: Map<Seq<char>, Category>,
    name: Seq<char>,
    target: Option<Seq<char>>,
) -> Seq<char> {
    if is_desktop_shortcut_name(name) {
        match target {
            Some(exe) => shortcut_label(index, exe),
            None => Category::Other.label(),
        }
    } else {
        file_label()
    }
}

/// The view of an optional string.
pub open spec fn opt_view(s: Option<String>) -> Option<Seq<char>> {
    match s {
        Some(t) => Some(t@),
        None => None,
    }
}

fn match_keyword(stem: &str) -> (r: Option<Category>)
    ensures
        r == keyword_category(folder_table(), stem@),
{
    let entries = folder_entries();
    let n = entries.len();
    let mut i: usize = 0;
    proof {
        assert(folder_table().skip(0) == folder_table());
    }
    while i < n
        invariant
            n == entries@.len(),
            i <= n,
            table_view(entries@) == folder_table(),
            keyword_category(folder_table(), stem@) == keyword_category(
                folder_table().skip(i as int),
                stem@,
            ),
        decreases n - i,
    {
        let (folder, cat) = entries[i];
        proof {
            assert(folder_table()[i as int] == (folder@, cat));
            assert(folder_table().skip(i as int)[0] == (folder@, cat));
            assert(folder_table().skip(i as int).drop_first() == folder_table().skip(i + 1));
        }
        let folder_lower = to_lowercase(folder);
        if str_contains(stem, folder_lower.as_str()) || str_contains(folder_lower.as_str(), stem) {
            return Some(cat);
        }
        i = i + 1;
    }
    None
}

/// The category of a desktop shortcut to the program `exe`.
pub fn categorize_shortcut_target(exe: &str, index: &ExeIndex) -> (label: String)
    ensures
        label@ == shortcut_label(index@, exe@),
{
    let lower = to_lowercase(exe);
    match index.get(lower.as_str()) {
        Some(c) => c.name(),
        None => match file_stem(lower.as_str()) {
            Some(stem) => match match_keyword(stem.as_str()) {
                Some(c) => c.name(),
                None => Category::Other.name(),
            },
            None => Category::Other.name(),
        },
    }
}

/// The category of the desktop item `file_name`: for a shortcut, the
/// category of the program it points to (`target_exe`, when it could be
/// read); `文件` for anything else.
pub fn categorize_desktop_item(file_name: &str, target_exe: Option<String>, index: &ExeIndex) -> (label: String)
    ensures
        label@ == desktop_label(index@, file_name@, opt_view(target_exe)),
{
    if is_desktop_shortcut(file_name) {
        match target_exe {
            Some(exe) => categorize_shortcut_target(exe.as_str(), index),
            None => Category::Other.name(),
        }
    } else {
        "文件".to_owned()
    }
}


/// Whether `label` names a start-menu category or the group of plain files.
pub open spec fn is_known_label(label: Seq<char>) -> bool {
    label == file_label() || exists|c: Category| label == #[trigger] c.label()
}

/// Every desktop item lands in one of the eight categories or among the
/// plain files.
pub proof fn law_desktop_label_is_known(
    index: Map<Seq<char>, Category>,
    name: Seq<char>,
    target: Option<Seq<char>>,
)
    ensures
        is_known_label(desktop_label(index, name, target)),
{
    if is_desktop_shortcut_name(name) {
        match target {
            Some(exe) => {
                let lower = lowercase(exe);
                match lookup(index, lower) {
                    Some(c) => {
                        assert(desktop_label(index, name, target) == c.label());
                    },
                    None => match file_stem_of(lower) {
                        Some(stem) => match keyword_category(folder_table(), stem) {
                            Some(c) => {
                                assert(desktop_label(index, name, target) == c.label());
                            },
                            None => {
                                assert(desktop_label(index, name, target)
                                    == Category::Other.label());
                            },
                        },
                        None => {
                            assert(desktop_label(index, name, target) == Category::Other.label());
                        },
                    },
                }
            },
            None => {
                assert(desktop_label(index, name, target) == Category::Other.label());
            },
        }
    }
}

/// A desktop item that is not a shortcut is a plain file, whatever else is known of it.
pub proof fn law_non_shortcut_is_file(
    index: Map<Seq<char>, Category>,
    name: Seq<char>,
    target: Option<Seq<char>>,
)
    requires
        !is_desktop_shortcut_name(name),
    ensures
        desktop_label(index, name, target) == file_label(),
{
}

/// A shortcut whose target cannot be read, and one to a program that
/// neither the index nor the folder names know, is filed under `Other`.
pub proof fn law_unknown_shortcut_is_other(
    index: Map<Seq<char>, Category>,
    name: Seq<char>,
    target: Option<Seq<char>>,
)
    requires
        is_desktop_shortcut_name(name),
        match target {
            Some(exe) => lookup(index, lowercase(exe)) is None && match file_stem_of(
                lowercase(exe),
            ) {
                Some(stem) => keyword_category(folder_table(), stem) is None,
                None => true,
            },
            None => true,
        },
    ensures
        desktop_label(index, name, target) == Category::Other.label(),
{
}

/// A shortcut to a program that the index files gets the index's category,
/// whatever the folder names would say.
pub proof fn law_index_decides_first(
    index: Map<Seq<char>, Category>,
    name: Seq<char>,
    exe: Seq<char>,
    c: Category,
)
    requires
        is_desktop_shortcut_name(name),
        lookup(index, lowercase(exe)) == Some(c),
    ensures
        desktop_label(index, name, Some(exe)) == c.label(),
{
}


/// Where the item is not a shortcut, or the target of the shortcut cannot be
/// read, the index is not consulted: any index gives the same category.
pub proof fn law_index_only_for_readable_shortcuts(
    index1: Map<Seq<char>, Category>,
    index2: Map<Seq<char>, Category>,
    name: Seq<char>,
)
    ensures
        desktop_label(index1, name, None) == desktop_label(index2, name, None),
{
}


/// Whether the lowercased `folder` name and `stem` contain one another, in
/// either direction.
pub open spec fn names_overlap(stem: Seq<char>, folder: Seq<char>) -> bool {
    contains_seq(stem, lowercase(folder)) || contains_seq(lowercase(folder), stem)
}

/// The keyword search takes the first table entry whose lowercased folder
/// name occurs in the stem or contains it, however short either is.
pub proof fn law_keyword_search_takes_first_overlap(
    t: Seq<(Seq<char>, Category)>,
    stem: Seq<char>,
    i: int,
)
    requires
        0 <= i < t.len(),
        names_overlap(stem, t[i].0),
        forall|j: int| 0 <= j < i ==> !names_overlap(stem, #[trigger] t[j].0),
    ensures
        keyword_category(t, stem) == Some(t[i].1),
    decreases i,
{
    if i > 0 {
        assert(!names_overlap(stem, t[0].0));
        let r = t.drop_first();
        assert forall|j: int| 0 <= j < i - 1 implies !names_overlap(stem, #[trigger] r[j].0) by {
            assert(r[j] == t[j + 1]);
        }
        law_keyword_search_takes_first_overlap(r, stem, i - 1);
    }
}

/// The keyword search finds nothing only when no folder name of the table
/// overlaps the stem.
pub proof fn law_keyword_search_fails_only_without_overlap(
    t: Seq<(Seq<char>, Category)>,
    stem: Seq<char>,
)
    ensures
        keyword_category(t, stem) is None <==> forall|j: int|
            0 <= j < t.len() ==> !names_overlap(stem, #[trigger] t[j].0),
    decreases t.len(),
{
    if t.len() > 0 {
        let r = t.drop_first();
        law_keyword_search_fails_only_without_overlap(r, stem);
        if forall|j: int| 0 <= j < t.len() ==> !names_overlap(stem, #[trigger] t[j].0) {
            assert forall|j: int| 0 <= j < r.len() implies !names_overlap(stem, #[trigger] r[j].0) by {
                assert(r[j] == t[j + 1]);
            }
        } else {
            let w = choose|j: int| 0 <= j < t.len() && names_overlap(stem, #[trigger] t[j].0);
            if w > 0 && !names_overlap(stem, t[0].0) {
                assert(r[w - 1] == t[w]);
            }
        }
    }
}

/// A desktop shortcut to a program that the index does not file gets the
/// category of the first table folder whose lowercased name occurs in the
/// program's stem or contains it.
pub proof fn law_shortcut_takes_first_folder_overlap(
    index: Map<Seq<char>, Category>,
    exe: Seq<char>,
    stem: Seq<char>,
    i: int,
)
    requires
        lookup(index, lowercase(exe)) is None,
        file_stem_of(lowercase(exe)) == Some(stem),
        0 <= i < folder_table().len(),
        names_overlap(stem, folder_table()[i].0),
        forall|j: int| 0 <= j < i ==> !names_overlap(stem, #[trigger] folder_table()[j].0),
    ensures
        shortcut_label(index, exe) == folder_table()[i].1.label(),
{
    law_keyword_search_takes_first_overlap(folder_table(), stem, i);
}


/// A desktop file is a shortcut exactly when the text after its last dot,
/// lowercased, is `lnk` (for a name with a non-empty part before that dot).
pub proof fn law_desktop_shortcut_by_extension(n: Seq<char>, e: Seq<char>)
    requires
        n.len() > 0,
        lacks_char(e, '.'),
        !(n == seq!['.'] && e.len() == 0),
    ensures
        is_desktop_shortcut_name(n + seq!['.'] + e) <==> lowercase(e) == "lnk"@,
{
    law_extension_after_last_dot(n, e);
}

} // verus!
