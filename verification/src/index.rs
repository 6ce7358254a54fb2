//! The index from executable names to start-menu categories, built from a
//! scan of the start-menu `Programs` directories.

use vstd::prelude::*;
use vstd::hash_map::StringHashMap;
use crate::category::{
    folder_table, law_folder_map_domain, law_folder_map_last_entry_wins,
    Category, FolderMap, fallback_entries, fallback_table, folder_map, folder_to_category, lookup,
    table_view,
};
use crate::text::{
    lacks_char, law_extension_after_last_dot, eq_ignore_ascii_case, eq_ignore_ascii_case_seq, extension_of, file_extension, lowercase,
    to_lowercase,
};

verus! {

/// An entry of a start-menu sub-folder, as the scan found it.
pub struct StartMenuShortcut {
    /// The entry's file name.
    pub file_name: String,
    /// For a shortcut, the file name of the program it points to, when that
    /// could be read from the shortcut.
    pub target_exe: Option<String>,
}

/// An entry of a start-menu `Programs` directory, as the scan found it.
pub struct StartMenuEntry {
    /// The entry's file name.
    pub file_name: String,
    /// Whether the entry is a directory.
    pub is_dir: bool,
    /// For a shortcut, the file name of the program it points to, when that
    /// could be read from the shortcut.
    pub target_exe: Option<String>,
    /// For a directory, its own entries, in the order they were read.
    pub children: Vec<StartMenuShortcut>,
}

/// Whether a start-menu file name is a shortcut: its extension is `lnk` in
/// any ASCII case.
pub open spec fn is_start_menu_shortcut_name(name: Seq<char>) -> bool {
    match extension_of(name) {
        Some(e) => eq_ignore_ascii_case_seq(e, "lnk"@),
        None => false,
    }
}

/// Whether the start-menu file `file_name` is a shortcut.
pub fn is_start_menu_shortcut(file_name: &str) -> (b: bool)
    ensures
        b == is_start_menu_shortcut_name(file_name@),
{
    match file_extension(file_name) {
        Some(e) => eq_ignore_ascii_case(e.as_str(), "lnk"),
        None => false,
    }
}

/// The index `m` after the shortcuts among `children` are filed, in order,
/// under `cat`, each by the lowercase name of its target.
pub open spec fn add_shortcuts(
    m: Map<Seq<char>, Category>,
    children: Seq<StartMenuShortcut>,
    cat: Category,
) -> Map<Seq<char>, Category>
    decreases children.len(),
{
    if children.len() == 0 {
        m
    } else {
        let before = add_shortcuts(m, children.drop_last(), cat);
        let c = children.last();
        if is_start_menu_shortcut_name(c.file_name@) && c.target_exe is Some {
            before.insert(lowercase(c.target_exe->0@), cat)
        } else {
            before
        }
    }
}

/// The category of the programs in the start-menu folder `name`: the
/// folder map's, and `Other` for a folder it does not know.
pub open spec fn folder_category(name: Seq<char>) -> Category {
    match lookup(folder_map(), name) {
        Some(c) => c,
        None => Category::Other,
    }
}

/// The index `m` after the entry `e` of a `Programs` directory is filed: a
/// shortcut there files its target under `Other`; a folder files the
/// shortcuts in it under the folder's category; anything else is ignored.
pub open spec fn add_entry(m: Map<Seq<char>, Category>, e: StartMenuEntry) -> Map<
    Seq<char>,
    Category,
> {
    if is_start_menu_shortcut_name(e.file_name@) {
        match e.target_exe {
            Some(t) => m.insert(lowercase(t@), Category::Other),
            None => m,
        }
    } else if e.is_dir {
        add_shortcuts(m, e.children@, folder_category(e.file_name@))
    } else {
        m
    }
}

/// The index built from the scanned entries, filed in order.
pub open spec fn scanned_index(entries: Seq<StartMenuEntry>) -> Map<Seq<char>, Category>
    decreases entries.len(),
{
    if entries.len() == 0 {
        Map::empty()
    } else {
        add_entry(scanned_index(entries.drop_last()), entries.last())
    }
}

/// The index `m` after the entries of `t` are added, in order, for the
/// names it does not hold yet.
pub open spec fn add_fallbacks(m: Map<Seq<char>, Category>, t: Seq<(Seq<char>, Category)>) -> Map<
    Seq<char>,
    Category,
>
    decreases t.len(),
{
    if t.len() == 0 {
        m
    } else {
        let before = add_fallbacks(m, t.drop_last());
        if before.contains_key(t.last().0) {
            before
        } else {
            before.insert(t.last().0, t.last().1)
        }
    }
}

/// The full index: the scanned one, completed by the fallback table.
pub open spec fn exe_index(entries: Seq<StartMenuEntry>) -> Map<Seq<char>, Category> {
    add_fallbacks(scanned_index(entries), fallback_table())
}

/// The index from lowercase executable names to start-menu categories.
pub struct ExeIndex {
    map: StringHashMap<Category>,
}

impl View for ExeIndex {
    type V = Map<Seq<char>, Category>;

    closed spec fn view(&self) -> Map<Seq<char>, Category> {
        self.map@
    }
}

impl ExeIndex {
    /// An index that files no program.
    pub fn empty() -> (index: ExeIndex)
        ensures
            index@ == Map::<Seq<char>, Category>::empty(),
    {
        ExeIndex { map: StringHashMap::new() }
    }

    /// The category filed for the executable name `exe`, if any.
    pub fn get(&self, exe: &str) -> (r: Option<Category>)
        ensures
            r == lookup(self@, exe@),
    {
        match self.map.get(exe) {
            Some(c) => Some(*c),
            None => None,
        }
    }

    /// The number of executable names in the index.
    pub fn len(&self) -> (n: usize)
        ensures
            n == self@.len(),
    {
        self.map.len()
    }
}

fn add_children(
    map: &mut StringHashMap<Category>,
    children: &Vec<StartMenuShortcut>,
    cat: Category,
)
    ensures
        final(map)@ == add_shortcuts(old(map)@, children@, cat),
{
    let ghost start = map@;
    let n = children.len();
    let mut i: usize = 0;
    while i < n
        invariant
            n == children@.len(),
            i <= n,
            map@ == add_shortcuts(start, children@.take(i as int), cat),
        decreases n - i,
    {
        let c = &children[i];
        proof {
            assert(children@.take(i + 1).drop_last() == children@.take(i as int));
            assert(children@.take(i + 1).last() == *c);
        }
        if is_start_menu_shortcut(c.file_name.as_str()) {
            match &c.target_exe {
                Some(t) => {
                    map.insert(to_lowercase(t.as_str()), cat);
                },
                None => {},
            }
        }
        i = i + 1;
    }
    proof {
        assert(children@.take(n as int) == children@);
    }
}

fn add_scanned_entry(map: &mut StringHashMap<Category>, e: &StartMenuEntry, folders: &FolderMap)
    requires
        folders@ == folder_map(),
    ensures
        final(map)@ == add_entry(old(map)@, *e),
{
    if is_start_menu_shortcut(e.file_name.as_str()) {
        match &e.target_exe {
            Some(t) => {
                map.insert(to_lowercase(t.as_str()), Category::Other);
            },
            None => {},
        }
    } else if e.is_dir {
        let cat = match folders.get(e.file_name.as_str()) {
            Some(c) => c,
            None => Category::Other,
        };
        add_children(map, &e.children, cat);
    }
}

/// Builds the index from a scan of the start-menu `Programs` directories:
/// each entry is filed in order (a later shortcut for the same program wins),
/// then the fallback table adds the programs the scan did not file.
pub fn build_exe_index(entries: &Vec<StartMenuEntry>) -> (index: ExeIndex)
    ensures
        index@ == exe_index(entries@),
{
    let folders = folder_to_category();
    let mut map: StringHashMap<Category> = StringHashMap::new();
    let n = entries.len();
    let mut i: usize = 0;
    while i < n
        invariant
            n == entries@.len(),
            i <= n,
            folders@ == folder_map(),
            map@ == scanned_index(entries@.take(i as int)),
        decreases n - i,
    {
        proof {
            assert(entries@.take(i + 1).drop_last() == entries@.take(i as int));
        }
        add_scanned_entry(&mut map, &entries[i], &folders);
        i = i + 1;
    }
    proof {
        assert(entries@.take(n as int) == entries@);
    }
    let ghost scanned = map@;
    let fallbacks = fallback_entries();
    let m = fallbacks.len();
    let mut k: usize = 0;
    while k < m
        invariant
            m == fallbacks@.len(),
            k <= m,
            table_view(fallbacks@) == fallback_table(),
            map@ == add_fallbacks(scanned, fallback_table().take(k as int)),
        decreases m - k,
    {
        let (exe, cat) = fallbacks[k];
        proof {
            assert(fallback_table()[k as int] == (exe@, cat));
            assert(fallback_table().take(k + 1).drop_last() == fallback_table().take(k as int));
        }
        if !map.contains_key(exe) {
            map.insert(exe.to_owned(), cat);
        }
        k = k + 1;
    }
    proof {
        assert(fallback_table().take(m as int) == fallback_table());
    }
    ExeIndex { map }
}


/// What `add_fallbacks` does to a name: it is held afterwards exactly when
/// it was held before or some entry names it, and a name held before keeps
/// its category.
pub proof fn lemma_add_fallbacks(
    m: Map<Seq<char>, Category>,
    t: Seq<(Seq<char>, Category)>,
    k: Seq<char>,
)
    ensures
        add_fallbacks(m, t).contains_key(k) <==> (m.contains_key(k) || exists|i: int|
            0 <= i < t.len() && #[trigger] t[i].0 == k),
        m.contains_key(k) ==> add_fallbacks(m, t)[k] == m[k],
    decreases t.len(),
{
    if t.len() > 0 {
        let s = t.drop_last();
        lemma_add_fallbacks(m, s, k);
        if exists|i: int| 0 <= i < t.len() && #[trigger] t[i].0 == k {
            let w = choose|i: int| 0 <= i < t.len() && #[trigger] t[i].0 == k;
            if w < s.len() {
                assert(s[w].0 == k);
            }
        }
        if exists|i: int| 0 <= i < s.len() && #[trigger] s[i].0 == k {
            let w = choose|i: int| 0 <= i < s.len() && #[trigger] s[i].0 == k;
            assert(t[w].0 == k);
        }
    }
}

/// The fallback table never overrides what the scan filed: a program the
/// scan filed keeps the scanned category in the full index.
pub proof fn law_scan_wins_over_fallback(entries: Seq<StartMenuEntry>, exe: Seq<char>)
    requires
        scanned_index(entries).contains_key(exe),
    ensures
        lookup(exe_index(entries), exe) == Some(scanned_index(entries)[exe]),
{
    lemma_add_fallbacks(scanned_index(entries), fallback_table(), exe);
}

/// The full index holds exactly the programs the scan filed and those of the
/// fallback table.
pub proof fn law_index_domain(entries: Seq<StartMenuEntry>, exe: Seq<char>)
    ensures
        exe_index(entries).contains_key(exe) <==> (scanned_index(entries).contains_key(exe)
            || exists|i: int| 0 <= i < fallback_table().len() && #[trigger] fallback_table()[i].0 == exe),
{
    lemma_add_fallbacks(scanned_index(entries), fallback_table(), exe);
}

/// A program of the fallback table that the scan did not file gets the
/// category of its first fallback entry.
pub proof fn law_fallback_fills_gaps(entries: Seq<StartMenuEntry>, i: int)
    requires
        0 <= i < fallback_table().len(),
        !scanned_index(entries).contains_key(fallback_table()[i].0),
        forall|j: int| 0 <= j < i ==> fallback_table()[j].0 != fallback_table()[i].0,
    ensures
        lookup(exe_index(entries), fallback_table()[i].0) == Some(fallback_table()[i].1),
{
    lemma_add_fallbacks_first(scanned_index(entries), fallback_table(), i);
}

/// An entry whose name is in neither the starting map nor an earlier entry
/// is what `add_fallbacks` files for that name.
pub proof fn lemma_add_fallbacks_first(
    m: Map<Seq<char>, Category>,
    t: Seq<(Seq<char>, Category)>,
    i: int,
)
    requires
        0 <= i < t.len(),
        !m.contains_key(t[i].0),
        forall|j: int| 0 <= j < i ==> t[j].0 != t[i].0,
    ensures
        add_fallbacks(m, t).contains_key(t[i].0),
        add_fallbacks(m, t)[t[i].0] == t[i].1,
    decreases t.len(),
{
    let s = t.drop_last();
    if i < t.len() - 1 {
        lemma_add_fallbacks_first(m, s, i);
    } else {
        lemma_add_fallbacks(m, s, t[i].0);
        if exists|j: int| 0 <= j < s.len() && #[trigger] s[j].0 == t[i].0 {
            let w = choose|j: int| 0 <= j < s.len() && #[trigger] s[j].0 == t[i].0;
            assert(t[w].0 == t[i].0);
        }
    }
}


/// A shortcut filed last wins: when the scan ends with a shortcut in a
/// `Programs` directory whose target could be read, its program is filed
/// under `Other`, whatever earlier entries and the fallback table say.
pub proof fn law_last_root_shortcut_wins(entries: Seq<StartMenuEntry>, target: String)
    requires
        entries.len() > 0,
        is_start_menu_shortcut_name(entries.last().file_name@),
        entries.last().target_exe == Some(target),
    ensures
        lookup(exe_index(entries), lowercase(target@)) == Some(Category::Other),
{
    law_scan_wins_over_fallback(entries, lowercase(target@));
}

/// The same for a shortcut that is the last entry of the last folder of the
/// scan: its program is filed under the folder's category.
pub proof fn law_last_folder_shortcut_wins(entries: Seq<StartMenuEntry>, target: String)
    requires
        entries.len() > 0,
        !is_start_menu_shortcut_name(entries.last().file_name@),
        entries.last().is_dir,
        entries.last().children@.len() > 0,
        is_start_menu_shortcut_name(entries.last().children@.last().file_name@),
        entries.last().children@.last().target_exe == Some(target),
    ensures
        lookup(exe_index(entries), lowercase(target@)) == Some(
            folder_category(entries.last().file_name@),
        ),
{
    law_scan_wins_over_fallback(entries, lowercase(target@));
}


/// Whether the folder entry `c` is a shortcut whose target, lowercased, is `key`.
pub open spec fn files_key(c: StartMenuShortcut, key: Seq<char>) -> bool {
    is_start_menu_shortcut_name(c.file_name@) && c.target_exe is Some && lowercase(
        c.target_exe->0@,
    ) == key
}

/// Every shortcut in a folder is filed, not only the last one: a shortcut
/// child with a readable target files its lowercase target under the
/// folder's category, unless a later child of the folder files the same
/// name again.
pub proof fn law_every_folder_shortcut_filed(
    m: Map<Seq<char>, Category>,
    children: Seq<StartMenuShortcut>,
    cat: Category,
    i: int,
)
    requires
        0 <= i < children.len(),
        is_start_menu_shortcut_name(children[i].file_name@),
        children[i].target_exe is Some,
        forall|j: int|
            i < j < children.len() ==> !files_key(
                #[trigger] children[j],
                lowercase(children[i].target_exe->0@),
            ),
    ensures
        lookup(add_shortcuts(m, children, cat), lowercase(children[i].target_exe->0@)) == Some(
            cat,
        ),
    decreases children.len(),
{
    let key = lowercase(children[i].target_exe->0@);
    if i < children.len() - 1 {
        let s = children.drop_last();
        assert(s[i] == children[i]);
        assert forall|j: int| i < j < s.len() implies !files_key(#[trigger] s[j], key) by {
            assert(s[j] == children[j]);
        }
        law_every_folder_shortcut_filed(m, s, cat, i);
        assert(!files_key(children[children.len() - 1], key));
    }
}

/// Filing a folder adds exactly the lowercase targets of its shortcuts,
/// each under the folder's category; names filed before are otherwise kept.
pub proof fn law_folder_files_exactly_its_shortcuts(
    m: Map<Seq<char>, Category>,
    children: Seq<StartMenuShortcut>,
    cat: Category,
    key: Seq<char>,
)
    ensures
        add_shortcuts(m, children, cat).contains_key(key) <==> (m.contains_key(key) || exists|j: int|
            0 <= j < children.len() && files_key(#[trigger] children[j], key)),
        (exists|j: int| 0 <= j < children.len() && files_key(#[trigger] children[j], key))
            ==> add_shortcuts(m, children, cat)[key] == cat,
        !(exists|j: int| 0 <= j < children.len() && files_key(#[trigger] children[j], key))
            ==> lookup(add_shortcuts(m, children, cat), key) == lookup(m, key),
    decreases children.len(),
{
    if children.len() > 0 {
        let s = children.drop_last();
        law_folder_files_exactly_its_shortcuts(m, s, cat, key);
        if exists|j: int| 0 <= j < children.len() && files_key(#[trigger] children[j], key) {
            let w = choose|j: int| 0 <= j < children.len() && files_key(#[trigger] children[j], key);
            if w < s.len() {
                assert(s[w] == children[w]);
            }
        }
        if exists|j: int| 0 <= j < s.len() && files_key(#[trigger] s[j], key) {
            let w = choose|j: int| 0 <= j < s.len() && files_key(#[trigger] s[j], key);
            assert(children[w] == s[w]);
        }
    }
}

/// In the full index, a shortcut in the last folder of the scan is filed
/// under that folder's category, whichever child of the folder it is,
/// unless a later child of the folder files the same program.
pub proof fn law_folder_shortcut_indexed(entries: Seq<StartMenuEntry>, i: int)
    requires
        entries.len() > 0,
        !is_start_menu_shortcut_name(entries.last().file_name@),
        entries.last().is_dir,
        0 <= i < entries.last().children@.len(),
        is_start_menu_shortcut_name(entries.last().children@[i].file_name@),
        entries.last().children@[i].target_exe is Some,
        forall|j: int|
            i < j < entries.last().children@.len() ==> !files_key(
                #[trigger] entries.last().children@[j],
                lowercase(entries.last().children@[i].target_exe->0@),
            ),
    ensures
        lookup(exe_index(entries), lowercase(entries.last().children@[i].target_exe->0@))
            == Some(folder_category(entries.last().file_name@)),
{
    let e = entries.last();
    let key = lowercase(e.children@[i].target_exe->0@);
    law_every_folder_shortcut_filed(
        scanned_index(entries.drop_last()),
        e.children@,
        folder_category(e.file_name@),
        i,
    );
    law_scan_wins_over_fallback(entries, key);
}

/// An entry of a `Programs` directory that is neither a shortcut nor a
/// directory files nothing.
pub proof fn law_plain_file_files_nothing(entries: Seq<StartMenuEntry>, e: StartMenuEntry)
    requires
        !is_start_menu_shortcut_name(e.file_name@),
        !e.is_dir,
    ensures
        scanned_index(entries.push(e)) == scanned_index(entries),
{
    assert(entries.push(e).drop_last() == entries);
}

/// A start-menu file is a shortcut exactly when the text after its last
/// dot is `lnk` in any ASCII case (for a name with a non-empty part before
/// that dot).
pub proof fn law_start_menu_shortcut_by_extension(n: Seq<char>, e: Seq<char>)
    requires
        n.len() > 0,
        lacks_char(e, '.'),
        !(n == seq!['.'] && e.len() == 0),
    ensures
        is_start_menu_shortcut_name(n + seq!['.'] + e) <==> eq_ignore_ascii_case_seq(e, "lnk"@),
{
    law_extension_after_last_dot(n, e);
}


/// The shortcuts of a folder that the folder table does not name are filed
/// under `Other`.
pub proof fn law_unknown_folder_is_other(name: Seq<char>)
    requires
        forall|i: int| 0 <= i < folder_table().len() ==> #[trigger] folder_table()[i].0 != name,
    ensures
        folder_category(name) == Category::Other,
{
    law_folder_map_domain(name);
}

/// The shortcuts of a folder that the folder table names are filed under
/// the category of its (last) table entry.
pub proof fn law_known_folder_category(i: int)
    requires
        0 <= i < folder_table().len(),
        forall|j: int| i < j < folder_table().len() ==> folder_table()[j].0 != folder_table()[i].0,
    ensures
        folder_category(folder_table()[i].0) == folder_table()[i].1,
{
    law_folder_map_last_entry_wins(i);
}

} // verus!
