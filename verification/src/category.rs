//! The start-menu categories, the table that sorts start-menu folders into
//! them, and the index from executable names to categories.

use vstd::prelude::*;
use vstd::hash_map::StringHashMap;

verus! {

/// One of the eight start-menu categories.
#[derive(Clone, Copy, Debug, PartialEq, Eq, Structural)]
pub enum Category {
    Productivity,
    Creativity,
    DeveloperTools,
    Utilities,
    Entertainment,
    Social,
    Accessibility,
    Other,
}

impl Category {
    /// The display name of the category.
    pub open spec fn label(self) -> Seq<char> {
        match self {
            Category::Productivity => "高效工作"@,
            Category::Creativity => "创造力"@,
            Category::DeveloperTools => "开发人员工具"@,
            Category::Utilities => "实用程序与工具"@,
            Category::Entertainment => "娱乐"@,
            Category::Social => "社交"@,
            Category::Accessibility => "辅助功能"@,
            Category::Other => "其他"@,
        }
    }

    /// The display name of the category.
    pub fn name(&self) -> (s: String)
        ensures
            s@ == self.label(),
    {
        match self {
            Category::Productivity => "高效工作".to_owned(),
            Category::Creativity => "创造力".to_owned(),
            Category::DeveloperTools => "开发人员工具".to_owned(),
            Category::Utilities => "实用程序与工具".to_owned(),
            Category::Entertainment => "娱乐".to_owned(),
            Category::Social => "社交".to_owned(),
            Category::Accessibility => "辅助功能".to_owned(),
            Category::Other => "其他".to_owned(),
        }
    }
}

/// The start-menu folders and their categories, in table order.
pub open spec fn folder_table() -> Seq<(Seq<char>, Category)> {
    seq![
        ("Microsoft Office 工具"@, Category::Productivity),
        ("WPS Office"@, Category::Productivity),
        ("Accessories"@, Category::Productivity),
        ("Adobe"@, Category::Creativity),
        ("剪映专业版"@, Category::Creativity),
        ("美图"@, Category::Creativity),
        ("FlashCenter"@, Category::Creativity),
        ("CC Switch"@, Category::Creativity),
        ("Android Studio"@, Category::DeveloperTools),
        ("Burp Suite Professional"@, Category::DeveloperTools),
        ("Git"@, Category::DeveloperTools),
        ("Java"@, Category::DeveloperTools),
        ("Java Development Kit"@, Category::DeveloperTools),
        ("JetBrains"@, Category::DeveloperTools),
        ("Node.js"@, Category::DeveloperTools),
        ("PowerToys (Preview)"@, Category::DeveloperTools),
        ("Python 3.13"@, Category::DeveloperTools),
        ("Ubuntu"@, Category::DeveloperTools),
        ("Visual Studio 2022"@, Category::DeveloperTools),
        ("Visual Studio Code"@, Category::DeveloperTools),
        ("Windows Kits"@, Category::DeveloperTools),
        ("微信开发者工具"@, Category::DeveloperTools),
        ("Tesseract-OCR"@, Category::DeveloperTools),
        ("Paradox Interactive"@, Category::DeveloperTools),
        ("AMD"@, Category::Utilities),
        ("AMD Bug Report Tool"@, Category::Utilities),
        ("Clash Verge"@, Category::Utilities),
        ("Everything"@, Category::Utilities),
        ("GeoGebra"@, Category::Utilities),
        ("Google Chrome"@, Category::Utilities),
        ("IObit Uninstaller"@, Category::Utilities),
        ("Internet Download Manager"@, Category::Utilities),
        ("Mem Reduct"@, Category::Utilities),
        ("Microsoft Edge"@, Category::Utilities),
        ("Neat Download Manager"@, Category::Utilities),
        ("Notepad++"@, Category::Utilities),
        ("OneDrive"@, Category::Utilities),
        ("OpenVPN"@, Category::Utilities),
        ("Radmin Server 3"@, Category::Utilities),
        ("Radmin VPN"@, Category::Utilities),
        ("TAP-Windows"@, Category::Utilities),
        ("VMware"@, Category::Utilities),
        ("WinRAR"@, Category::Utilities),
        ("WindowsCleaner"@, Category::Utilities),
        ("Xshell 8"@, Category::Utilities),
        ("小米"@, Category::Utilities),
        ("希沃软件"@, Category::Utilities),
        ("雷电多开器"@, Category::Utilities),
        ("雷电模拟器9"@, Category::Utilities),
        ("biubiu"@, Category::Utilities),
        ("AMD Software꞉ Adrenalin Edition"@, Category::Utilities),
        ("Steam"@, Category::Entertainment),
        ("腾讯游戏"@, Category::Entertainment),
        ("Roblox"@, Category::Entertainment),
        ("微信"@, Category::Social),
        ("企业微信"@, Category::Social),
        ("腾讯会议"@, Category::Social),
        ("KOOK"@, Category::Social),
        ("腾讯软件"@, Category::Social),
        ("Flash Center"@, Category::Social),
        ("Accessibility"@, Category::Accessibility),
        ("Administrative Tools"@, Category::Other),
        ("Maintenance"@, Category::Other),
        ("System Tools"@, Category::Other),
        ("Windows PowerShell"@, Category::Other),
        ("Startup"@, Category::Other),
        ("Unknown"@, Category::Other),
        ("Accessories (系统)"@, Category::Other)
    ]
}

/// Executable names whose category is known without a start-menu shortcut,
/// in table order.
pub open spec fn fallback_table() -> Seq<(Seq<char>, Category)> {
    seq![
        ("chrome.exe"@, Category::Utilities),
        ("msedge.exe"@, Category::Utilities),
        ("firefox.exe"@, Category::Utilities),
        ("notepad++.exe"@, Category::Utilities),
        ("everything.exe"@, Category::Utilities),
        ("winrar.exe"@, Category::Utilities),
        ("wechat.exe"@, Category::Social),
        ("微信.exe"@, Category::Social),
        ("qq.exe"@, Category::Social),
        ("tim.exe"@, Category::Social),
        ("discord.exe"@, Category::Social),
        ("slack.exe"@, Category::Social),
        ("dingtalk.exe"@, Category::Social),
        ("steam.exe"@, Category::Entertainment),
        ("spotify.exe"@, Category::Entertainment),
        ("code.exe"@, Category::DeveloperTools),
        ("clion64.exe"@, Category::DeveloperTools),
        ("idea64.exe"@, Category::DeveloperTools),
        ("webstorm64.exe"@, Category::DeveloperTools),
        ("goland64.exe"@, Category::DeveloperTools),
        ("pycharm64.exe"@, Category::DeveloperTools),
        ("git.exe"@, Category::DeveloperTools),
        ("node.exe"@, Category::DeveloperTools),
        ("python.exe"@, Category::DeveloperTools),
        ("java.exe"@, Category::DeveloperTools),
        ("javaw.exe"@, Category::DeveloperTools),
        ("winword.exe"@, Category::Productivity),
        ("excel.exe"@, Category::Productivity),
        ("powerpnt.exe"@, Category::Productivity),
        ("outlook.exe"@, Category::Productivity),
        ("wps.exe"@, Category::Productivity),
        ("wpp.exe"@, Category::Productivity),
        ("et.exe"@, Category::Productivity),
        ("photoshop.exe"@, Category::Creativity),
        ("audition.exe"@, Category::Creativity),
        ("premiere.exe"@, Category::Creativity),
        ("afterfx.exe"@, Category::Creativity),
        ("illustrator.exe"@, Category::Creativity)
    ]
}

/// The views of a table of names and categories.
pub open spec fn table_view(v: Seq<(&str, Category)>) -> Seq<(Seq<char>, Category)> {
    v.map_values(|p: (&str, Category)| (p.0@, p.1))
}

/// The folder table as executable data.
pub fn folder_entries() -> (v: Vec<(&'static str, Category)>)
    ensures
        table_view(v@) == folder_table(),
{
    let mut v: Vec<(&'static str, Category)> = Vec::new();
    v.push(("Microsoft Office 工具", Category::Productivity));
    v.push(("WPS Office", Category::Productivity));
    v.push(("Accessories", Category::Productivity));
    v.push(("Adobe", Category::Creativity));
    v.push(("剪映专业版", Category::Creativity));
    v.push(("美图", Category::Creativity));
    v.push(("FlashCenter", Category::Creativity));
    v.push(("CC Switch", Category::Creativity));
    v.push(("Android Studio", Category::DeveloperTools));
    v.push(("Burp Suite Professional", Category::DeveloperTools));
    v.push(("Git", Category::DeveloperTools));
    v.push(("Java", Category::DeveloperTools));
    v.push(("Java Development Kit", Category::DeveloperTools));
    v.push(("JetBrains", Category::DeveloperTools));
    v.push(("Node.js", Category::DeveloperTools));
    v.push(("PowerToys (Preview)", Category::DeveloperTools));
    v.push(("Python 3.13", Category::DeveloperTools));
    v.push(("Ubuntu", Category::DeveloperTools));
    v.push(("Visual Studio 2022", Category::DeveloperTools));
    v.push(("Visual Studio Code", Category::DeveloperTools));
    v.push(("Windows Kits", Category::DeveloperTools));
    v.push(("微信开发者工具", Category::DeveloperTools));
    v.push(("Tesseract-OCR", Category::DeveloperTools));
    v.push(("Paradox Interactive", Category::DeveloperTools));
    v.push(("AMD", Category::Utilities));
    v.push(("AMD Bug Report Tool", Category::Utilities));
    v.push(("Clash Verge", Category::Utilities));
    v.push(("Everything", Category::Utilities));
    v.push(("GeoGebra", Category::Utilities));
    v.push(("Google Chrome", Category::Utilities));
    v.push(("IObit Uninstaller", Category::Utilities));
    v.push(("Internet Download Manager", Category::Utilities));
    v.push(("Mem Reduct", Category::Utilities));
    v.push(("Microsoft Edge", Category::Utilities));
    v.push(("Neat Download Manager", Category::Utilities));
    v.push(("Notepad++", Category::Utilities));
    v.push(("OneDrive", Category::Utilities));
    v.push(("OpenVPN", Category::Utilities));
    v.push(("Radmin Server 3", Category::Utilities));
    v.push(("Radmin VPN", Category::Utilities));
    v.push(("TAP-Windows", Category::Utilities));
    v.push(("VMware", Category::Utilities));
    v.push(("WinRAR", Category::Utilities));
    v.push(("WindowsCleaner", Category::Utilities));
    v.push(("Xshell 8", Category::Utilities));
    v.push(("小米", Category::Utilities));
    v.push(("希沃软件", Category::Utilities));
    v.push(("雷电多开器", Category::Utilities));
    v.push(("雷电模拟器9", Category::Utilities));
    v.push(("biubiu", Category::Utilities));
    v.push(("AMD Software꞉ Adrenalin Edition", Category::Utilities));
    v.push(("Steam", Category::Entertainment));
    v.push(("腾讯游戏", Category::Entertainment));
    v.push(("Roblox", Category::Entertainment));
    v.push(("微信", Category::Social));
    v.push(("企业微信", Category::Social));
    v.push(("腾讯会议", Category::Social));
    v.push(("KOOK", Category::Social));
    v.push(("腾讯软件", Category::Social));
    v.push(("Flash Center", Category::Social));
    v.push(("Accessibility", Category::Accessibility));
    v.push(("Administrative Tools", Category::Other));
    v.push(("Maintenance", Category::Other));
    v.push(("System Tools", Category::Other));
    v.push(("Windows PowerShell", Category::Other));
    v.push(("Startup", Category::Other));
    v.push(("Unknown", Category::Other));
    v.push(("Accessories (系统)", Category::Other));
    assert(table_view(v@) =~= folder_table());
    v
}

/// The fallback table as executable data.
pub fn fallback_entries() -> (v: Vec<(&'static str, Category)>)
    ensures
        table_view(v@) == fallback_table(),
{
    let mut v: Vec<(&'static str, Category)> = Vec::new();
    v.push(("chrome.exe", Category::Utilities));
    v.push(("msedge.exe", Category::Utilities));
    v.push(("firefox.exe", Category::Utilities));
    v.push(("notepad++.exe", Category::Utilities));
    v.push(("everything.exe", Category::Utilities));
    v.push(("winrar.exe", Category::Utilities));
    v.push(("wechat.exe", Category::Social));
    v.push(("微信.exe", Category::Social));
    v.push(("qq.exe", Category::Social));
    v.push(("tim.exe", Category::Social));
    v.push(("discord.exe", Category::Social));
    v.push(("slack.exe", Category::Social));
    v.push(("dingtalk.exe", Category::Social));
    v.push(("steam.exe", Category::Entertainment));
    v.push(("spotify.exe", Category::Entertainment));
    v.push(("code.exe", Category::DeveloperTools));
    v.push(("clion64.exe", Category::DeveloperTools));
    v.push(("idea64.exe", Category::DeveloperTools));
    v.push(("webstorm64.exe", Category::DeveloperTools));
    v.push(("goland64.exe", Category::DeveloperTools));
    v.push(("pycharm64.exe", Category::DeveloperTools));
    v.push(("git.exe", Category::DeveloperTools));
    v.push(("node.exe", Category::DeveloperTools));
    v.push(("python.exe", Category::DeveloperTools));
    v.push(("java.exe", Category::DeveloperTools));
    v.push(("javaw.exe", Category::DeveloperTools));
    v.push(("winword.exe", Category::Productivity));
    v.push(("excel.exe", Category::Productivity));
    v.push(("powerpnt.exe", Category::Productivity));
    v.push(("outlook.exe", Category::Productivity));
    v.push(("wps.exe", Category::Productivity));
    v.push(("wpp.exe", Category::Productivity));
    v.push(("et.exe", Category::Productivity));
    v.push(("photoshop.exe", Category::Creativity));
    v.push(("audition.exe", Category::Creativity));
    v.push(("premiere.exe", Category::Creativity));
    v.push(("afterfx.exe", Category::Creativity));
    v.push(("illustrator.exe", Category::Creativity));
    assert(table_view(v@) =~= fallback_table());
    v
}


/// The map that results from inserting the entries of `t`, in order, into
/// `m`: a later entry for a name replaces an earlier one.
pub open spec fn insert_all(m: Map<Seq<char>, Category>, t: Seq<(Seq<char>, Category)>) -> Map<
    Seq<char>,
    Category,
>
    decreases t.len(),
{
    if t.len() == 0 {
        m
    } else {
        insert_all(m, t.drop_last()).insert(t.last().0, t.last().1)
    }
}

/// The map from start-menu folder names to categories.
pub open spec fn folder_map() -> Map<Seq<char>, Category> {
    insert_all(Map::empty(), folder_table())
}

/// The entry of `m` for `k`, if any.
pub open spec fn lookup(m: Map<Seq<char>, Category>, k: Seq<char>) -> Option<Category> {
    if m.contains_key(k) {
        Some(m[k])
    } else {
        None
    }
}

/// The map from start-menu folder names to the category of their programs.
pub struct FolderMap {
    map: StringHashMap<Category>,
}

impl View for FolderMap {
    type V = Map<Seq<char>, Category>;

    closed spec fn view(&self) -> Map<Seq<char>, Category> {
        self.map@
    }
}

impl FolderMap {
    /// The category of the folder named `folder`, if the map holds it.
    pub fn get(&self, folder: &str) -> (r: Option<Category>)
        ensures
            r == lookup(self@, folder@),
    {
        match self.map.get(folder) {
            Some(c) => Some(*c),
            None => None,
        }
    }

    /// The number of folders in the map.
    pub fn len(&self) -> (n: usize)
        ensures
            n == self@.len(),
    {
        self.map.len()
    }
}

/// Builds the map from start-menu folder names to categories out of the
/// folder table; where a name occurred twice, its last entry would win.
pub fn folder_to_category() -> (m: FolderMap)
    ensures
        m@ == folder_map(),
{
    let entries = folder_entries();
    let mut map: StringHashMap<Category> = StringHashMap::new();
    let n = entries.len();
    let mut i: usize = 0;
    while i < n
        invariant
            n == entries@.len(),
            i <= n,
            table_view(entries@) == folder_table(),
            map@ == insert_all(Map::empty(), folder_table().take(i as int)),
        decreases n - i,
    {
        let (folder, cat) = entries[i];
        proof {
            assert(folder_table()[i as int] == (folder@, cat));
            assert(folder_table().take(i + 1).drop_last() == folder_table().take(i as int));
        }
        map.insert(folder.to_owned(), cat);
        i = i + 1;
    }
    proof {
        assert(folder_table().take(n as int) == folder_table());
    }
    FolderMap { map }
}

/// What a map built by `insert_all` holds: a name is in it exactly when the
/// starting map or some entry has it, and it then maps to the category of
/// the last entry that names it.
pub proof fn lemma_insert_all(m: Map<Seq<char>, Category>, t: Seq<(Seq<char>, Category)>, k: Seq<char>)
    ensures
        insert_all(m, t).contains_key(k) <==> (m.contains_key(k) || exists|i: int|
            0 <= i < t.len() && #[trigger] t[i].0 == k),
        forall|i: int|
            0 <= i < t.len() && #[trigger] t[i].0 == k && (forall|j: int|
                i < j < t.len() ==> t[j].0 != k) ==> insert_all(m, t)[k] == t[i].1,
        (forall|i: int| 0 <= i < t.len() ==> #[trigger] t[i].0 != k) ==> (m.contains_key(k)
            ==> insert_all(m, t)[k] == m[k]),
    decreases t.len(),
{
    if t.len() > 0 {
        let s = t.drop_last();
        lemma_insert_all(m, s, k);
        assert forall|i: int| 0 <= i < s.len() implies s[i] == t[i] by {}
        if exists|i: int| 0 <= i < t.len() && #[trigger] t[i].0 == k {
            let w = choose|i: int| 0 <= i < t.len() && #[trigger] t[i].0 == k;
            if w < s.len() {
                assert(s[w].0 == k);
            }
        }
        assert forall|i: int|
            0 <= i < t.len() && #[trigger] t[i].0 == k && (forall|j: int|
                i < j < t.len() ==> t[j].0 != k) implies insert_all(m, t)[k] == t[i].1 by {
            if i < s.len() {
                assert(t[t.len() - 1].0 != k);
                assert(s[i].0 == k);
                assert forall|j: int| i < j < s.len() implies s[j].0 != k by {
                    assert(t[j].0 != k);
                }
            }
        }
    }
}

/// Every folder of the table is in the folder map, and nothing else is.
pub proof fn law_folder_map_domain(folder: Seq<char>)
    ensures
        folder_map().contains_key(folder) <==> exists|i: int|
            0 <= i < folder_table().len() && #[trigger] folder_table()[i].0 == folder,
{
    lemma_insert_all(Map::empty(), folder_table(), folder);
}

/// A folder maps to the category of the last table entry that names it.
pub proof fn law_folder_map_last_entry_wins(i: int)
    requires
        0 <= i < folder_table().len(),
        forall|j: int| i < j < folder_table().len() ==> folder_table()[j].0 != folder_table()[i].0,
    ensures
        lookup(folder_map(), folder_table()[i].0) == Some(folder_table()[i].1),
{
    lemma_insert_all(Map::empty(), folder_table(), folder_table()[i].0);
}

} // verus!
