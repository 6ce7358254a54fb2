use my_desktop_app::category::{folder_to_category, Category};
use my_desktop_app::data_uri::{
    file_icon_data_uri, icon_data_uri_from, icon_request_size, wallpaper_data_uri, wallpaper_mime,
    wallpaper_path,
};
use my_desktop_app::desktop::{categorize_desktop_item, categorize_shortcut_target, is_desktop_shortcut};
use my_desktop_app::greeting::greet;
use my_desktop_app::index::{build_exe_index, is_start_menu_shortcut, StartMenuEntry, StartMenuShortcut};
use my_desktop_app::input::{click_actions, cursor_target, mouse_button, press_action, release_action, MouseAction, MouseButton};
use my_desktop_app::text::{
    chars_of, eq_ignore_ascii_case, file_extension, file_stem, nul_terminated_len, str_contains,
    terminated_text, trim,
};
use my_desktop_app::win_path::{link_target_name, path_file_name, process_image};
use my_desktop_app::index::ExeIndex;
use my_desktop_app::window_list::{find_own_window, list_windows, select_window, WindowProbe};
use std::path::Path;

fn utf16(s: &str) -> Vec<u16> {
    s.encode_utf16().collect()
}

fn shortcut(name: &str, target: Option<&str>) -> StartMenuShortcut {
    StartMenuShortcut { file_name: name.to_string(), target_exe: target.map(|t| t.to_string()) }
}

fn root_link(name: &str, target: Option<&str>) -> StartMenuEntry {
    StartMenuEntry {
        file_name: name.to_string(),
        is_dir: false,
        target_exe: target.map(|t| t.to_string()),
        children: vec![],
    }
}

fn folder(name: &str, children: Vec<StartMenuShortcut>) -> StartMenuEntry {
    StartMenuEntry { file_name: name.to_string(), is_dir: true, target_exe: None, children }
}

#[test]
fn category_names() {
    assert_eq!(Category::Productivity.name(), "高效工作");
    assert_eq!(Category::Creativity.name(), "创造力");
    assert_eq!(Category::DeveloperTools.name(), "开发人员工具");
    assert_eq!(Category::Utilities.name(), "实用程序与工具");
    assert_eq!(Category::Entertainment.name(), "娱乐");
    assert_eq!(Category::Social.name(), "社交");
    assert_eq!(Category::Accessibility.name(), "辅助功能");
    assert_eq!(Category::Other.name(), "其他");
}

#[test]
fn folder_map_holds_every_folder_of_the_table() {
    let m = folder_to_category();
    assert_eq!(m.len(), 68);
    assert_eq!(m.get("Microsoft Office 工具"), Some(Category::Productivity));
    assert_eq!(m.get("Adobe"), Some(Category::Creativity));
    assert_eq!(m.get("Visual Studio Code"), Some(Category::DeveloperTools));
    assert_eq!(m.get("AMD Software꞉ Adrenalin Edition"), Some(Category::Utilities));
    assert_eq!(m.get("Steam"), Some(Category::Entertainment));
    assert_eq!(m.get("Flash Center"), Some(Category::Social));
    assert_eq!(m.get("FlashCenter"), Some(Category::Creativity));
    assert_eq!(m.get("Accessibility"), Some(Category::Accessibility));
    assert_eq!(m.get("Accessories (系统)"), Some(Category::Other));
    assert_eq!(m.get("Accessories"), Some(Category::Productivity));
}

#[test]
fn folder_map_is_case_sensitive_and_exact() {
    let m = folder_to_category();
    assert_eq!(m.get("adobe"), None);
    assert_eq!(m.get("Adobe "), None);
    assert_eq!(m.get(""), None);
}

#[test]
fn index_of_empty_scan_is_the_fallback_table() {
    let idx = build_exe_index(&vec![]);
    assert_eq!(idx.len(), 38);
    assert_eq!(idx.get("chrome.exe"), Some(Category::Utilities));
    assert_eq!(idx.get("微信.exe"), Some(Category::Social));
    assert_eq!(idx.get("steam.exe"), Some(Category::Entertainment));
    assert_eq!(idx.get("code.exe"), Some(Category::DeveloperTools));
    assert_eq!(idx.get("et.exe"), Some(Category::Productivity));
    assert_eq!(idx.get("illustrator.exe"), Some(Category::Creativity));
    assert_eq!(idx.get("Chrome.exe"), None);
}

#[test]
fn index_files_scanned_shortcuts() {
    let scan = vec![
        root_link("Chrome.LNK", Some("CHROME.EXE")),
        folder(
            "Adobe",
            vec![
                shortcut("Photoshop 2024.lnk", Some("Photoshop.exe")),
                shortcut("readme.txt", Some("notes.exe")),
                shortcut("Broken.lnk", None),
            ],
        ),
        folder("Some Vendor", vec![shortcut("Tool.lnk", Some("Tool.exe"))]),
        root_link("notes.url", Some("browser.exe")),
        StartMenuEntry {
            file_name: "odd.lnk".to_string(),
            is_dir: true,
            target_exe: None,
            children: vec![shortcut("inner.lnk", Some("inner.exe"))],
        },
    ];
    let idx = build_exe_index(&scan);
    // the scan wins over the fallback entry for chrome.exe
    assert_eq!(idx.get("chrome.exe"), Some(Category::Other));
    assert_eq!(idx.get("photoshop.exe"), Some(Category::Creativity));
    assert_eq!(idx.get("tool.exe"), Some(Category::Other));
    assert_eq!(idx.get("notes.exe"), None);
    assert_eq!(idx.get("browser.exe"), None);
    // a directory whose name ends in .lnk is taken for a shortcut
    assert_eq!(idx.get("inner.exe"), None);
    // photoshop.exe is in the fallback table too
    assert_eq!(idx.len(), 38 + 1);
}

#[test]
fn later_shortcut_wins_in_the_scan() {
    let scan = vec![
        folder("Steam", vec![shortcut("Steam.lnk", Some("steam.exe"))]),
        folder("Git", vec![shortcut("Git Bash.lnk", Some("Steam.exe"))]),
    ];
    let idx = build_exe_index(&scan);
    assert_eq!(idx.get("steam.exe"), Some(Category::DeveloperTools));
}

#[test]
fn start_menu_shortcut_names() {
    assert!(is_start_menu_shortcut("a.lnk"));
    assert!(is_start_menu_shortcut("a.LnK"));
    assert!(is_start_menu_shortcut("a.b.lnk"));
    assert!(!is_start_menu_shortcut(".lnk"));
    assert!(!is_start_menu_shortcut("lnk"));
    assert!(!is_start_menu_shortcut("a.lnk.txt"));
    assert!(!is_start_menu_shortcut("a.ｌnk"));
}

#[test]
fn desktop_shortcut_names() {
    assert!(is_desktop_shortcut("Chrome.lnk"));
    assert!(is_desktop_shortcut("Chrome.LNK"));
    assert!(!is_desktop_shortcut("report.docx"));
    assert!(!is_desktop_shortcut(".lnk"));
    assert!(!is_desktop_shortcut("folder"));
}

#[test]
fn desktop_files_are_files() {
    let idx = build_exe_index(&vec![]);
    assert_eq!(categorize_desktop_item("report.docx", None, &idx), "文件");
    assert_eq!(categorize_desktop_item("folder", Some("chrome.exe".to_string()), &idx), "文件");
}

#[test]
fn desktop_shortcut_found_in_index() {
    let idx = build_exe_index(&vec![]);
    assert_eq!(categorize_desktop_item("Chrome.lnk", Some("CHROME.EXE".to_string()), &idx), "实用程序与工具");
    assert_eq!(categorize_desktop_item("WeChat.lnk", Some("WeChat.exe".to_string()), &idx), "社交");
}

#[test]
fn desktop_shortcut_without_target_is_other() {
    let idx = build_exe_index(&vec![]);
    assert_eq!(categorize_desktop_item("Broken.lnk", None, &idx), "其他");
}

#[test]
fn desktop_shortcut_matched_by_folder_keyword() {
    let idx = build_exe_index(&vec![]);
    assert_eq!(categorize_shortcut_target("steamwebhelper.exe", &idx), "娱乐");
    assert_eq!(categorize_shortcut_target("A.exe", &idx), "高效工作");
    assert_eq!(categorize_shortcut_target("Chrome.com", &idx), "实用程序与工具");
    assert_eq!(categorize_shortcut_target("setup.exe", &idx), "其他");
    assert_eq!(categorize_shortcut_target("zoom.exe", &idx), "其他");
}

#[test]
fn text_extension_and_stem_agree_with_std_paths() {
    for name in ["archive.tar.gz", ".bashrc", "..", "a.", "noext", "x.LNK", "été.txt", "a..b"] {
        assert_eq!(
            file_extension(name),
            Path::new(name).extension().map(|e| e.to_str().unwrap().to_string()),
            "extension of {name}"
        );
        assert_eq!(
            file_stem(name),
            Path::new(name).file_stem().map(|e| e.to_str().unwrap().to_string()),
            "stem of {name}"
        );
    }
    assert_eq!(file_stem(""), None);
    assert_eq!(file_stem("."), None);
    assert_eq!(file_extension(""), None);
}

#[test]
fn text_contains_and_case() {
    assert!(str_contains("steamwebhelper", "steam"));
    assert!(str_contains("abc", ""));
    assert!(!str_contains("st", "steam"));
    assert!(str_contains("微信开发者工具", "微信"));
    assert!(eq_ignore_ascii_case("My-Desktop-App.EXE", "my-desktop-app.exe"));
    assert!(!eq_ignore_ascii_case("É", "é"));
    assert!(!eq_ignore_ascii_case("ab", "abc"));
    assert_eq!(chars_of("日本"), vec!['日', '本']);
}

#[test]
fn text_trim_agrees_with_std() {
    for s in ["  hi  ", "\u{3000}标题\u{a0}", "", "   ", "\tx y\n", "\u{200b}z"] {
        assert_eq!(trim(s), s.trim(), "trim of {s:?}");
    }
}

#[test]
fn text_nul_terminated_len() {
    assert_eq!(nul_terminated_len(&[104, 105, 0, 5, 0]), 2);
    assert_eq!(nul_terminated_len(&[0, 1]), 0);
    assert_eq!(nul_terminated_len(&[1, 2, 3]), 0);
    assert_eq!(nul_terminated_len(&[]), 0);
}

#[test]
fn text_in_terminated_buffers() {
    let mut buf = utf16("Ünïcode.exe");
    buf.push(0);
    buf.extend(utf16("junk"));
    assert_eq!(terminated_text(&buf), Some("Ünïcode.exe".to_string()));
    assert_eq!(terminated_text(&[0xD800, 0x41, 0]), Some("\u{FFFD}A".to_string()));
    assert_eq!(terminated_text(&[0, 0x41]), None);
    assert_eq!(terminated_text(&[0x41]), None);
}

#[test]
fn lowercase_program_names_find_the_index() {
    let idx = build_exe_index(&vec![]);
    assert_eq!(categorize_shortcut_target("ÉCOLE.EXE", &idx), "其他");
    assert_eq!(categorize_shortcut_target("PowerPnt.EXE", &idx), "高效工作");
}

#[test]
fn wallpaper_path_from_buffer() {
    let mut buf = utf16("C:\\Users\\me\\壁纸.jpg");
    buf.resize(260, 0);
    assert_eq!(wallpaper_path(&buf), Ok("C:\\Users\\me\\壁纸.jpg".to_string()));
    assert_eq!(wallpaper_path(&[0u16; 260]), Err("未设置壁纸".to_string()));
    // a buffer without a terminating zero counts as empty
    assert_eq!(wallpaper_path(&utf16("abc")), Err("未设置壁纸".to_string()));
}

#[test]
fn wallpaper_mime_types() {
    assert_eq!(wallpaper_mime(Some("img0.PNG")), "image/png");
    assert_eq!(wallpaper_mime(Some("a.bmp")), "image/bmp");
    assert_eq!(wallpaper_mime(Some("a.Gif")), "image/gif");
    assert_eq!(wallpaper_mime(Some("a.jpg")), "image/jpeg");
    assert_eq!(wallpaper_mime(Some("a.webp")), "image/jpeg");
    assert_eq!(wallpaper_mime(Some("TranscodedWallpaper")), "image/jpeg");
    assert_eq!(wallpaper_mime(None), "image/jpeg");
}

#[test]
fn wallpaper_data_uri_encodes_bytes() {
    assert_eq!(wallpaper_data_uri("C:\\Wallpapers\\a.png", b"abc"), "data:image/png;base64,YWJj");
    assert_eq!(wallpaper_data_uri("C:\\", b"ab"), "data:image/jpeg;base64,YWI=");
    assert_eq!(wallpaper_data_uri("D:/pics/x.BMP", b""), "data:image/bmp;base64,");
    assert_eq!(wallpaper_data_uri("img.gif", b"abcd"), "data:image/gif;base64,YWJjZA==");
}

#[test]
fn icon_size_default() {
    assert_eq!(icon_request_size(None), 64);
    assert_eq!(icon_request_size(Some(32)), 32);
}

#[test]
fn icon_png_data_uri() {
    let uri = file_icon_data_uri(&[255, 0, 0, 255], 1, 1).unwrap();
    assert!(uri.starts_with("data:image/png;base64,iVBORw0KGgo"), "{uri}");
    let uri2 = file_icon_data_uri(&[0u8; 16], 2, 2).unwrap();
    assert_ne!(uri, uri2);
}

#[test]
fn icon_of_zero_size_cannot_be_encoded() {
    assert_eq!(file_icon_data_uri(&[], 0, 5), Err("PNG 编码失败: Zero width not allowed".to_string()));
    assert_eq!(file_icon_data_uri(&[], 3, 0), Err("PNG 编码失败: Zero height not allowed".to_string()));
    assert_eq!(file_icon_data_uri(&[], 0, 0), Err("PNG 编码失败: Zero width not allowed".to_string()));
}

#[test]
fn icon_outcomes() {
    assert_eq!(icon_data_uri_from(Ok(vec![1, 2, 3])), Ok("data:image/png;base64,AQID".to_string()));
    assert_eq!(icon_data_uri_from(Err("boom".to_string())), Err("PNG 编码失败: boom".to_string()));
}

fn probe(hwnd: isize, title: &str, class: &str, pid: u32, name: Option<&str>) -> WindowProbe {
    WindowProbe {
        hwnd,
        visible: true,
        title_units: utf16(title),
        class_units: utf16(class),
        pid,
        process_name: name.map(|n| n.to_string()),
        process_path: name.map(|n| format!("C:\\Programs\\{n}")),
    }
}

#[test]
fn windows_are_filtered() {
    let mut invisible = probe(2, "Hidden", "Notepad", 10, Some("notepad.exe"));
    invisible.visible = false;
    let probes = vec![
        probe(1, "  Notes - Notepad  ", "Notepad", 10, Some("notepad.exe")),
        invisible,
        probe(3, "", "Notepad", 10, Some("notepad.exe")),
        probe(4, " \u{3000} ", "Notepad", 10, Some("notepad.exe")),
        probe(5, "Program Manager", "Progman", 11, Some("explorer.exe")),
        probe(6, "Mine", "Tauri", 99, Some("whatever.exe")),
        probe(7, "System", "X", 12, None),
        probe(8, "Desk", "X", 13, Some("My-Desktop-App.EXE")),
        probe(9, "编辑器", "", 14, Some("code.exe")),
    ];
    let ws = list_windows(&probes, 99);
    assert_eq!(ws.len(), 2);
    assert_eq!(ws[0].hwnd, 1);
    assert_eq!(ws[0].title, "Notes - Notepad");
    assert_eq!(ws[0].process_name, "notepad.exe");
    assert_eq!(ws[0].process_path, Some("C:\\Programs\\notepad.exe".to_string()));
    assert_eq!(ws[1].hwnd, 9);
    assert_eq!(ws[1].title, "编辑器");
    assert!(select_window(&probes[5], 99).is_none());
    assert!(select_window(&probes[5], 1).is_some());
}

#[test]
fn own_window_is_the_first_of_the_process() {
    assert_eq!(find_own_window(&vec![5, 7, 7], 7), Ok(1));
    assert_eq!(find_own_window(&vec![1, 2], 7), Err("未找到自身窗口".to_string()));
    assert_eq!(find_own_window(&vec![], 7), Err("未找到自身窗口".to_string()));
}

#[test]
fn mouse_buttons_and_events() {
    assert_eq!(mouse_button("right"), MouseButton::Right);
    assert_eq!(mouse_button("Right"), MouseButton::Left);
    assert_eq!(mouse_button("left"), MouseButton::Left);
    assert_eq!(click_actions("right"), vec![MouseAction::RightDown, MouseAction::RightUp]);
    assert_eq!(click_actions("middle"), vec![MouseAction::LeftDown, MouseAction::LeftUp]);
    assert_eq!(press_action("right"), MouseAction::RightDown);
    assert_eq!(release_action(""), MouseAction::LeftUp);
}

#[test]
fn cursor_moves_relatively() {
    assert_eq!(cursor_target(10, 20, -5, 3), (5, 23));
    assert_eq!(cursor_target(0, 0, 0, 0), (0, 0));
}

#[test]
fn greeting_text() {
    assert_eq!(greet("Ada"), "Hello, Ada! You've been greeted from Rust!");
    assert_eq!(greet(""), "Hello, ! You've been greeted from Rust!");
}

#[test]
fn windows_path_file_names() {
    let cases: &[(&str, Option<&str>)] = &[
        (r"C:\Program Files\Google\Chrome\Application\chrome.exe", Some("chrome.exe")),
        ("C:/Users/me/Desktop/report.docx", Some("report.docx")),
        (r"C:\Users\me\", Some("me")),
        (r"C:\Users\me\.", Some("me")),
        (r"C:\Users\me\..", None),
        (r"C:\", None),
        ("C:", None),
        ("C:notes.txt", Some("notes.txt")),
        ("notes.txt", Some("notes.txt")),
        ("", None),
        (".", None),
        ("..", None),
        (r"\\server\share", None),
        (r"\\server\share\dir\f.txt", Some("f.txt")),
        (r"\\server", Some("server")),
        (r"\\?\C:\Windows\explorer.exe", Some("explorer.exe")),
        (r"\\?\C:", None),
        (r"\\?\C:\a\", Some("a")),
        (r"\\?\C:\a\.", None),
        (r"\\?\C:\a/b", Some("a/b")),
        (r"\\?\UNC\server\share", None),
        (r"\\?\UNC\server\share\f.txt", Some("f.txt")),
        (r"\\?\UNC\server", None),
        (r"\\?\foo", None),
        (r"\\?\foo\bar", Some("bar")),
        (r"\\.\COM1", None),
        (r"\\.\pipe\x", Some("x")),
        ("//./pipe/y", Some("y")),
        (r"%ProgramFiles%\Tool\tool.exe", Some("tool.exe")),
        ("a/./b/.", Some("b")),
        ("1:x", Some("1:x")),
    ];
    for (path, name) in cases {
        assert_eq!(path_file_name(path), name.map(|n| n.to_string()), "file name of {path:?}");
    }
}

#[test]
fn forward_slash_file_names_agree_with_std() {
    for path in ["a/b/c.txt", "/usr/bin/", "a/b/..", "a/./b/.", "./x", "x", "/", "a//b//"] {
        assert_eq!(
            path_file_name(path),
            Path::new(path).file_name().map(|n| n.to_str().unwrap().to_string()),
            "file name of {path:?}"
        );
    }
}

#[test]
fn link_targets_and_process_images() {
    let mut buf = utf16("C:\\Program Files\\Steam\\steam.exe");
    buf.resize(260, 0);
    assert_eq!(link_target_name(&buf), Some("steam.exe".to_string()));
    assert_eq!(link_target_name(&[0u16; 4]), None);
    let mut dir = utf16("C:\\");
    dir.push(0);
    assert_eq!(link_target_name(&dir), None);

    let img = utf16("C:\\Windows\\notepad.exe????");
    assert_eq!(
        process_image(&img, 22),
        (Some("notepad.exe".to_string()), "C:\\Windows\\notepad.exe".to_string())
    );
    assert_eq!(process_image(&img, 0), (None, String::new()));
}

#[test]
fn plain_files_do_not_need_the_index() {
    let empty = ExeIndex::empty();
    assert_eq!(empty.len(), 0);
    assert_eq!(categorize_desktop_item("report.docx", None, &empty), "文件");
    assert_eq!(categorize_desktop_item("Broken.lnk", None, &empty), "其他");
}
