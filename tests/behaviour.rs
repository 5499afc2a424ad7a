use app_info::icon::swap_red_blue;
use app_info::macos::{bundle_info, is_app_bundle, parse_app_bundle};
use app_info::text::{extension, names_match, stem};
use app_info::window::{
    display_icon_target, is_uninstaller_stem, looks_like_uninstaller, registry_app_info, registry_string, select_main_executable,
    RegistryValues,
};
use app_info::{
    find_app_by_name, get_file_icon, get_installed_apps, AppInfo, AppInfoError, FileIconError, PixelFormat,
    Raster,
};

fn app(name: &str) -> AppInfo {
    AppInfo {
        name: name.to_string(),
        version: None,
        path: format!("/Applications/{}.app", name),
        icon: None,
        identifier: None,
        publisher: None,
        install_date: None,
    }
}

fn names(list: &[&str]) -> Vec<String> {
    list.iter().map(|s| s.to_string()).collect()
}

fn utf16le(s: &str) -> Vec<u8> {
    s.encode_utf16().flat_map(|u| u.to_le_bytes()).collect()
}

const XML_HEAD: &str = "<?xml version=\"1.0\" encoding=\"UTF-8\"?>\n<plist version=\"1.0\">\n";

#[test]
fn zero_size_is_refused_before_the_path() {
    for exists in [true, false] {
        let r = get_file_icon(exists, 0, Ok(Raster { format: PixelFormat::Rgba32, pixels: vec![] }));
        assert!(matches!(r, Err(AppInfoError::FileIconError(FileIconError::NullIconSize))));
    }
}

#[test]
fn missing_path_is_refused() {
    let r = get_file_icon(false, 16, Ok(Raster { format: PixelFormat::Rgba32, pixels: vec![0; 16 * 16 * 4] }));
    assert!(matches!(r, Err(AppInfoError::FileIconError(FileIconError::PathDoesNotExist))));
}

#[test]
fn renderer_errors_pass_through() {
    let r = get_file_icon(true, 16, Err(FileIconError::PlatformNotSupported));
    assert!(matches!(r, Err(AppInfoError::FileIconError(FileIconError::PlatformNotSupported))));
    let r = get_file_icon(true, 16, Err(FileIconError::Failed));
    assert!(matches!(r, Err(AppInfoError::FileIconError(FileIconError::Failed))));
}

#[test]
fn unknown_layout_or_wrong_length_fails() {
    let r = get_file_icon(true, 2, Ok(Raster { format: PixelFormat::Other, pixels: vec![0; 16] }));
    assert!(matches!(r, Err(AppInfoError::FileIconError(FileIconError::Failed))));
    let r = get_file_icon(true, 2, Ok(Raster { format: PixelFormat::Rgba32, pixels: vec![0; 15] }));
    assert!(matches!(r, Err(AppInfoError::FileIconError(FileIconError::Failed))));
}

#[test]
fn icon_has_requested_size() {
    let icon = get_file_icon(true, 3, Ok(Raster { format: PixelFormat::Rgba32, pixels: (0..36).collect() })).unwrap();
    assert_eq!((icon.width, icon.height), (3, 3));
    assert_eq!(icon.pixels, (0..36).collect::<Vec<u8>>());
}

#[test]
fn blue_first_pixels_become_red_first() {
    let src: Vec<u8> = vec![1, 2, 3, 4, 10, 20, 30, 40];
    let icon = get_file_icon(true, 1, Ok(Raster { format: PixelFormat::Bgra32, pixels: src[..4].to_vec() })).unwrap();
    assert_eq!(icon.pixels, vec![3, 2, 1, 4]);
    let mut px = src.clone();
    swap_red_blue(&mut px);
    assert_eq!(px, vec![3, 2, 1, 4, 30, 20, 10, 40]);
    swap_red_blue(&mut px);
    assert_eq!(px, src);
}

#[test]
fn lookup_ignores_ascii_case() {
    let apps = vec![app("Safari"), app("Calculator")];
    for q in ["Calculator", "calculator", "CALCULATOR"] {
        let found = find_app_by_name(apps.clone(), q).unwrap();
        assert_eq!(found.name, "Calculator");
        assert_eq!(found.path, "/Applications/Calculator.app");
    }
    assert!(names_match("Über", "Über"));
    assert!(!names_match("Über", "über"));
    assert!(!names_match("Calc", "Calculator"));
}

#[test]
fn lookup_takes_the_first_match() {
    let mut second = app("calculator");
    second.path = "/System/Applications/Calculator.app".to_string();
    let found = find_app_by_name(vec![second, app("Calculator")], "Calculator").unwrap();
    assert_eq!(found.path, "/System/Applications/Calculator.app");
}

#[test]
fn uninstalled_name_is_not_found() {
    let r = find_app_by_name(vec![app("Calculator")], "definitely-not-installed-xyz");
    match r {
        Err(AppInfoError::AppNotFound { name }) => assert_eq!(name, "definitely-not-installed-xyz"),
        other => panic!("unexpected {:?}", other),
    }
    assert!(find_app_by_name(vec![], "x").unwrap_err().is_app_not_found());
}

#[test]
fn zero_icon_size_leaves_icons_unset() {
    let mut a = app("Calculator");
    a.icon = Some(get_file_icon(true, 1, Ok(Raster { format: PixelFormat::Rgba32, pixels: vec![0; 4] })).unwrap());
    let apps = get_installed_apps(0, Ok(vec![Ok(a.clone())])).unwrap();
    assert!(apps[0].icon.is_none());
    let apps = get_installed_apps(1, Ok(vec![Ok(a)])).unwrap();
    assert!(apps[0].icon.is_some());
}

#[test]
fn scan_keeps_order_and_duplicates_and_skips_failures() {
    let found = vec![
        Ok(app("Chess")),
        Err(AppInfoError::BundleParseError { path: "/Applications/Broken.app".to_string() }),
        Ok(app("Chess")),
        Ok(app("Notes")),
    ];
    let apps = get_installed_apps(0, Ok(found)).unwrap();
    let got: Vec<&str> = apps.iter().map(|a| a.name.as_str()).collect();
    assert_eq!(got, vec!["Chess", "Chess", "Notes"]);
}

#[test]
fn whole_scan_failure_passes_through() {
    assert!(matches!(get_installed_apps(0, Err(AppInfoError::UnsupportedPlatform)), Err(AppInfoError::UnsupportedPlatform)));
    let io = std::io::Error::new(std::io::ErrorKind::PermissionDenied, "denied");
    assert!(matches!(get_installed_apps(0, Err(AppInfoError::DirectoryReadError(io))), Err(AppInfoError::DirectoryReadError(_))));
}

#[test]
fn installer_stub_is_not_chosen() {
    assert_eq!(select_main_executable(&names(&["app.exe", "unins000.exe"])), Some(0));
    assert_eq!(select_main_executable(&names(&["unins000.exe", "app.exe"])), Some(1));
    assert_eq!(select_main_executable(&names(&["readme.txt", "Uninstall.exe", "Remove Tool.exe", "tool.exe"])), Some(3));
    assert_eq!(select_main_executable(&names(&["unins000.exe", "update.exe"])), Some(1));
    assert_eq!(select_main_executable(&names(&["unins000.exe", "Unzip.exe"])), Some(0));
    assert_eq!(select_main_executable(&names(&["a.dll", "b.EXE"])), None);
    assert_eq!(select_main_executable(&names(&[])), None);
}

#[test]
fn uninstaller_stems_ignore_case() {
    assert!(is_uninstaller_stem("UNINS000"));
    assert!(is_uninstaller_stem("RemoveMe"));
    assert!(is_uninstaller_stem("Unzip"));
    assert!(!is_uninstaller_stem("Update"));
    assert!(!is_uninstaller_stem("Notepad"));
}

#[test]
fn file_names_split_like_paths() {
    assert_eq!(extension("Calculator.app"), Some("app".to_string()));
    assert_eq!(stem("Calculator.app"), "Calculator");
    assert_eq!(extension("a.b.app"), Some("app".to_string()));
    assert_eq!(stem("a.b.app"), "a.b");
    assert_eq!(extension(".app"), None);
    assert_eq!(stem(".app"), ".app");
    assert_eq!(extension(".."), None);
    assert_eq!(extension("noext"), None);
    assert_eq!(extension("trailing."), Some(String::new()));
    assert!(is_app_bundle("Safari.app"));
    assert!(!is_app_bundle("Safari.App"));
    assert!(!is_app_bundle(".app"));
}

#[test]
fn bundle_names_fall_back_in_order() {
    let both = format!(
        "{}<dict><key>CFBundleName</key><string>Short</string><key>CFBundleDisplayName</key><string>Display</string></dict></plist>",
        XML_HEAD
    );
    let a = parse_app_bundle("/A/X.app".to_string(), Some("X.app"), Some(both.as_bytes()), None).unwrap();
    assert_eq!(a.name, "Display");
    assert_eq!(a.path, "/A/X.app");
    assert_eq!(a.version, None);
    assert!(a.publisher.is_none() && a.install_date.is_none());

    let short = format!("{}<dict><key>CFBundleName</key><string>Short</string><key>CFBundleIdentifier</key><string>com.x</string><key>CFBundleShortVersionString</key><string>2.1</string></dict></plist>", XML_HEAD);
    let a = parse_app_bundle("/A/X.app".to_string(), Some("X.app"), Some(short.as_bytes()), None).unwrap();
    assert_eq!(a.name, "Short");
    assert_eq!(a.identifier.as_deref(), Some("com.x"));
    assert_eq!(a.version.as_deref(), Some("2.1"));

    let none = format!("{}<dict><key>CFBundleDisplayName</key><integer>3</integer><key>CFBundleName</key><string>Short</string></dict></plist>", XML_HEAD);
    let a = parse_app_bundle("/A/X.app".to_string(), Some("X.app"), Some(none.as_bytes()), None).unwrap();
    assert_eq!(a.name, "X");
    let a = parse_app_bundle("/A/X.app".to_string(), None, Some(none.as_bytes()), None).unwrap();
    assert_eq!(a.name, "Unknown");
}

#[test]
fn bundle_errors() {
    let r = parse_app_bundle("/A/X.app".to_string(), Some("X.app"), None, None);
    match r {
        Err(AppInfoError::BundleParseError { path }) => assert_eq!(path, "/A/X.app"),
        other => panic!("unexpected {:?}", other),
    }
    let r = parse_app_bundle("/A/X.app".to_string(), Some("X.app"), Some(b"not a plist"), None);
    assert!(matches!(r, Err(AppInfoError::PlistError(_))));
    let array = format!("{}<array><string>x</string></array></plist>", XML_HEAD);
    match parse_app_bundle("/A/X.app".to_string(), Some("X.app"), Some(array.as_bytes()), None) {
        Err(AppInfoError::PlistError(m)) => assert_eq!(m, "Invalid plist format"),
        other => panic!("unexpected {:?}", other),
    }
}

#[test]
fn registry_values_decode() {
    assert_eq!(registry_string(Some(&utf16le("Notepad++"))).unwrap(), "Notepad++");
    let mut with_nul = utf16le("7-Zip");
    with_nul.extend_from_slice(&[0, 0, 0x41, 0]);
    assert_eq!(registry_string(Some(&with_nul)).unwrap(), "7-Zip");
    assert_eq!(registry_string(Some(&[0x41])).unwrap(), "");
    assert_eq!(registry_string(Some(&[0x3D, 0xD8])).unwrap(), "\u{FFFD}");
    for r in [registry_string(None), registry_string(Some(&[]))] {
        match r {
            Err(AppInfoError::RegistryError(m)) => assert_eq!(m, "Failed to read registry value"),
            other => panic!("unexpected {:?}", other),
        }
    }
}

#[test]
fn display_icon_names_a_file() {
    assert_eq!(display_icon_target("C:\\Program Files\\App\\app.exe,0"), "C:\\Program Files\\App\\app.exe");
    assert_eq!(display_icon_target("  C:\\App\\app.exe  "), "C:\\App\\app.exe");
    assert_eq!(display_icon_target(",3"), "");
}

#[test]
fn registry_entries_need_a_display_name() {
    let values = RegistryValues {
        display_name: Some("App".to_string()),
        display_version: Some("1.2".to_string()),
        publisher: Some("Vendor".to_string()),
        install_location: Some("C:\\App".to_string()),
        install_date: Some("20240101".to_string()),
        display_icon: None,
    };
    let a = registry_app_info(values.clone(), None, None).unwrap();
    assert_eq!(a.name, "App");
    assert_eq!(a.path, "");
    assert_eq!(a.publisher.as_deref(), Some("Vendor"));
    assert_eq!(a.install_date.as_deref(), Some("20240101"));
    assert!(a.identifier.is_none());
    let a = registry_app_info(values.clone(), Some("C:\\App\\app.exe".to_string()), None).unwrap();
    assert_eq!(a.path, "C:\\App\\app.exe");
    let r = registry_app_info(RegistryValues { display_name: None, ..values }, None, None);
    assert!(matches!(r, Err(AppInfoError::RegistryError(_))));
}

#[test]
fn icon_error_messages() {
    assert_eq!(FileIconError::NullIconSize.message(), "Icon size cannot be zero");
    assert_eq!(FileIconError::PathDoesNotExist.message(), "Path does not exist");
}

#[test]
fn lower_case_stems_are_judged_as_given() {
    assert!(looks_like_uninstaller("unins000"));
    assert!(looks_like_uninstaller("myremovetool"));
    assert!(!looks_like_uninstaller("UNINS000"));
    assert!(!looks_like_uninstaller("notepad"));
}

#[test]
fn bundle_info_reads_decoded_entries() {
    let entries = vec![
        ("CFBundleDisplayName".to_string(), None),
        ("CFBundleName".to_string(), Some("Short".to_string())),
        ("CFBundleIdentifier".to_string(), Some("com.x".to_string())),
    ];
    let a = bundle_info(&entries, "/A/Tool.app".to_string(), Some("Tool.app"), None);
    assert_eq!(a.name, "Tool");
    assert_eq!(a.identifier.as_deref(), Some("com.x"));
    assert!(a.version.is_none());
    let entries = vec![("CFBundleName".to_string(), Some("Short".to_string()))];
    assert_eq!(bundle_info(&entries, "/A/Tool.app".to_string(), Some("Tool.app"), None).name, "Short");
    assert_eq!(bundle_info(&vec![], "/A/Tool.app".to_string(), None, None).name, "Unknown");
}

#[test]
fn reordered_scans_give_the_same_apps() {
    let one = vec![Ok(app("Chess")), Ok(app("Notes")), Ok(app("Chess"))];
    let two = vec![Ok(app("Notes")), Ok(app("Chess")), Ok(app("Chess"))];
    let mut a: Vec<String> = get_installed_apps(0, Ok(one)).unwrap().into_iter().map(|x| x.name).collect();
    let mut b: Vec<String> = get_installed_apps(0, Ok(two)).unwrap().into_iter().map(|x| x.name).collect();
    a.sort();
    b.sort();
    assert_eq!(a, b);
    assert_eq!(a, vec!["Chess", "Chess", "Notes"]);
}
