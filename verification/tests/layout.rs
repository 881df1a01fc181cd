use bundle::layout::{format_date, join, to_native};
use bundle::{BundleError, Manifest, Platform, Version};

fn manifest() -> Manifest {
    Manifest {
        id: "My.App".to_string(),
        version: Version::parse("1.2.3-beta.1").unwrap(),
        title: "My App".to_string(),
        authors: "Me".to_string(),
        main_exe: "MyApp.exe".to_string(),
        ..Manifest::default()
    }
}

#[test]
fn paths_are_joined_by_the_platform() {
    assert_eq!(join(Platform::Windows, "C:\\root", "child"), "C:\\root\\child");
    assert_eq!(join(Platform::Windows, "C:\\root\\", "child"), "C:\\root\\child");
    assert_eq!(join(Platform::Windows, "C:/root/", "child"), "C:/root/child");
    assert_eq!(join(Platform::Windows, "", "child"), "child");
    assert_eq!(join(Platform::MacOs, "/root", "child"), "/root/child");
    assert_eq!(join(Platform::MacOs, "/root/", "child"), "/root/child");
    assert_eq!(join(Platform::MacOs, "/root\\", "child"), "/root\\/child");
    assert_eq!(join(Platform::MacOs, "/root", ""), "/root/");
}

#[test]
fn separators_are_made_native() {
    assert_eq!(to_native(Platform::Windows, "C:\\a/b/c\\d.txt"), "C:\\a\\b\\c\\d.txt");
    assert_eq!(to_native(Platform::MacOs, "/a\\b/c\\d.txt"), "/a/b/c/d.txt");
    assert_eq!(to_native(Platform::Windows, ""), "");
}

#[test]
fn windows_layout() {
    let m = manifest();
    let root = "C:\\Users\\me\\AppData\\Local\\MyApp";
    assert_eq!(m.get_update_path(root), format!("{}\\Update.exe", root));
    assert_eq!(m.get_main_exe_path(root), format!("{}\\current\\MyApp.exe", root));
    assert_eq!(m.get_packages_path(root, Platform::Windows), format!("{}\\packages", root));
    assert_eq!(m.get_current_path(root, Platform::Windows), format!("{}\\current", root));
    assert_eq!(m.get_nuspec_path(root, Platform::Windows), format!("{}\\current\\sq.version", root));
    assert_eq!(
        m.get_target_nupkg_path(root),
        format!("{}\\packages\\My.App-1.2.3-beta.1-full.nupkg", root)
    );
}

#[test]
fn mac_layout() {
    let m = manifest();
    let root = "/Applications/MyApp.app";
    assert_eq!(m.get_packages_path(root, Platform::MacOs), "/tmp/clowd.squirrel/My.App/packages");
    assert_eq!(m.get_current_path(root, Platform::MacOs), root);
    assert_eq!(
        m.get_nuspec_path(root, Platform::MacOs),
        "/Applications/MyApp.app/Contents/MacOS/sq.version"
    );
}

#[test]
fn dates_have_eight_digits() {
    assert_eq!(format_date(2024, 3, 9), "20240309");
    assert_eq!(format_date(1999, 12, 31), "19991231");
    assert_eq!(format_date(800, 1, 1), "8000101");
    assert_eq!(format_date(-44, 3, 15), "-440315");
    assert_eq!(format_date(0, 0, 0), "00000");
    assert_eq!(format_date(i32::MIN, 10, 10), "-21474836481010");
}

#[test]
fn uninstall_entry_holds_the_registration() {
    let m = manifest();
    let root = "C:\\Apps\\MyApp";
    let entry = m.uninstall_entry(root, 5 * 1024 * 1024 + 1023, 2024, 2, 29).unwrap();
    assert_eq!(entry.key, "My.App");
    assert_eq!(entry.display_icon, "C:\\Apps\\MyApp\\current\\MyApp.exe");
    assert_eq!(entry.display_name, "My App");
    assert_eq!(entry.display_version, "1.2.3");
    assert_eq!(entry.install_date, "20240229");
    assert_eq!(entry.install_location, root);
    assert_eq!(entry.publisher, "Me");
    assert_eq!(entry.quiet_uninstall_string, "\"C:\\Apps\\MyApp\\Update.exe\" --uninstall --silent");
    assert_eq!(entry.uninstall_string, "\"C:\\Apps\\MyApp\\Update.exe\" --uninstall");
    assert_eq!(entry.estimated_size, 5 * 1024);
    assert_eq!(entry.no_modify, 1);
    assert_eq!(entry.no_repair, 1);
    assert_eq!(entry.language, 0x0409);
}

#[test]
fn uninstall_entry_of_a_huge_directory_is_refused() {
    let m = manifest();
    let largest = (u32::MAX as u64) * 1024 + 1023;
    assert_eq!(m.uninstall_entry("C:\\a", largest, 2024, 1, 1).unwrap().estimated_size, u32::MAX);
    assert_eq!(m.uninstall_entry("C:\\a", largest + 1, 2024, 1, 1), Err(BundleError::SizeOutOfRange));
    assert_eq!(m.uninstall_entry("C:\\a", u64::MAX, 2024, 1, 1), Err(BundleError::SizeOutOfRange));
    assert_eq!(m.uninstall_entry("C:\\a", 0, 2024, 1, 1).unwrap().estimated_size, 0);
}
