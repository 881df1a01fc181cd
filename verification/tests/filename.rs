use bundle::{parse_package_file_name, Version};

#[test]
fn test_parse_package_file_name() {
    // test no rid
    let entry = parse_package_file_name("Clowd.Squirrel-1.0.0-full.nupkg").unwrap();
    assert_eq!(entry.name, "Clowd.Squirrel");
    assert_eq!(entry.version, Version::parse("1.0.0").unwrap());
    assert_eq!(entry.is_delta, false);
    assert_eq!(entry.os, None);
    assert_eq!(entry.os_min_ver, None);
    assert_eq!(entry.os_arch, None);

    let entry = parse_package_file_name("Clowd.Squirrel-1.0.0-delta.nupkg").unwrap();
    assert_eq!(entry.name, "Clowd.Squirrel");
    assert_eq!(entry.version, Version::parse("1.0.0").unwrap());
    assert_eq!(entry.is_delta, true);
    assert_eq!(entry.os, None);
    assert_eq!(entry.os_min_ver, None);
    assert_eq!(entry.os_arch, None);

    let entry = parse_package_file_name("My.Cool-App-1.1.0-full.nupkg").unwrap();
    assert_eq!(entry.name, "My.Cool-App");
    assert_eq!(entry.version, Version::parse("1.1.0").unwrap());
    assert_eq!(entry.is_delta, false);
    assert_eq!(entry.os, None);
    assert_eq!(entry.os_min_ver, None);
    assert_eq!(entry.os_arch, None);

    // test with rid individual components
    let entry = parse_package_file_name("Clowd.Squirrel-1.0.0-osx-full.nupkg").unwrap();
    assert_eq!(entry.name, "Clowd.Squirrel");
    assert_eq!(entry.version, Version::parse("1.0.0").unwrap());
    assert_eq!(entry.is_delta, false);
    assert_eq!(entry.os, Some("osx".to_string()));
    assert_eq!(entry.os_min_ver, None);
    assert_eq!(entry.os_arch, None);

    let entry = parse_package_file_name("Clowd.Squirrel-1.0.0-win-full.nupkg").unwrap();
    assert_eq!(entry.name, "Clowd.Squirrel");
    assert_eq!(entry.version, Version::parse("1.0.0").unwrap());
    assert_eq!(entry.is_delta, false);
    assert_eq!(entry.os, Some("win".to_string()));
    assert_eq!(entry.os_min_ver, None);
    assert_eq!(entry.os_arch, None);

    let entry = parse_package_file_name("Clowd.Squirrel-1.0.0-x86-full.nupkg").unwrap();
    assert_eq!(entry.name, "Clowd.Squirrel");
    assert_eq!(entry.version, Version::parse("1.0.0").unwrap());
    assert_eq!(entry.is_delta, false);
    assert_eq!(entry.os, None);
    assert_eq!(entry.os_min_ver, None);
    assert_eq!(entry.os_arch, Some("x86".to_string()));

    let entry = parse_package_file_name("Clowd.Squirrel-1.0.0-x64-full.nupkg").unwrap();
    assert_eq!(entry.name, "Clowd.Squirrel");
    assert_eq!(entry.version, Version::parse("1.0.0").unwrap());
    assert_eq!(entry.is_delta, false);
    assert_eq!(entry.os, None);
    assert_eq!(entry.os_min_ver, None);
    assert_eq!(entry.os_arch, Some("x64".to_string()));

    let entry = parse_package_file_name("Clowd.Squirrel-1.0.0-arm64-full.nupkg").unwrap();
    assert_eq!(entry.name, "Clowd.Squirrel");
    assert_eq!(entry.version, Version::parse("1.0.0").unwrap());
    assert_eq!(entry.is_delta, false);
    assert_eq!(entry.os, None);
    assert_eq!(entry.os_min_ver, None);
    assert_eq!(entry.os_arch, Some("arm64".to_string()));

    // test with full rid
    let entry = parse_package_file_name("Clowd.Squirrel-1.0.0-win10-x64-full.nupkg").unwrap();
    assert_eq!(entry.name, "Clowd.Squirrel");
    assert_eq!(entry.version, Version::parse("1.0.0").unwrap());
    assert_eq!(entry.is_delta, false);
    assert_eq!(entry.os, Some("win".to_string()));
    assert_eq!(entry.os_min_ver, Some("10".to_string()));
    assert_eq!(entry.os_arch, Some("x64".to_string()));

    let entry = parse_package_file_name("Clowd.Squirrel-1.0.0-win10-arm64-full.nupkg").unwrap();
    assert_eq!(entry.name, "Clowd.Squirrel");
    assert_eq!(entry.version, Version::parse("1.0.0").unwrap());
    assert_eq!(entry.is_delta, false);
    assert_eq!(entry.os, Some("win".to_string()));
    assert_eq!(entry.os_min_ver, Some("10".to_string()));
    assert_eq!(entry.os_arch, Some("arm64".to_string()));

    // test with version extras
    let entry = parse_package_file_name("MyCoolApp-1.2.3-beta1-win7-x64-full.nupkg").unwrap();
    assert_eq!(entry.name, "MyCoolApp");
    assert_eq!(entry.version, Version::parse("1.2.3-beta1").unwrap());
    assert_eq!(entry.is_delta, false);
    assert_eq!(entry.os, Some("win".to_string()));
    assert_eq!(entry.os_min_ver, Some("7".to_string()));
    assert_eq!(entry.os_arch, Some("x64".to_string()));

    let entry = parse_package_file_name("MyCoolApp-1.2.3-beta1-win7-x64-delta.nupkg").unwrap();
    assert_eq!(entry.name, "MyCoolApp");
    assert_eq!(entry.version, Version::parse("1.2.3-beta1").unwrap());
    assert_eq!(entry.is_delta, true);
    assert_eq!(entry.os, Some("win".to_string()));
    assert_eq!(entry.os_min_ver, Some("7".to_string()));
    assert_eq!(entry.os_arch, Some("x64".to_string()));

    let entry = parse_package_file_name("MyCoolApp-1.2.3-beta.22.44-win7-x64-full.nupkg").unwrap();
    assert_eq!(entry.name, "MyCoolApp");
    assert_eq!(entry.version, Version::parse("1.2.3-beta.22.44").unwrap());
    assert_eq!(entry.is_delta, false);
    assert_eq!(entry.os, Some("win".to_string()));
    assert_eq!(entry.os_min_ver, Some("7".to_string()));
    assert_eq!(entry.os_arch, Some("x64".to_string()));

    // test invalid names
    assert!(parse_package_file_name("MyCoolApp-1.2.3-beta1-win7-x64-full.nupkg.zip").is_none());
    assert!(parse_package_file_name("MyCoolApp-1.2.3-beta1-win7-x64-full.zip").is_none());
    assert!(parse_package_file_name("MyCoolApp-1.2.3.nupkg").is_none());
    assert!(parse_package_file_name("MyCoolApp-1.2-full.nupkg").is_none());
}
