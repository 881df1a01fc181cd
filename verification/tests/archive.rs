use bundle::{
    load_bundle_from_memory, load_bundle_from_source, BundleError, BundleSource, EntryKind,
    ExtractAction, MemorySource, Platform, ReadSeek, Version,
};
use std::io::Write;

const NUSPEC: &str = "<package><metadata><id>My.App</id><version>1.2.3</version>\
                      <mainExe>MyApp.exe</mainExe></metadata></package>";

fn archive(entries: &[(&str, &[u8])], deflate: bool) -> Vec<u8> {
    let mut writer = zip::ZipWriter::new(std::io::Cursor::new(Vec::new()));
    let method = if deflate { zip::CompressionMethod::Deflated } else { zip::CompressionMethod::Stored };
    let options = zip::write::FileOptions::default().compression_method(method);
    for (name, data) in entries {
        writer.start_file(*name, options).unwrap();
        writer.write_all(data).unwrap();
    }
    writer.finish().unwrap().into_inner()
}

fn position(bytes: &[u8], needle: &[u8], from: usize) -> usize {
    (from..bytes.len() - needle.len() + 1).find(|&i| &bytes[i..i + needle.len()] == needle).unwrap()
}

/// Marks the entry `name` as encrypted in the archive's directory.
fn lock_entry(bytes: &mut Vec<u8>, name: &str) {
    let mut at = 0;
    loop {
        let header = position(bytes, b"PK\x01\x02", at);
        let name_len = u16::from_le_bytes([bytes[header + 28], bytes[header + 29]]) as usize;
        if &bytes[header + 46..header + 46 + name_len] == name.as_bytes() {
            bytes[header + 8] |= 1;
            return;
        }
        at = header + 4;
    }
}

fn sample() -> Vec<u8> {
    archive(
        &[
            ("My.App.nuspec", NUSPEC.as_bytes()),
            ("lib/net45/MyApp.exe", b"main program"),
            ("lib/net45/sub/a.dll", b"library"),
            ("lib/net45/", b""),
            ("lib/net45/Squirrel.exe", b"updater"),
            ("lib/net45/MyApp_ExecutionStub.exe", b"stub"),
            ("other/readme.txt", b"read me"),
            ("lib\\net45\\splashimage.png", b"\x89PNG"),
        ],
        true,
    )
}

#[test]
fn entries_are_counted_and_named_in_order() {
    let mut bundle = load_bundle_from_memory(sample()).unwrap();
    assert_eq!(bundle.len(), 8);
    assert_eq!(
        bundle.get_file_names().unwrap(),
        vec![
            "My.App.nuspec",
            "lib/net45/MyApp.exe",
            "lib/net45/sub/a.dll",
            "lib/net45/",
            "lib/net45/Squirrel.exe",
            "lib/net45/MyApp_ExecutionStub.exe",
            "other/readme.txt",
            "lib\\net45\\splashimage.png",
        ]
    );
    let record = bundle.entry(1).unwrap();
    assert_eq!(record.name, "lib/net45/MyApp.exe");
    assert_eq!(record.size, 12);
    assert!(bundle.entry(8).is_none());
    assert_eq!(bundle.read_entry(2), Ok(b"library".to_vec()));
    assert_eq!(bundle.read_entry(8), Err(BundleError::UnreadableEntry(8)));
    let empty = load_bundle_from_memory(archive(&[], false)).unwrap();
    assert_eq!(empty.len(), 0);
}

#[test]
fn bytes_that_hold_no_archive_are_refused() {
    assert_eq!(load_bundle_from_memory(Vec::new()).err(), Some(BundleError::InvalidArchive));
    assert_eq!(load_bundle_from_memory(b"not an archive".to_vec()).err(), Some(BundleError::InvalidArchive));
    let mut cut = sample();
    cut.truncate(40);
    assert_eq!(load_bundle_from_memory(cut).err(), Some(BundleError::InvalidArchive));
}

#[test]
fn entries_are_found_by_name() {
    let mut bundle = load_bundle_from_memory(sample()).unwrap();
    assert_eq!(bundle.find_entry(EntryKind::Manifest), Some(0));
    assert_eq!(bundle.find_entry(EntryKind::Updater), Some(4));
    assert_eq!(bundle.find_entry(EntryKind::Splash), Some(7));
    assert_eq!(bundle.find_zip_file(|name: &str| name.ends_with(".dll")), Some(2));
    assert_eq!(bundle.find_zip_file(|name: &str| name.starts_with("lib/")), Some(1));
    assert_eq!(bundle.find_zip_file(|name: &str| name.is_empty()), None);
    assert_eq!(bundle.find_zip_file(|_: &str| true), Some(0));
    let mut other = load_bundle_from_memory(archive(&[("a.txt", b"a")], false)).unwrap();
    assert_eq!(other.find_entry(EntryKind::Manifest), None);
    assert_eq!(other.find_entry(EntryKind::Updater), None);
    assert_eq!(other.find_entry(EntryKind::Splash), None);
}

#[test]
fn first_match_is_taken() {
    let bytes = archive(
        &[("a/one.nuspec", b"1"), ("two.nuspec", b"2"), ("xSquirrel.exe", b"3"), ("Squirrel.exe", b"4")],
        false,
    );
    let mut bundle = load_bundle_from_memory(bytes).unwrap();
    assert_eq!(bundle.find_entry(EntryKind::Manifest), Some(0));
    assert_eq!(bundle.find_entry(EntryKind::Updater), Some(2));
    assert_eq!(bundle.read_matching(|name: &str| name.contains("two")), Ok((1, b"2".to_vec())));
    assert_eq!(bundle.read_matching(|name: &str| name.contains("three")), Err(BundleError::EntryNotFound));
    // Of several entries that the search accepts, the first is read.
    assert_eq!(bundle.read_matching(|name: &str| name.ends_with(".nuspec")), Ok((0, b"1".to_vec())));
    assert_eq!(bundle.read_matching(|name: &str| name.ends_with("Squirrel.exe")), Ok((2, b"3".to_vec())));
    assert_eq!(bundle.read_matching(|_: &str| true), Ok((0, b"1".to_vec())));
    assert_eq!(bundle.read_matching(|_: &str| false), Err(BundleError::EntryNotFound));
}

#[test]
fn sizes_are_summed() {
    let data = vec![7u8; 10_000];
    let bytes = archive(&[("a.bin", &data), ("b.bin", &data[..100]), ("c.txt", b"")], false);
    let mut bundle = load_bundle_from_memory(bytes).unwrap();
    assert_eq!(bundle.calculate_size(), (10_100, 10_100));
    let bytes = archive(&[("a.bin", &data), ("b.bin", &data[..100])], true);
    let mut bundle = load_bundle_from_memory(bytes).unwrap();
    let (compressed, uncompressed) = bundle.calculate_size();
    assert_eq!(uncompressed, 10_100);
    assert!(compressed < 1_000);
    assert_eq!(compressed, bundle.entry(0).unwrap().compressed_size + bundle.entry(1).unwrap().compressed_size);
    let mut empty = load_bundle_from_memory(archive(&[], false)).unwrap();
    assert_eq!(empty.calculate_size(), (0, 0));
}

#[test]
fn entry_that_cannot_be_opened_is_passed_over() {
    let mut bytes = archive(
        &[("a.bin", b"12345"), ("locked.nuspec", NUSPEC.as_bytes()), ("b.nuspec", NUSPEC.as_bytes())],
        false,
    );
    lock_entry(&mut bytes, "locked.nuspec");
    let mut bundle = load_bundle_from_memory(bytes).unwrap();
    assert_eq!(bundle.len(), 3);
    assert!(bundle.entry(1).is_none());
    assert_eq!(bundle.read_entry(1), Err(BundleError::UnreadableEntry(1)));
    assert_eq!(bundle.calculate_size(), (5 + NUSPEC.len() as u64, 5 + NUSPEC.len() as u64));
    assert_eq!(bundle.find_entry(EntryKind::Manifest), Some(2));
    assert_eq!(bundle.find_zip_file(|_: &str| true), Some(0));
    assert_eq!(bundle.get_file_names(), Err(BundleError::UnreadableEntry(1)));
    assert_eq!(
        bundle.plan_lib_extraction("C:\\x", Platform::Windows),
        Err(BundleError::UnreadableEntry(1))
    );
    assert!(bundle.read_manifest().is_ok());
}

#[test]
fn entry_that_claims_a_cipher_without_a_lock_cannot_be_opened() {
    let mut writer = zip::ZipWriter::new(std::io::Cursor::new(Vec::new()));
    let options = zip::write::FileOptions::default().compression_method(zip::CompressionMethod::Stored);
    writer.start_file("a.txt", options).unwrap();
    writer.write_all(b"plain").unwrap();
    writer.start_file_with_extra_data("odd.bin", options).unwrap();
    writer.write_all(&[0xfe, 0xca, 7, 0, 2, 0, 0x41, 0x45, 1, 0, 0]).unwrap();
    writer.end_extra_data().unwrap();
    writer.write_all(b"data").unwrap();
    let mut bytes = writer.finish().unwrap().into_inner();
    let marker = [0xfe, 0xca, 7, 0, 2, 0, 0x41, 0x45, 1, 0, 0];
    let mut at = 0;
    let mut patched = 0;
    while at + marker.len() <= bytes.len() {
        if bytes[at..at + marker.len()] == marker {
            bytes[at] = 0x01;
            bytes[at + 1] = 0x99;
            patched += 1;
        }
        at += 1;
    }
    assert!(patched >= 1);
    let mut bundle = load_bundle_from_memory(bytes).unwrap();
    assert_eq!(bundle.len(), 2);
    assert_eq!(bundle.entry(0).unwrap().name, "a.txt");
    assert!(bundle.entry(1).is_none());
    assert_eq!(bundle.read_entry(1), Err(BundleError::UnreadableEntry(1)));
    assert_eq!(bundle.calculate_size(), (5, 5));
    assert_eq!(bundle.get_file_names(), Err(BundleError::UnreadableEntry(1)));
}

#[test]
fn manifest_is_read_from_the_bundle() {
    let mut bundle = load_bundle_from_memory(sample()).unwrap();
    let m = bundle.read_manifest().unwrap();
    assert_eq!(m.id, "My.App");
    assert_eq!(m.title, "My.App");
    assert_eq!(m.version, Version::new(1, 2, 3));
    assert_eq!(m.main_exe, "MyApp.exe");

    let mut none = load_bundle_from_memory(archive(&[("lib/net45/a.dll", b"x")], false)).unwrap();
    assert_eq!(none.read_manifest(), Err(BundleError::MissingManifest));

    let mut binary = load_bundle_from_memory(archive(&[("a.nuspec", b"<id>\xff\xfe</id>")], false)).unwrap();
    assert_eq!(binary.read_manifest(), Err(BundleError::InvalidText(0)));

    let mut linux = load_bundle_from_memory(archive(
        &[("a.nuspec", b"<p><id>a</id><os>linux</os></p>")],
        false,
    ))
    .unwrap();
    assert_eq!(linux.read_manifest(), Err(BundleError::UnsupportedOs("linux".to_string())));
}

#[test]
fn damaged_manifest_cannot_be_read() {
    let mut bytes = archive(&[("a.nuspec", NUSPEC.as_bytes())], false);
    let at = position(&bytes, b"My.App", 0);
    bytes[at] = b'X';
    let mut bundle = load_bundle_from_memory(bytes).unwrap();
    assert_eq!(bundle.find_entry(EntryKind::Manifest), Some(0));
    assert_eq!(bundle.read_manifest(), Err(BundleError::UnreadableEntry(0)));
    assert_eq!(bundle.read_matching(|_: &str| true), Err(BundleError::UnreadableEntry(0)));
}

#[test]
fn splash_image_is_optional() {
    let mut bundle = load_bundle_from_memory(sample()).unwrap();
    assert_eq!(bundle.get_splash_bytes(), Some(b"\x89PNG".to_vec()));

    let mut none = load_bundle_from_memory(archive(&[("a.nuspec", NUSPEC.as_bytes())], false)).unwrap();
    assert_eq!(none.get_splash_bytes(), None);

    let mut empty = load_bundle_from_memory(archive(&[("splashimage.gif", b"")], false)).unwrap();
    assert_eq!(empty.get_splash_bytes(), None);

    let mut bytes = archive(&[("my-splashimage.gif", b"GIF89a-picture")], false);
    let at = position(&bytes, b"GIF89a-picture", 0);
    bytes[at + 3] ^= 0xff;
    let mut damaged = load_bundle_from_memory(bytes).unwrap();
    assert_eq!(damaged.find_entry(EntryKind::Splash), Some(0));
    assert_eq!(damaged.get_splash_bytes(), None);

    let mut bytes = archive(&[("splashimage.png", b"picture"), ("a.txt", b"a")], false);
    lock_entry(&mut bytes, "splashimage.png");
    let mut locked = load_bundle_from_memory(bytes).unwrap();
    assert_eq!(locked.get_splash_bytes(), None);

    // Only the first entry so named is looked at.
    let mut two = load_bundle_from_memory(archive(
        &[("splashimage.a", b""), ("splashimage.b", b"second")],
        false,
    ))
    .unwrap();
    assert_eq!(two.get_splash_bytes(), None);
}

#[test]
fn content_is_planned_entry_by_entry() {
    let mut bundle = load_bundle_from_memory(sample()).unwrap();
    let plan = bundle.plan_lib_extraction("C:\\App/current", Platform::Windows).unwrap();
    assert_eq!(plan.manifest_index, 0);
    assert_eq!(plan.manifest_path, "C:\\App/current\\sq.version");
    let actions: Vec<ExtractAction> = plan.steps.iter().map(|s| s.action.clone()).collect();
    assert_eq!(
        actions,
        vec![
            ExtractAction::Skip,
            ExtractAction::Extract("C:\\App\\current\\MyApp.exe".to_string()),
            ExtractAction::Extract("C:\\App\\current\\sub\\a.dll".to_string()),
            ExtractAction::Skip,
            ExtractAction::Skip,
            ExtractAction::Skip,
            ExtractAction::Skip,
            ExtractAction::Extract("C:\\App\\current\\splashimage.png".to_string()),
        ]
    );
    let percents: Vec<i16> = plan.steps.iter().map(|s| s.percent).collect();
    assert_eq!(percents, vec![0, 12, 25, 37, 50, 62, 75, 87]);

    let plan = bundle.plan_lib_extraction("/Applications/My.app", Platform::MacOs).unwrap();
    assert_eq!(plan.manifest_path, "/Applications/My.app/sq.version");
    assert_eq!(plan.steps[2].action, ExtractAction::Extract("/Applications/My.app/sub/a.dll".to_string()));
    assert_eq!(plan.steps[7].action, ExtractAction::Extract("/Applications/My.app/splashimage.png".to_string()));
}

#[test]
fn bundle_without_manifest_plans_nothing() {
    let mut bundle =
        load_bundle_from_memory(archive(&[("lib/net45/MyApp.exe", b"x"), ("lib/net45/a.dll", b"y")], false)).unwrap();
    assert_eq!(bundle.plan_lib_extraction("C:\\App", Platform::Windows), Err(BundleError::MissingManifest));
    let mut empty = load_bundle_from_memory(archive(&[], false)).unwrap();
    assert_eq!(empty.plan_lib_extraction("C:\\App", Platform::Windows), Err(BundleError::MissingManifest));
}

#[test]
fn only_content_below_the_root_is_extracted() {
    let names: [&str; 12] = [
        "a.nuspec",
        "lib/net45/ok.txt",
        "lib//empty-dir-name.txt",
        "lib/net45",
        "lib/top.txt",
        "libs/net45/a.txt",
        "Lib/net45/a.txt",
        "x/lib/net45/a.txt",
        "lib/net45/deep/er/file.txt",
        "lib/net45/dir\\",
        "lib/net45/x_ExecutionStub.exe",
        "lib/net45/_ExecutionStub.exe.bak",
    ];
    let entries: Vec<(&str, &[u8])> = names.iter().map(|n| (*n, &b"d"[..])).collect();
    let mut bundle = load_bundle_from_memory(archive(&entries, false)).unwrap();
    let plan = bundle.plan_lib_extraction("/r", Platform::MacOs).unwrap();
    let extracted: Vec<(usize, String)> = plan
        .steps
        .iter()
        .enumerate()
        .filter_map(|(i, s)| match &s.action {
            ExtractAction::Extract(path) => Some((i, path.clone())),
            ExtractAction::Skip => None,
        })
        .collect();
    assert_eq!(
        extracted,
        vec![
            (1, "/r/ok.txt".to_string()),
            (2, "/r/empty-dir-name.txt".to_string()),
            (8, "/r/deep/er/file.txt".to_string()),
            (11, "/r/_ExecutionStub.exe.bak".to_string()),
        ]
    );
    assert_eq!(plan.steps.len(), names.len());
}

#[test]
fn progress_never_goes_back() {
    for total in [1usize, 2, 3, 7, 100, 101, 250] {
        let names: Vec<String> = (0..total).map(|i| format!("lib/d/f{}.nuspec", i)).collect();
        let entries: Vec<(&str, &[u8])> = names.iter().map(|n| (n.as_str(), &b""[..])).collect();
        let mut bundle = load_bundle_from_memory(archive(&entries, false)).unwrap();
        let plan = bundle.plan_lib_extraction("/r", Platform::MacOs).unwrap();
        assert_eq!(plan.steps.len(), total);
        let mut last = 0;
        for (i, step) in plan.steps.iter().enumerate() {
            assert_eq!(step.percent as usize, i * 100 / total);
            assert!(step.percent >= last && step.percent < 100);
            last = step.percent;
        }
        assert_eq!(plan.steps[0].percent, 0);
    }
}

#[test]
fn bundle_remembers_where_it_came_from() {
    let bytes = sample();
    let bundle = load_bundle_from_memory(bytes.clone()).unwrap();
    assert_eq!(bundle.source(), &BundleSource::Memory(bytes.clone()));

    let mut source = MemorySource { bytes: bytes.clone() };
    assert_eq!(source.read_all(), Some(bytes.clone()));
    let mut bundle = load_bundle_from_source(&mut source, "C:\\pkgs\\a-1.0.0-full.nupkg".to_string()).unwrap();
    assert_eq!(bundle.source(), &BundleSource::File("C:\\pkgs\\a-1.0.0-full.nupkg".to_string()));
    assert_eq!(bundle.len(), 8);
    assert_eq!(bundle.read_manifest().unwrap().id, "My.App");

    let mut broken = MemorySource { bytes: b"junk".to_vec() };
    assert_eq!(load_bundle_from_source(&mut broken, "p".to_string()).err(), Some(BundleError::InvalidArchive));
}

struct Unreadable;

impl ReadSeek for Unreadable {
    fn read_all(&mut self) -> Option<Vec<u8>> {
        None
    }
}

#[test]
fn source_that_cannot_be_read_is_reported() {
    assert_eq!(
        load_bundle_from_source(&mut Unreadable, "p".to_string()).err(),
        Some(BundleError::UnreadableSource)
    );
    assert_eq!(
        bundle::archive::bundle_of_source_bytes(None, "p".to_string()).err(),
        Some(BundleError::UnreadableSource)
    );
}
