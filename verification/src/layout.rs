use vstd::prelude::*;
use crate::error::BundleError;
use crate::manifest::{Manifest, ManifestView};
use crate::text::{chars_of, decimal, push_decimal, push_text};

verus! {

/// The operating system whose conventions a path follows.
#[derive(Debug, Clone, Copy, PartialEq, Eq)]
pub enum Platform {
    Windows,
    MacOs,
}

/// The character that the platform puts between the parts of a path.
pub open spec fn separator(platform: Platform) -> char {
    match platform {
        Platform::Windows => '\\',
        Platform::MacOs => '/',
    }
}

/// A character that the platform reads as parting two parts of a path.
pub open spec fn is_separator(platform: Platform, c: char) -> bool {
    match platform {
        Platform::Windows => c == '\\' || c == '/',
        Platform::MacOs => c == '/',
    }
}

/// `child` below `root`: the two joined, with the platform's separator
/// between them unless `root` is empty or ends with a separator already.
pub open spec fn join_path(platform: Platform, root: Seq<char>, child: Seq<char>) -> Seq<char> {
    if root.len() == 0 || is_separator(platform, root.last()) {
        root + child
    } else {
        root + seq![separator(platform)] + child
    }
}

/// `path` with every `/` and `\` turned into the platform's separator.
pub open spec fn native_path(platform: Platform, path: Seq<char>) -> Seq<char> {
    path.map_values(
        |c: char|
            if c == '/' || c == '\\' {
                separator(platform)
            } else {
                c
            },
    )
}

/// The character that the platform puts between the parts of a path.
pub fn separator_char(platform: Platform) -> (c: char)
    ensures
        c == separator(platform),
{
    match platform {
        Platform::Windows => '\\',
        Platform::MacOs => '/',
    }
}

/// Whether the platform reads `c` as parting two parts of a path.
pub fn is_separator_char(platform: Platform, c: char) -> (r: bool)
    ensures
        r == is_separator(platform, c),
{
    match platform {
        Platform::Windows => c == '\\' || c == '/',
        Platform::MacOs => c == '/',
    }
}

/// `child` below `root`, by the conventions of `platform`.
pub fn join(platform: Platform, root: &str, child: &str) -> (r: String)
    ensures
        r@ == join_path(platform, root@, child@),
{
    let root_chars = chars_of(root);
    let mut out = String::new();
    push_text(&mut out, root);
    assert(out@ =~= root@);
    if root_chars.len() > 0 && !is_separator_char(platform, root_chars[root_chars.len() - 1]) {
        out.push(separator_char(platform));
    }
    push_text(&mut out, child);
    out
}

/// `path` with the platform's separator for every `/` and `\`.
pub fn to_native(platform: Platform, path: &str) -> (r: String)
    ensures
        r@ == native_path(platform, path@),
{
    let chars = chars_of(path);
    let mut out = String::new();
    let mut i: usize = 0;
    while i < chars.len()
        invariant
            i <= chars.len(),
            chars@ == path@,
            out@ == native_path(platform, path@.take(i as int)),
        decreases chars.len() - i,
    {
        let c = chars[i];
        if c == '/' || c == '\\' {
            out.push(separator_char(platform));
        } else {
            out.push(c);
        }
        i += 1;
        assert(out@ =~= native_path(platform, path@.take(i as int)));
    }
    assert(path@.take(chars.len() as int) =~= path@);
    out
}

impl ManifestView {
    /// The path of the updater below the install root.
    pub open spec fn update_path(self, root: Seq<char>) -> Seq<char> {
        join_path(Platform::Windows, root, "Update.exe"@)
    }

    /// The directory of the current build.
    pub open spec fn current_path(self, root: Seq<char>, platform: Platform) -> Seq<char> {
        match platform {
            Platform::Windows => join_path(platform, root, "current"@),
            Platform::MacOs => root,
        }
    }

    /// The path of the main executable in the current build.
    pub open spec fn main_exe_path(self, root: Seq<char>) -> Seq<char> {
        join_path(
            Platform::Windows,
            self.current_path(root, Platform::Windows),
            self.main_exe,
        )
    }

    /// The directory of the stored packages.
    pub open spec fn packages_path(self, root: Seq<char>, platform: Platform) -> Seq<char> {
        match platform {
            Platform::Windows => join_path(platform, root, "packages"@),
            Platform::MacOs => "/tmp/clowd.squirrel/"@ + self.id + "/packages"@,
        }
    }

    /// The path of the copy of the manifest that marks the installed version.
    pub open spec fn nuspec_path(self, root: Seq<char>, platform: Platform) -> Seq<char> {
        match platform {
            Platform::Windows => join_path(
                platform,
                join_path(platform, root, "current"@),
                "sq.version"@,
            ),
            Platform::MacOs => join_path(
                platform,
                join_path(platform, join_path(platform, root, "Contents"@), "MacOS"@),
                "sq.version"@,
            ),
        }
    }

    /// The name of the full package of this version.
    pub open spec fn nupkg_name(self) -> Seq<char> {
        self.id + seq!['-'] + self.version.text() + "-full.nupkg"@
    }

    /// The path at which the full package of this version is stored.
    pub open spec fn target_nupkg_path(self, root: Seq<char>) -> Seq<char> {
        join_path(
            Platform::Windows,
            self.packages_path(root, Platform::Windows),
            self.nupkg_name(),
        )
    }
}

impl Manifest {
    /// The path of the updater below the install root.
    pub fn get_update_path(&self, root_path: &str) -> (r: String)
        ensures
            r@ == self@.update_path(root_path@),
    {
        join(Platform::Windows, root_path, "Update.exe")
    }

    /// The path of the main executable in the current build.
    pub fn get_main_exe_path(&self, root_path: &str) -> (r: String)
        ensures
            r@ == self@.main_exe_path(root_path@),
    {
        let current = join(Platform::Windows, root_path, "current");
        join(Platform::Windows, current.as_str(), self.main_exe.as_str())
    }

    /// The directory of the stored packages.
    pub fn get_packages_path(&self, root_path: &str, platform: Platform) -> (r: String)
        ensures
            r@ == self@.packages_path(root_path@, platform),
    {
        match platform {
            Platform::Windows => join(platform, root_path, "packages"),
            Platform::MacOs => {
                let mut out = String::new();
                push_text(&mut out, "/tmp/clowd.squirrel/");
                push_text(&mut out, self.id.as_str());
                push_text(&mut out, "/packages");
                assert(out@ =~= self@.packages_path(root_path@, platform));
                out
            },
        }
    }

    /// The directory of the current build.
    pub fn get_current_path(&self, root_path: &str, platform: Platform) -> (r: String)
        ensures
            r@ == self@.current_path(root_path@, platform),
    {
        match platform {
            Platform::Windows => join(platform, root_path, "current"),
            Platform::MacOs => {
                let mut out = String::new();
                push_text(&mut out, root_path);
                assert(out@ =~= root_path@);
                out
            },
        }
    }

    /// The path of the copy of the manifest that marks the installed version.
    pub fn get_nuspec_path(&self, root_path: &str, platform: Platform) -> (r: String)
        ensures
            r@ == self@.nuspec_path(root_path@, platform),
    {
        match platform {
            Platform::Windows => {
                let current = join(platform, root_path, "current");
                join(platform, current.as_str(), "sq.version")
            },
            Platform::MacOs => {
                let contents = join(platform, root_path, "Contents");
                let macos = join(platform, contents.as_str(), "MacOS");
                join(platform, macos.as_str(), "sq.version")
            },
        }
    }

    /// The path at which the full package of this version is stored.
    pub fn get_target_nupkg_path(&self, root_path: &str) -> (r: String)
        ensures
            r@ == self@.target_nupkg_path(root_path@),
    {
        let mut name = String::new();
        push_text(&mut name, self.id.as_str());
        name.push('-');
        self.version.push_to(&mut name);
        push_text(&mut name, "-full.nupkg");
        assert(name@ =~= self@.nupkg_name());
        let packages = join(Platform::Windows, root_path, "packages");
        join(Platform::Windows, packages.as_str(), name.as_str())
    }
}


/// What is registered with the system so that the application can be
/// uninstalled.
#[derive(Debug, Clone, PartialEq, Eq)]
pub struct UninstallEntry {
    /// The name of the registration: the package's `id`.
    pub key: String,
    pub display_icon: String,
    pub display_name: String,
    pub display_version: String,
    pub install_date: String,
    pub install_location: String,
    pub publisher: String,
    pub quiet_uninstall_string: String,
    pub uninstall_string: String,
    /// The size of the install directory in KiB.
    pub estimated_size: u32,
    pub no_modify: u32,
    pub no_repair: u32,
    pub language: u32,
}

/// An `UninstallEntry` with its texts as sequences of characters.
pub struct UninstallEntryView {
    pub key: Seq<char>,
    pub display_icon: Seq<char>,
    pub display_name: Seq<char>,
    pub display_version: Seq<char>,
    pub install_date: Seq<char>,
    pub install_location: Seq<char>,
    pub publisher: Seq<char>,
    pub quiet_uninstall_string: Seq<char>,
    pub uninstall_string: Seq<char>,
    pub estimated_size: u32,
    pub no_modify: u32,
    pub no_repair: u32,
    pub language: u32,
}

impl View for UninstallEntry {
    type V = UninstallEntryView;

    open spec fn view(&self) -> UninstallEntryView {
        UninstallEntryView {
            key: self.key@,
            display_icon: self.display_icon@,
            display_name: self.display_name@,
            display_version: self.display_version@,
            install_date: self.install_date@,
            install_location: self.install_location@,
            publisher: self.publisher@,
            quiet_uninstall_string: self.quiet_uninstall_string@,
            uninstall_string: self.uninstall_string@,
            estimated_size: self.estimated_size,
            no_modify: self.no_modify,
            no_repair: self.no_repair,
            language: self.language,
        }
    }
}

/// `n` in decimal, with a minus sign where it is negative.
pub open spec fn signed_decimal(n: int) -> Seq<char> {
    if n < 0 {
        seq!['-'] + decimal((-n) as nat)
    } else {
        decimal(n as nat)
    }
}

/// `n` in decimal, with a leading zero where it has one digit only.
pub open spec fn two_digits(n: nat) -> Seq<char> {
    if n < 10 {
        seq!['0'] + decimal(n)
    } else {
        decimal(n)
    }
}

/// A date as the registration holds it: the year, then month and day with
/// two digits each.
pub open spec fn date_text(year: int, month: nat, day: nat) -> Seq<char> {
    signed_decimal(year) + two_digits(month) + two_digits(day)
}

/// The command that uninstalls through the updater at `updater`.
pub open spec fn uninstall_command(updater: Seq<char>, quiet: bool) -> Seq<char> {
    seq!['"'] + updater + (if quiet {
        "\" --uninstall --silent"@
    } else {
        "\" --uninstall"@
    })
}

impl ManifestView {
    /// The registration of this package installed below `root`, on the given
    /// day and with an install directory of `folder_size` bytes; an error
    /// where that size in KiB does not fit in 32 bits.
    pub open spec fn uninstall_entry(
        self,
        root: Seq<char>,
        folder_size: u64,
        year: int,
        month: nat,
        day: nat,
    ) -> Option<UninstallEntryView> {
        if folder_size / 1024 > u32::MAX {
            None
        } else {
            Some(
                UninstallEntryView {
                    key: self.id,
                    display_icon: self.main_exe_path(root),
                    display_name: self.title,
                    display_version: decimal(self.version.major as nat) + seq!['.'] + decimal(
                        self.version.minor as nat,
                    ) + seq!['.'] + decimal(self.version.patch as nat),
                    install_date: date_text(year, month, day),
                    install_location: root,
                    publisher: self.authors,
                    quiet_uninstall_string: uninstall_command(self.update_path(root), true),
                    uninstall_string: uninstall_command(self.update_path(root), false),
                    estimated_size: (folder_size / 1024) as u32,
                    no_modify: 1,
                    no_repair: 1,
                    language: 0x0409,
                },
            )
        }
    }
}

fn push_two_digits(out: &mut String, n: u32)
    ensures
        final(out)@ == old(out)@ + two_digits(n as nat),
{
    if n < 10 {
        out.push('0');
    }
    push_decimal(out, n as u64);
    assert(out@ =~= old(out)@ + two_digits(n as nat));
}

/// The date as the registration holds it.
pub fn format_date(year: i32, month: u32, day: u32) -> (r: String)
    ensures
        r@ == date_text(year as int, month as nat, day as nat),
{
    let mut out = String::new();
    if year < 0 {
        out.push('-');
        let magnitude: u64 = (-(year as i64)) as u64;
        push_decimal(&mut out, magnitude);
    } else {
        push_decimal(&mut out, year as u64);
    }
    assert(out@ =~= signed_decimal(year as int));
    push_two_digits(&mut out, month);
    push_two_digits(&mut out, day);
    out
}

fn uninstall_command_text(updater: &str, quiet: bool) -> (r: String)
    ensures
        r@ == uninstall_command(updater@, quiet),
{
    let mut out = String::new();
    out.push('"');
    push_text(&mut out, updater);
    if quiet {
        push_text(&mut out, "\" --uninstall --silent");
    } else {
        push_text(&mut out, "\" --uninstall");
    }
    assert(out@ =~= uninstall_command(updater@, quiet));
    out
}

impl Manifest {
    /// What to register with the system for this package installed below
    /// `root_path`, on the given day, with an install directory of
    /// `folder_size` bytes. Fails with `SizeOutOfRange` exactly where that
    /// size in KiB does not fit in 32 bits.
    pub fn uninstall_entry(
        &self,
        root_path: &str,
        folder_size: u64,
        year: i32,
        month: u32,
        day: u32,
    ) -> (r: Result<UninstallEntry, BundleError>)
        ensures
            match r {
                Ok(entry) => self@.uninstall_entry(
                    root_path@,
                    folder_size,
                    year as int,
                    month as nat,
                    day as nat,
                ) == Some(entry@),
                Err(e) => e == BundleError::SizeOutOfRange && self@.uninstall_entry(
                    root_path@,
                    folder_size,
                    year as int,
                    month as nat,
                    day as nat,
                ) is None,
            },
    {
        let kib: u64 = folder_size / 1024;
        if kib > 0xffff_ffff {
            return Err(BundleError::SizeOutOfRange);
        }
        let updater = self.get_update_path(root_path);
        let mut display_version = String::new();
        push_decimal(&mut display_version, self.version.major);
        display_version.push('.');
        push_decimal(&mut display_version, self.version.minor);
        display_version.push('.');
        push_decimal(&mut display_version, self.version.patch);
        let mut install_location = String::new();
        push_text(&mut install_location, root_path);
        assert(install_location@ =~= root_path@);
        let entry = UninstallEntry {
            key: self.id.clone(),
            display_icon: self.get_main_exe_path(root_path),
            display_name: self.title.clone(),
            display_version,
            install_date: format_date(year, month, day),
            install_location,
            publisher: self.authors.clone(),
            quiet_uninstall_string: uninstall_command_text(updater.as_str(), true),
            uninstall_string: uninstall_command_text(updater.as_str(), false),
            estimated_size: kib as u32,
            no_modify: 1,
            no_repair: 1,
            language: 0x0409,
        };
        assert(entry@.display_version =~= decimal(self.version.major as nat) + seq!['.'] + decimal(
            self.version.minor as nat,
        ) + seq!['.'] + decimal(self.version.patch as nat));
        Ok(entry)
    }
}

} // verus!
