pub mod archive;
pub mod error;
pub mod extract;
pub mod filename;
pub mod filename_laws;
pub mod layout;
pub mod manifest;
pub mod manifest_laws;
pub mod text;
pub mod version;

pub use archive::{
    load_bundle_from_memory, load_bundle_from_source, BundleInfo, BundleSource, EntryKind,
    EntryRecord, MemorySource, ReadSeek,
};
pub use error::BundleError;
pub use extract::{ExtractAction, ExtractStep, ExtractionPlan};
pub use filename::{
    parse_package_file_at, parse_package_file_found, parse_package_file_name,
    parse_package_file_path, EntryNameInfo,
};
pub use layout::{Platform, UninstallEntry};
pub use manifest::{
    read_manifest_from_string, read_manifest_from_tokens, validate_manifest, Manifest, XmlToken,
};
pub use version::Version;
