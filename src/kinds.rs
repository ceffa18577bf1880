//! Closed sets of tokens found in metadata documents and the enums they map to.
use vstd::prelude::*;
use crate::error::MetadataError;
use crate::text::str_eq;

verus! {

pub const METADATA_PRIMARY: &'static str = "primary";
pub const METADATA_FILELISTS: &'static str = "filelists";
pub const METADATA_OTHER: &'static str = "other";
pub const METADATA_PRIMARY_DB: &'static str = "primary_db";
pub const METADATA_FILELISTS_DB: &'static str = "filelists_db";
pub const METADATA_OTHER_DB: &'static str = "other_db";
pub const METADATA_PRIMARY_ZCK: &'static str = "primary_zck";
pub const METADATA_FILELISTS_ZCK: &'static str = "filelists_zck";
pub const METADATA_OTHER_ZCK: &'static str = "other_zck";

/// Default namespace for primary.xml
pub const XML_NS_COMMON: &'static str = "http://linux.duke.edu/metadata/common";
/// Default namespace for filelists.xml
pub const XML_NS_FILELISTS: &'static str = "http://linux.duke.edu/metadata/filelists";
/// Default namespace for other.xml
pub const XML_NS_OTHER: &'static str = "http://linux.duke.edu/metadata/other";
/// Default namespace for repomd.xml
pub const XML_NS_REPO: &'static str = "http://linux.duke.edu/metadata/repo";
/// Namespace for rpm (used in primary.xml and repomd.xml)
pub const XML_NS_RPM: &'static str = "http://linux.duke.edu/metadata/rpm";

/// The compression codec a metadata file is stored with.
#[derive(Debug, Clone, Copy, PartialEq, Eq, Structural)]
pub enum CompressionType {
    Uncompressed,
    Gzip,
    Xz,
    Bz2,
}

/// The codec a configuration token names, if any.
pub open spec fn compression_of(token: Seq<char>) -> Option<CompressionType> {
    if token == "gzip"@ {
        Some(CompressionType::Gzip)
    } else if token == "bz2"@ {
        Some(CompressionType::Bz2)
    } else if token == "xz"@ {
        Some(CompressionType::Xz)
    } else if token == "none"@ {
        Some(CompressionType::Uncompressed)
    } else {
        None
    }
}

impl CompressionType {
    /// Maps a configuration token to its codec; an unknown token is reported
    /// with the token itself.
    pub fn try_from_token(token: &str) -> (r: Result<CompressionType, MetadataError>)
        ensures
            compression_of(token@) matches Some(t) ==> r == Ok::<CompressionType, MetadataError>(t),
            compression_of(token@) is None ==> (r matches Err(MetadataError::UnsupportedChecksumTypeError(
                s,
            )) && s@ == token@),
    {
        if str_eq(token, "gzip") {
            Ok(CompressionType::Gzip)
        } else if str_eq(token, "bz2") {
            Ok(CompressionType::Bz2)
        } else if str_eq(token, "xz") {
            Ok(CompressionType::Xz)
        } else if str_eq(token, "none") {
            Ok(CompressionType::Uncompressed)
        } else {
            Err(MetadataError::UnsupportedChecksumTypeError(token.to_owned()))
        }
    }
}

/// The comparison operator of a versioned dependency.
#[derive(Debug, Clone, Copy, PartialEq, Eq, Structural)]
pub enum RequirementType {
    LT,
    GT,
    EQ,
    LE,
    GE,
}

/// The token a comparison operator is written as.
pub open spec fn requirement_token(t: RequirementType) -> Seq<char> {
    match t {
        RequirementType::LT => "LT"@,
        RequirementType::GT => "GT"@,
        RequirementType::EQ => "EQ"@,
        RequirementType::LE => "LE"@,
        RequirementType::GE => "GE"@,
    }
}

impl RequirementType {
    /// The token this operator is written as.
    pub fn as_str(self) -> (r: &'static str)
        ensures
            r@ == requirement_token(self),
    {
        <&'static str as From<RequirementType>>::from(self)
    }
}

impl From<RequirementType> for &'static str {
    fn from(rtype: RequirementType) -> (r: &'static str) {
        match rtype {
            RequirementType::LT => "LT",
            RequirementType::GT => "GT",
            RequirementType::EQ => "EQ",
            RequirementType::LE => "LE",
            RequirementType::GE => "GE",
        }
    }
}

impl vstd::std_specs::convert::FromSpecImpl<RequirementType> for &'static str {
    open spec fn obeys_from_spec() -> bool {
        true
    }

    open spec fn from_spec(rtype: RequirementType) -> &'static str {
        match rtype {
            RequirementType::LT => "LT",
            RequirementType::GT => "GT",
            RequirementType::EQ => "EQ",
            RequirementType::LE => "LE",
            RequirementType::GE => "GE",
        }
    }
}

/// The kind of an entry of a package's file list.
#[derive(Debug, Clone, Copy, PartialEq, Eq, Structural)]
pub enum FileType {
    File,
    Dir,
    GhostFile,
}

/// The file kind a token names, if any.
pub open spec fn file_type_of(token: Seq<char>) -> Option<FileType> {
    if token == "dir"@ {
        Some(FileType::Dir)
    } else if token == "ghost"@ {
        Some(FileType::GhostFile)
    } else if token == "file"@ {
        Some(FileType::File)
    } else {
        None
    }
}

/// The token a file kind is written as.
pub open spec fn file_type_token(t: FileType) -> Seq<char> {
    match t {
        FileType::File => "file"@,
        FileType::Dir => "dir"@,
        FileType::GhostFile => "ghost"@,
    }
}

/// Reading back the token written for a file kind gives that kind.
pub proof fn lemma_file_type_token_round_trip(t: FileType)
    ensures
        file_type_of(file_type_token(t)) == Some(t),
{
    reveal_strlit("file");
    reveal_strlit("dir");
    reveal_strlit("ghost");
    assert("file"@.len() == 4 && "dir"@.len() == 3 && "ghost"@.len() == 5);
}

impl FileType {
    /// Maps a file-kind token to its kind; only the three known tokens are
    /// accepted.
    pub fn try_create(val: &str) -> (r: Result<Self, MetadataError>)
        requires
            file_type_of(val@) is Some,
        ensures
            r == Ok::<FileType, MetadataError>(file_type_of(val@).unwrap()),
    {
        if str_eq(val, "dir") {
            Ok(FileType::Dir)
        } else if str_eq(val, "ghost") {
            Ok(FileType::GhostFile)
        } else {
            Ok(FileType::File)
        }
    }

    /// The token this kind is written as.
    pub fn to_values(&self) -> (r: &'static str)
        ensures
            r@ == file_type_token(*self),
    {
        match self {
            FileType::File => "file",
            FileType::Dir => "dir",
            FileType::GhostFile => "ghost",
        }
    }
}

impl Default for FileType {
    fn default() -> (r: Self)
        ensures
            r == FileType::File,
    {
        FileType::File
    }
}

/// The kind of a metadata file listed in a repository index.
#[derive(Debug, Clone, Copy, PartialEq, Eq, Structural)]
pub enum MetadataType {
    Primary,
    Filelists,
    Other,
    PrimaryZck,
    FilelistsZck,
    OtherZck,
    PrimaryDb,
    FilelistsDb,
    OtherDb,
    Unknown,
}

/// The kind a repository-index token names; every other token is `Unknown`.
pub open spec fn metadata_type_of(name: Seq<char>) -> MetadataType {
    if name == METADATA_PRIMARY@ {
        MetadataType::Primary
    } else if name == METADATA_FILELISTS@ {
        MetadataType::Filelists
    } else if name == METADATA_OTHER@ {
        MetadataType::Other
    } else if name == METADATA_PRIMARY_DB@ {
        MetadataType::PrimaryDb
    } else if name == METADATA_FILELISTS_DB@ {
        MetadataType::FilelistsDb
    } else if name == METADATA_OTHER_DB@ {
        MetadataType::OtherDb
    } else if name == METADATA_PRIMARY_ZCK@ {
        MetadataType::PrimaryZck
    } else if name == METADATA_FILELISTS_ZCK@ {
        MetadataType::FilelistsZck
    } else if name == METADATA_OTHER_ZCK@ {
        MetadataType::OtherZck
    } else {
        MetadataType::Unknown
    }
}

impl<'a> From<&'a str> for MetadataType {
    fn from(name: &'a str) -> (r: Self) {
        if str_eq(name, METADATA_PRIMARY) {
            MetadataType::Primary
        } else if str_eq(name, METADATA_FILELISTS) {
            MetadataType::Filelists
        } else if str_eq(name, METADATA_OTHER) {
            MetadataType::Other
        } else if str_eq(name, METADATA_PRIMARY_DB) {
            MetadataType::PrimaryDb
        } else if str_eq(name, METADATA_FILELISTS_DB) {
            MetadataType::FilelistsDb
        } else if str_eq(name, METADATA_OTHER_DB) {
            MetadataType::OtherDb
        } else if str_eq(name, METADATA_PRIMARY_ZCK) {
            MetadataType::PrimaryZck
        } else if str_eq(name, METADATA_FILELISTS_ZCK) {
            MetadataType::FilelistsZck
        } else if str_eq(name, METADATA_OTHER_ZCK) {
            MetadataType::OtherZck
        } else {
            MetadataType::Unknown
        }
    }
}

impl<'a> vstd::std_specs::convert::FromSpecImpl<&'a str> for MetadataType {
    open spec fn obeys_from_spec() -> bool {
        true
    }

    open spec fn from_spec(name: &'a str) -> MetadataType {
        metadata_type_of(name@)
    }
}

/// The document type a format codec reads and writes, with the file name it
/// is stored under.
pub trait RpmMetadata {
    /// The file name of the document, before any compression suffix.
    fn filename() -> &'static str;
}

/// The repository index, repomd.xml.
pub struct RepomdXml;

/// Package summaries and dependencies, primary.xml.
pub struct PrimaryXml;

/// Per-package file manifests, filelists.xml.
pub struct FilelistsXml;

/// Per-package changelogs, other.xml.
pub struct OtherXml;

/// Update advisories, updateinfo.xml.
pub struct UpdateinfoXml;

impl RpmMetadata for RepomdXml {
    fn filename() -> (r: &'static str) {
        "repomd.xml"
    }
}

impl RpmMetadata for PrimaryXml {
    fn filename() -> (r: &'static str) {
        "primary.xml"
    }
}

impl RpmMetadata for FilelistsXml {
    fn filename() -> (r: &'static str) {
        "filelists.xml"
    }
}

impl RpmMetadata for OtherXml {
    fn filename() -> (r: &'static str) {
        "other.xml"
    }
}

impl RpmMetadata for UpdateinfoXml {
    fn filename() -> (r: &'static str) {
        "updateinfo.xml"
    }
}

} // verus!
