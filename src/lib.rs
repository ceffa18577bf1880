//! Data model and streaming codecs for RPM repository metadata: package
//! records and their value types, the epoch/version/release ordering, and
//! loaders and writers for repomd.xml, primary.xml, filelists.xml and
//! other.xml that work one XML event at a time.
pub mod text;
pub mod xml;
pub mod error;
pub mod checksum;
pub mod evr;
pub mod kinds;
pub mod package;
pub mod records;
pub mod repository;
pub mod primary;
pub mod primary_write;
pub mod filelists;
pub mod other;
pub mod repomd;
pub mod updateinfo;
