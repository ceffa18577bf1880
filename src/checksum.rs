//! Tagged digests and their algorithm tokens.
use vstd::prelude::*;
use crate::error::MetadataError;
use crate::text::str_eq;

verus! {

/// The algorithm of a digest, without the digest itself.
#[derive(Debug, PartialEq, Eq, Clone, Copy, Structural)]
pub enum ChecksumType {
    Sha1,
    Sha256,
    Sha384,
    Sha512,
    Unknown,
}

/// A hex digest tagged with the algorithm that produced it.
#[derive(Debug)]
pub enum Checksum {
    Sha1(String),
    Sha256(String),
    Sha384(String),
    Sha512(String),
    Unknown,
}

/// The algorithm a metadata token names, if any; `sha` is an alias of `sha1`.
pub open spec fn checksum_type_of(token: Seq<char>) -> ChecksumType {
    if token == "sha"@ || token == "sha1"@ {
        ChecksumType::Sha1
    } else if token == "sha256"@ {
        ChecksumType::Sha256
    } else if token == "sha384"@ {
        ChecksumType::Sha384
    } else if token == "sha512"@ {
        ChecksumType::Sha512
    } else {
        ChecksumType::Unknown
    }
}

/// The canonical token written for an algorithm.
pub open spec fn checksum_token(t: ChecksumType) -> Seq<char> {
    match t {
        ChecksumType::Sha1 => "sha1"@,
        ChecksumType::Sha256 => "sha256"@,
        ChecksumType::Sha384 => "sha384"@,
        ChecksumType::Sha512 => "sha512"@,
        ChecksumType::Unknown => Seq::empty(),
    }
}

/// Reading back the token written for an algorithm gives that algorithm.
pub proof fn lemma_checksum_token_round_trip(t: ChecksumType)
    requires
        t != ChecksumType::Unknown,
    ensures
        checksum_type_of(checksum_token(t)) == t,
{
    reveal_strlit("sha");
    reveal_strlit("sha1");
    reveal_strlit("sha256");
    reveal_strlit("sha384");
    reveal_strlit("sha512");
    assert("sha"@.len() == 3 && "sha1"@.len() == 4 && "sha256"@.len() == 6);
    assert("sha384"@.len() == 6 && "sha512"@.len() == 6);
    assert("sha256"@[3] != "sha384"@[3] && "sha256"@[3] != "sha512"@[3] && "sha384"@[3] != "sha512"@[3]);
}

/// `sha` and `sha1` both name SHA-1, which is written back as `sha1`.
pub proof fn lemma_sha1_aliases()
    ensures
        checksum_type_of("sha"@) == ChecksumType::Sha1,
        checksum_type_of("sha1"@) == ChecksumType::Sha1,
        checksum_token(ChecksumType::Sha1) == "sha1"@,
{
}

impl Checksum {
    /// The algorithm of this checksum.
    pub open spec fn spec_kind(&self) -> ChecksumType {
        match self {
            Checksum::Sha1(_) => ChecksumType::Sha1,
            Checksum::Sha256(_) => ChecksumType::Sha256,
            Checksum::Sha384(_) => ChecksumType::Sha384,
            Checksum::Sha512(_) => ChecksumType::Sha512,
            Checksum::Unknown => ChecksumType::Unknown,
        }
    }

    /// The digest text; empty for `Unknown`.
    pub open spec fn spec_digest(&self) -> Seq<char> {
        match self {
            Checksum::Sha1(d) => d@,
            Checksum::Sha256(d) => d@,
            Checksum::Sha384(d) => d@,
            Checksum::Sha512(d) => d@,
            Checksum::Unknown => Seq::empty(),
        }
    }

    /// Builds a checksum from an algorithm token and a digest.
    pub fn try_create(checksum_type: &str, checksum: &str) -> (r: Result<Self, MetadataError>)
        ensures
            checksum_type_of(checksum_type@) != ChecksumType::Unknown ==> (r matches Ok(c) && c.spec_kind()
                == checksum_type_of(checksum_type@) && c.spec_digest() == checksum@),
            checksum_type_of(checksum_type@) == ChecksumType::Unknown ==> (r matches Err(
                MetadataError::UnsupportedChecksumTypeError(t),
            ) && t@ == checksum_type@),
    {
        let digest = checksum.to_owned();
        if str_eq(checksum_type, "sha") || str_eq(checksum_type, "sha1") {
            Ok(Checksum::Sha1(digest))
        } else if str_eq(checksum_type, "sha256") {
            Ok(Checksum::Sha256(digest))
        } else if str_eq(checksum_type, "sha384") {
            Ok(Checksum::Sha384(digest))
        } else if str_eq(checksum_type, "sha512") {
            Ok(Checksum::Sha512(digest))
        } else {
            Err(MetadataError::UnsupportedChecksumTypeError(checksum_type.to_owned()))
        }
    }

    /// The algorithm token and digest to write out. An `Unknown` checksum is
    /// never serialized, so it is excluded by the precondition.
    pub fn to_values<'a>(&'a self) -> (r: Result<(&'static str, &'a str), MetadataError>)
        requires
            self.spec_kind() != ChecksumType::Unknown,
        ensures
            r matches Ok(v) && v.0@ == checksum_token(self.spec_kind()) && v.1@ == self.spec_digest(),
    {
        let values = match self {
            Checksum::Sha1(c) => ("sha1", c.as_str()),
            Checksum::Sha256(c) => ("sha256", c.as_str()),
            Checksum::Sha384(c) => ("sha384", c.as_str()),
            Checksum::Sha512(c) => ("sha512", c.as_str()),
            Checksum::Unknown => ("", ""),
        };
        Ok(values)
    }
}

impl Clone for Checksum {
    fn clone(&self) -> (r: Self)
        ensures
            r == *self,
    {
        match self {
            Checksum::Sha1(c) => Checksum::Sha1(c.clone()),
            Checksum::Sha256(c) => Checksum::Sha256(c.clone()),
            Checksum::Sha384(c) => Checksum::Sha384(c.clone()),
            Checksum::Sha512(c) => Checksum::Sha512(c.clone()),
            Checksum::Unknown => Checksum::Unknown,
        }
    }
}

impl PartialEq for Checksum {
    fn eq(&self, other: &Checksum) -> (r: bool) {
        match (self, other) {
            (Checksum::Sha1(a), Checksum::Sha1(b)) => *a == *b,
            (Checksum::Sha256(a), Checksum::Sha256(b)) => *a == *b,
            (Checksum::Sha384(a), Checksum::Sha384(b)) => *a == *b,
            (Checksum::Sha512(a), Checksum::Sha512(b)) => *a == *b,
            (Checksum::Unknown, Checksum::Unknown) => true,
            _ => false,
        }
    }
}

impl vstd::std_specs::cmp::PartialEqSpecImpl for Checksum {
    open spec fn obeys_eq_spec() -> bool {
        true
    }

    open spec fn eq_spec(&self, other: &Checksum) -> bool {
        self.spec_kind() == other.spec_kind() && self.spec_digest() == other.spec_digest()
    }
}

impl Default for Checksum {
    fn default() -> (r: Self)
        ensures
            r == Checksum::Unknown,
    {
        Checksum::Unknown
    }
}

} // verus!
