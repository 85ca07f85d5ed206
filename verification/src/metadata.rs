//! Metadata: the structured description of a token and of the whole
//! registry. Both are plain data; the registry never interprets them beyond
//! the validity check at construction and the storage units they occupy.

use vstd::prelude::*;

verus! {

/// Structured, optional description of one token.
#[derive(Debug, PartialEq, Eq)]
pub struct TokenMetadata {
    pub title: Option<String>,
    pub description: Option<String>,
    pub media: Option<String>,
    pub media_hash: Option<Vec<u8>>,
    pub copies: Option<u64>,
    pub issued_at: Option<String>,
    pub expires_at: Option<String>,
    pub starts_at: Option<String>,
    pub updated_at: Option<String>,
    pub extra: Option<String>,
    pub reference: Option<String>,
    pub reference_hash: Option<Vec<u8>>,
}

/// Description of the registry itself, fixed at construction.
#[derive(Debug, PartialEq, Eq)]
pub struct ContractMetadata {
    pub spec: String,
    pub name: String,
    pub symbol: String,
    pub icon: Option<String>,
    pub base_uri: Option<String>,
    pub reference: Option<String>,
    pub reference_hash: Option<Vec<u8>>,
}

/// The one metadata schema version this registry accepts.
pub open spec fn spec_version() -> Seq<char> {
    "nft-1.0.0"@
}

impl ContractMetadata {
    /// Contract metadata is valid when it names the supported schema and
    /// carries a reference hash exactly when it carries a reference.
    pub open spec fn valid(&self) -> bool {
        &&& self.spec@ == spec_version()
        &&& self.reference is Some <==> self.reference_hash is Some
    }

    /// Runs the validity check.
    pub fn check_valid(&self) -> (r: bool)
        ensures
            r == self.valid(),
    {
        let expected = "nft-1.0.0".to_owned();
        self.spec == expected && self.reference.is_some() == self.reference_hash.is_some()
    }
}

/// Whether two optional hash fields carry the same bytes.
pub open spec fn opt_bytes_eq(a: Option<Vec<u8>>, b: Option<Vec<u8>>) -> bool {
    match (a, b) {
        (Some(x), Some(y)) => x@ == y@,
        (None, None) => true,
        _ => false,
    }
}

/// Whether two token metadata values carry the same content, hash fields
/// compared byte for byte.
pub open spec fn same_metadata(a: TokenMetadata, b: TokenMetadata) -> bool {
    &&& a.title == b.title
    &&& a.description == b.description
    &&& a.media == b.media
    &&& opt_bytes_eq(a.media_hash, b.media_hash)
    &&& a.copies == b.copies
    &&& a.issued_at == b.issued_at
    &&& a.expires_at == b.expires_at
    &&& a.starts_at == b.starts_at
    &&& a.updated_at == b.updated_at
    &&& a.extra == b.extra
    &&& a.reference == b.reference
    &&& opt_bytes_eq(a.reference_hash, b.reference_hash)
}

/// An exact copy of an optional text field.
pub fn clone_opt_string(o: &Option<String>) -> (r: Option<String>)
    ensures
        r == *o,
{
    match o {
        Some(s) => Some(s.clone()),
        None => None,
    }
}

/// A byte-exact copy of an optional hash field.
pub fn clone_opt_bytes(o: &Option<Vec<u8>>) -> (r: Option<Vec<u8>>)
    ensures
        opt_bytes_eq(r, *o),
{
    match o {
        Some(b) => {
            let n = b.len();
            let mut out: Vec<u8> = Vec::new();
            let mut i: usize = 0;
            while i < n
                invariant
                    n == b@.len(),
                    0 <= i <= n,
                    out@ == b@.take(i as int),
                decreases n - i,
            {
                out.push(b[i]);
                proof {
                    assert(out@ =~= b@.take(i + 1));
                }
                i = i + 1;
            }
            proof {
                assert(out@ =~= b@);
            }
            Some(out)
        },
        None => None,
    }
}

/// A content-exact copy of a token's metadata.
pub fn clone_metadata(m: &TokenMetadata) -> (r: TokenMetadata)
    ensures
        same_metadata(r, *m),
{
    TokenMetadata {
        title: clone_opt_string(&m.title),
        description: clone_opt_string(&m.description),
        media: clone_opt_string(&m.media),
        media_hash: clone_opt_bytes(&m.media_hash),
        copies: m.copies,
        issued_at: clone_opt_string(&m.issued_at),
        expires_at: clone_opt_string(&m.expires_at),
        starts_at: clone_opt_string(&m.starts_at),
        updated_at: clone_opt_string(&m.updated_at),
        extra: clone_opt_string(&m.extra),
        reference: clone_opt_string(&m.reference),
        reference_hash: clone_opt_bytes(&m.reference_hash),
    }
}

} // verus!
