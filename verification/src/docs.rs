//! Document pipeline surface types: upload validation, stored-object
//! metadata, envelope encryption shapes and OCR requests. The stores,
//! providers and transports themselves run outside this core.

use vstd::prelude::*;

use crate::text::eq_ignore_case;
use crate::text::lower_seq;
use crate::text::norm_tags;
use crate::text::normalize_tags;
use crate::text::trim_spec;
use crate::text::trim_str;

verus! {

pub type FirmId = String;

pub type DocumentId = String;

pub type ObjectVersion = u64;

pub type UploadId = String;

pub type DocStoreResult<T> = Result<T, DocStoreError>;

pub type IngestResult<T> = Result<T, IngestError>;

pub type OcrResult<T> = Result<T, OcrError>;

#[derive(Debug, PartialEq, Eq)]
pub enum DocStoreError {
    NotFound(String),
    Conflict(String),
    Validation(String),
    Encryption(String),
    Internal(String),
}

impl Clone for DocStoreError {
    fn clone(&self) -> (r: Self)
        ensures
            r == *self,
    {
        match self {
            DocStoreError::NotFound(m) => DocStoreError::NotFound(m.clone()),
            DocStoreError::Conflict(m) => DocStoreError::Conflict(m.clone()),
            DocStoreError::Validation(m) => DocStoreError::Validation(m.clone()),
            DocStoreError::Encryption(m) => DocStoreError::Encryption(m.clone()),
            DocStoreError::Internal(m) => DocStoreError::Internal(m.clone()),
        }
    }
}

#[derive(Debug, PartialEq, Eq)]
pub enum IngestError {
    NotFound(String),
    Validation(String),
    Upstream(String),
    Internal(String),
}

impl Clone for IngestError {
    fn clone(&self) -> (r: Self)
        ensures
            r == *self,
    {
        match self {
            IngestError::NotFound(m) => IngestError::NotFound(m.clone()),
            IngestError::Validation(m) => IngestError::Validation(m.clone()),
            IngestError::Upstream(m) => IngestError::Upstream(m.clone()),
            IngestError::Internal(m) => IngestError::Internal(m.clone()),
        }
    }
}

#[derive(Debug, PartialEq, Eq)]
pub enum OcrError {
    UnsupportedMime(String),
    Provider(String),
    Classification(String),
    Internal(String),
}

impl Clone for OcrError {
    fn clone(&self) -> (r: Self)
        ensures
            r == *self,
    {
        match self {
            OcrError::UnsupportedMime(m) => OcrError::UnsupportedMime(m.clone()),
            OcrError::Provider(m) => OcrError::Provider(m.clone()),
            OcrError::Classification(m) => OcrError::Classification(m.clone()),
            OcrError::Internal(m) => OcrError::Internal(m.clone()),
        }
    }
}

/// An ingest error wrapped for an HTTP edge; the status mapping lives
/// with the transport.
#[derive(Debug, PartialEq, Eq)]
pub struct ApiError(pub IngestError);

// --- encryption shapes -------------------------------------------------------

#[derive(Debug, Clone, Copy, PartialEq, Eq, Structural)]
pub enum EncryptionAlgorithm {
    AwsKmsEnvelope,
    Aes256Gcm,
}

/// A wrapped data key and the algorithm it was wrapped under.
#[derive(Debug, PartialEq, Eq)]
pub struct EncryptionEnvelope {
    pub key_id: String,
    pub algorithm: EncryptionAlgorithm,
    pub wrapped_key: Vec<u8>,
}

/// What a key is wrapped for.
#[derive(Debug, PartialEq, Eq)]
pub struct EncryptionContext {
    pub firm_id: FirmId,
    pub document_id: DocumentId,
}

impl Clone for EncryptionContext {
    fn clone(&self) -> (r: Self)
        ensures
            r == *self,
    {
        EncryptionContext {
            firm_id: self.firm_id.clone(),
            document_id: self.document_id.clone(),
        }
    }
}

/// Wraps and unwraps data keys; implementations are supplied by users of
/// the library.
pub trait EnvelopeEncryptor {
    fn wrap_key(&self, context: EncryptionContext) -> DocStoreResult<(EncryptionEnvelope, Vec<u8>)>;

    fn unwrap_key(&self, envelope: &EncryptionEnvelope) -> DocStoreResult<Vec<u8>>;
}

/// A stand-in encryptor that hands out a constant all-zero key under a
/// `mock-kms:` key id.
#[derive(Debug, PartialEq, Eq)]
pub struct MockEnvelopeEncryptor;

impl EnvelopeEncryptor for MockEnvelopeEncryptor {
    fn wrap_key(&self, context: EncryptionContext) -> DocStoreResult<
        (EncryptionEnvelope, Vec<u8>),
    > {
        let mut key: Vec<u8> = Vec::new();
        let mut i: usize = 0;
        while i < 32
            invariant
                i <= 32,
                key@.len() == i,
            decreases 32 - i,
        {
            key.push(0u8);
            i = i + 1;
        }
        let mut wrapped_key: Vec<u8> = Vec::new();
        let mut j: usize = 0;
        while j < 32
            invariant
                j <= 32,
                wrapped_key@.len() == j,
            decreases 32 - j,
        {
            wrapped_key.push(0u8);
            j = j + 1;
        }
        let mut key_id = String::from_str("mock-kms:");
        key_id.append(context.firm_id.as_str());
        let envelope = EncryptionEnvelope {
            key_id,
            algorithm: EncryptionAlgorithm::AwsKmsEnvelope,
            wrapped_key,
        };
        Ok((envelope, key))
    }

    fn unwrap_key(&self, envelope: &EncryptionEnvelope) -> DocStoreResult<Vec<u8>> {
        let mut key: Vec<u8> = Vec::new();
        let mut i: usize = 0;
        while i < envelope.wrapped_key.len()
            invariant
                i <= envelope.wrapped_key@.len(),
                key@ == envelope.wrapped_key@.subrange(0, i as int),
            decreases envelope.wrapped_key@.len() - i,
        {
            key.push(envelope.wrapped_key[i]);
            assert(key@ =~= envelope.wrapped_key@.subrange(0, i + 1 as int));
            i = i + 1;
        }
        assert(key@ =~= envelope.wrapped_key@);
        Ok(key)
    }
}

// --- stored objects ----------------------------------------------------------

/// How long an object class is kept, and whether it is frozen by a legal
/// hold.
#[derive(Debug, PartialEq, Eq)]
pub struct RetentionPolicy {
    pub class: String,
    pub retention_days: u32,
    pub legal_hold: bool,
}

impl Clone for RetentionPolicy {
    fn clone(&self) -> (r: Self)
        ensures
            r == *self,
    {
        RetentionPolicy {
            class: self.class.clone(),
            retention_days: self.retention_days,
            legal_hold: self.legal_hold,
        }
    }
}

#[derive(Debug, PartialEq)]
pub struct DocumentMetadata {
    pub document_id: DocumentId,
    pub firm_id: FirmId,
    pub company_id: Option<String>,
    pub version: ObjectVersion,
    pub content_type: String,
    pub content_length: u64,
    pub checksum: String,
    pub uploaded_at_millis: i64,
    pub uploaded_by: String,
    pub tags: Vec<String>,
    pub retention_class: String,
}

impl DocumentMetadata {
    /// Trims every text field and normalizes the tags; ids must be
    /// non-blank, the version at least one, and the length non-zero.
    pub fn normalize(self) -> (r: DocStoreResult<Self>)
        ensures
            match r {
                Ok(out) => {
                    &&& trim_spec(self.document_id@).len() > 0
                    &&& trim_spec(self.firm_id@).len() > 0
                    &&& self.version >= 1
                    &&& self.content_length > 0
                    &&& out.document_id@ == trim_spec(self.document_id@)
                    &&& out.firm_id@ == trim_spec(self.firm_id@)
                    &&& out.company_id == self.company_id
                    &&& out.version == self.version
                    &&& out.content_type@ == trim_spec(self.content_type@)
                    &&& out.content_length == self.content_length
                    &&& out.checksum@ == trim_spec(self.checksum@)
                    &&& out.uploaded_at_millis == self.uploaded_at_millis
                    &&& out.uploaded_by == self.uploaded_by
                    &&& out.tags@.map_values(|x: String| x@) == norm_tags(self.tags@)
                    &&& out.retention_class@ == trim_spec(self.retention_class@)
                },
                Err(e) => if trim_spec(self.document_id@).len() == 0 {
                    e matches DocStoreError::Validation(m) && m@ == "document id cannot be empty"@
                } else if trim_spec(self.firm_id@).len() == 0 {
                    e matches DocStoreError::Validation(m) && m@ == "firm id cannot be empty"@
                } else if self.version == 0 {
                    e matches DocStoreError::Validation(m) && m@ == "version must start at 1"@
                } else {
                    self.content_length == 0 && (e matches DocStoreError::Validation(m) && m@
                        == "content length must be non-zero"@)
                },
            },
    {
        let document_id = trim_str(self.document_id.as_str());
        if document_id.as_str().is_empty() {
            return Err(DocStoreError::Validation(String::from_str("document id cannot be empty")));
        }
        let firm_id = trim_str(self.firm_id.as_str());
        if firm_id.as_str().is_empty() {
            return Err(DocStoreError::Validation(String::from_str("firm id cannot be empty")));
        }
        if self.version == 0 {
            return Err(DocStoreError::Validation(String::from_str("version must start at 1")));
        }
        if self.content_length == 0 {
            return Err(
                DocStoreError::Validation(String::from_str("content length must be non-zero")),
            );
        }
        let content_type = trim_str(self.content_type.as_str());
        let checksum = trim_str(self.checksum.as_str());
        let retention_class = trim_str(self.retention_class.as_str());
        let tags = normalize_tags(&self.tags);
        Ok(
            DocumentMetadata {
                document_id,
                firm_id,
                company_id: self.company_id,
                version: self.version,
                content_type,
                content_length: self.content_length,
                checksum,
                uploaded_at_millis: self.uploaded_at_millis,
                uploaded_by: self.uploaded_by,
                tags,
                retention_class,
            },
        )
    }
}

/// Narrows a metadata listing by firm, company, and a set of tags that
/// must all be present up to ASCII case.
#[derive(Debug, PartialEq)]
pub struct MetadataQuery {
    pub firm_id: Option<FirmId>,
    pub company_id: Option<String>,
    pub tags: Vec<String>,
}

impl Default for MetadataQuery {
    fn default() -> (r: Self)
        ensures
            r.firm_id is None,
            r.company_id is None,
            r.tags@.len() == 0,
    {
        MetadataQuery { firm_id: None, company_id: None, tags: Vec::new() }
    }
}

impl MetadataQuery {
    /// Whether the metadata passes every set criterion.
    pub fn matches(&self, metadata: &DocumentMetadata) -> (r: bool)
        ensures
            r == ((match self.firm_id {
                Some(f) => metadata.firm_id@ == f@,
                None => true,
            }) && (match self.company_id {
                Some(c) => metadata.company_id matches Some(x) && x@ == c@,
                None => true,
            }) && (forall|k: int|
                0 <= k < self.tags@.len() ==> tag_present(
                    metadata.tags@,
                    (#[trigger] self.tags@[k])@,
                ))),
    {
        let firm_ok = match &self.firm_id {
            Some(firm_id) => crate::text::eq_str(metadata.firm_id.as_str(), firm_id.as_str()),
            None => true,
        };
        let company_ok = match &self.company_id {
            Some(company_id) => match &metadata.company_id {
                Some(current) => crate::text::eq_str(current.as_str(), company_id.as_str()),
                None => false,
            },
            None => true,
        };
        let tags_ok = tags_all_present(&self.tags, &metadata.tags);
        firm_ok && company_ok && tags_ok
    }
}

/// Whether one of `meta` equals `tag` up to ASCII case.
pub open spec fn tag_present(meta: Seq<String>, tag: Seq<char>) -> bool {
    exists|j: int| 0 <= j < meta.len() && lower_seq((#[trigger] meta[j])@) == lower_seq(tag)
}

/// Whether every query tag is present among the metadata tags, up to
/// ASCII case.
fn tags_all_present(query_tags: &Vec<String>, meta_tags: &Vec<String>) -> (r: bool)
    ensures
        r == (forall|k: int|
            0 <= k < query_tags@.len() ==> tag_present(
                meta_tags@,
                (#[trigger] query_tags@[k])@,
            )),
{
    let mut k: usize = 0;
    while k < query_tags.len()
        invariant
            k <= query_tags@.len(),
            forall|x: int|
                0 <= x < k ==> tag_present(meta_tags@, (#[trigger] query_tags@[x])@),
        decreases query_tags@.len() - k,
    {
        let mut found = false;
        let mut j: usize = 0;
        while j < meta_tags.len()
            invariant
                k < query_tags@.len(),
                j <= meta_tags@.len(),
                found ==> tag_present(meta_tags@, query_tags@[k as int]@),
                !found ==> forall|x: int|
                    0 <= x < j ==> lower_seq((#[trigger] meta_tags@[x])@) != lower_seq(
                        query_tags@[k as int]@,
                    ),
            decreases meta_tags@.len() - j,
        {
            if eq_ignore_case(meta_tags[j].as_str(), query_tags[k].as_str()) {
                assert(lower_seq(meta_tags@[j as int]@) == lower_seq(query_tags@[k as int]@));
                found = true;
            }
            j = j + 1;
        }
        if !found {
            assert(!tag_present(meta_tags@, query_tags@[k as int]@));
            return false;
        }
        k = k + 1;
    }
    true
}

// --- uploads and OCR ---------------------------------------------------------

/// What a client asks before it may upload a document.
#[derive(Debug, PartialEq)]
pub struct UploadRequestPayload {
    pub firm_id: FirmId,
    pub company_id: Option<String>,
    pub file_name: String,
    pub content_type: String,
    pub content_length: u64,
}

impl UploadRequestPayload {
    /// An upload needs a firm, a file name, and a positive length.
    pub fn validate(&self) -> (r: IngestResult<()>)
        ensures
            match r {
                Ok(_) => trim_spec(self.firm_id@).len() > 0 && trim_spec(self.file_name@).len() > 0
                    && self.content_length > 0,
                Err(e) => if trim_spec(self.firm_id@).len() == 0 {
                    e matches IngestError::Validation(m) && m@ == "firm_id must be provided"@
                } else if trim_spec(self.file_name@).len() == 0 {
                    e matches IngestError::Validation(m) && m@ == "file_name must be provided"@
                } else {
                    self.content_length == 0 && (e matches IngestError::Validation(m) && m@
                        == "content_length must be greater than zero"@)
                },
            },
    {
        let firm = trim_str(self.firm_id.as_str());
        if firm.as_str().is_empty() {
            return Err(IngestError::Validation(String::from_str("firm_id must be provided")));
        }
        let file_name = trim_str(self.file_name.as_str());
        if file_name.as_str().is_empty() {
            return Err(IngestError::Validation(String::from_str("file_name must be provided")));
        }
        if self.content_length == 0 {
            return Err(
                IngestError::Validation(
                    String::from_str("content_length must be greater than zero"),
                ),
            );
        }
        Ok(())
    }
}

/// A signer stand-in; the real one talks to object storage in the host
/// application.
#[derive(Debug, PartialEq, Eq)]
pub struct MockUploadSigner;

#[derive(Debug, Clone, Copy, PartialEq, Eq, Hash, Structural)]
pub enum DocumentKind {
    Invoice,
    Receipt,
    BankStatement,
    Payroll,
    Unknown,
}

/// A document handed to OCR.
#[derive(Debug, PartialEq)]
pub struct OcrRequest {
    pub firm_id: FirmId,
    pub document_id: DocumentId,
    pub mime_type: String,
    pub payload: Vec<u8>,
}

impl OcrRequest {
    /// OCR needs a mime type and a non-empty payload.
    pub fn validate(&self) -> (r: OcrResult<()>)
        ensures
            match r {
                Ok(_) => trim_spec(self.mime_type@).len() > 0 && self.payload@.len() > 0,
                Err(e) => if trim_spec(self.mime_type@).len() == 0 {
                    e matches OcrError::UnsupportedMime(m) && m@.len() == 0
                } else {
                    self.payload@.len() == 0 && (e matches OcrError::Provider(m) && m@
                        == "payload is empty; cannot perform OCR"@)
                },
            },
    {
        let mime = trim_str(self.mime_type.as_str());
        if mime.as_str().is_empty() {
            return Err(OcrError::UnsupportedMime(String::new()));
        }
        if self.payload.len() == 0 {
            return Err(
                OcrError::Provider(String::from_str("payload is empty; cannot perform OCR")),
            );
        }
        Ok(())
    }
}

/// Keyword rules, one keyword list per document kind.
#[derive(Debug, PartialEq)]
pub struct KeywordClassifier {
    pub rules: Vec<(DocumentKind, Vec<String>)>,
}

impl Default for KeywordClassifier {
    fn default() -> (r: Self)
        ensures
            r.rules@.len() == 0,
    {
        KeywordClassifier { rules: Vec::new() }
    }
}

impl KeywordClassifier {
    /// Adds a keyword rule for `kind`, replacing an earlier rule for the
    /// same kind.
    #[must_use]
    pub fn with_rule(self, kind: DocumentKind, keywords: Vec<String>) -> (r: Self)
        ensures
            ({
                let existing = kind_idx(self.rules@, kind);
                if existing == -1 {
                    r.rules@.len() == self.rules@.len() + 1 && r.rules@.subrange(
                        0,
                        self.rules@.len() as int,
                    ) == self.rules@ && r.rules@.last().0 == kind && r.rules@.last().1 == keywords
                } else {
                    r.rules@.len() == self.rules@.len() && r.rules@[existing].0 == kind
                        && r.rules@[existing].1 == keywords && forall|k: int|
                        0 <= k < self.rules@.len() && k != existing ==> r.rules@[k]
                            == self.rules@[k]
                }
            }),
    {
        let mut rules = self.rules;
        let mut i: usize = 0;
        while i < rules.len()
            invariant
                i <= rules@.len(),
                rules == self.rules,
                forall|k: int| 0 <= k < i ==> (#[trigger] rules@[k]).0 != kind,
            decreases rules@.len() - i,
        {
            if rules[i].0 == kind {
                proof {
                    lemma_kind_idx(rules@, kind, 0, i as int);
                }
                rules.set(i, (kind, keywords));
                return KeywordClassifier { rules };
            }
            i = i + 1;
        }
        proof {
            lemma_kind_idx(rules@, kind, 0, rules@.len() as int);
        }
        rules.push((kind, keywords));
        proof {
            assert(rules@.subrange(0, self.rules@.len() as int) =~= self.rules@);
        }
        KeywordClassifier { rules }
    }
}

/// First index with a rule for `kind`, searching from `j`; `-1` if none.
pub open spec fn kind_idx_from(
    s: Seq<(DocumentKind, Vec<String>)>,
    kind: DocumentKind,
    j: int,
) -> int
    decreases s.len() - j when 0 <= j <= s.len()
{
    if j >= s.len() {
        -1
    } else if s[j].0 == kind {
        j
    } else {
        kind_idx_from(s, kind, j + 1)
    }
}

pub open spec fn kind_idx(s: Seq<(DocumentKind, Vec<String>)>, kind: DocumentKind) -> int {
    kind_idx_from(s, kind, 0)
}

proof fn lemma_kind_idx(s: Seq<(DocumentKind, Vec<String>)>, kind: DocumentKind, j: int, i: int)
    requires
        0 <= j <= i <= s.len(),
        forall|k: int| j <= k < i ==> (#[trigger] s[k]).0 != kind,
        i == s.len() || s[i].0 == kind,
    ensures
        kind_idx_from(s, kind, j) == if i == s.len() {
            -1int
        } else {
            i
        },
    decreases i - j,
{
    if j < i {
        lemma_kind_idx(s, kind, j + 1, i);
    }
}

} // verus!
