//! File management domain types: content classes, scan status, link kinds, presigned URLs and
//! share links.
use vstd::prelude::*;

use crate::domain::models::FileObject;
use crate::ids::{FileObjectId, TenantId, Timestamp, UserId, Uuid};
use crate::text::{
    ascii_lower, before_first, chars_are, chars_of, first_segment, lower_chars, str_eq, trim,
    trim_chars,
};

verus! {

broadcast use vstd::string::group_string_axioms;

/// Logical content class; drives the storage key prefix and the MIME allowlist.
#[derive(Debug, Clone, Copy, PartialEq, Eq, Structural)]
pub enum FileObjectClass {
    Photo,
    Pdf,
    Video,
    Certificate,
    Drawing,
    Attachment,
}

pub open spec fn object_class_text(c: FileObjectClass) -> Seq<char> {
    match c {
        FileObjectClass::Photo => "photo"@,
        FileObjectClass::Pdf => "pdf"@,
        FileObjectClass::Video => "video"@,
        FileObjectClass::Certificate => "certificate"@,
        FileObjectClass::Drawing => "drawing"@,
        FileObjectClass::Attachment => "attachment"@,
    }
}

pub open spec fn storage_prefix_text(c: FileObjectClass) -> Seq<char> {
    match c {
        FileObjectClass::Photo => "images"@,
        FileObjectClass::Pdf => "pdfs"@,
        FileObjectClass::Video => "videos"@,
        FileObjectClass::Certificate => "certs"@,
        FileObjectClass::Drawing => "drawings"@,
        FileObjectClass::Attachment => "attachments"@,
    }
}

/// The class a name or alias denotes, if any.
pub open spec fn object_class_from_text(s: Seq<char>) -> Option<FileObjectClass> {
    if s == "photo"@ || s == "image"@ || s == "images"@ {
        Some(FileObjectClass::Photo)
    } else if s == "pdf"@ || s == "pdfs"@ {
        Some(FileObjectClass::Pdf)
    } else if s == "video"@ || s == "videos"@ {
        Some(FileObjectClass::Video)
    } else if s == "certificate"@ || s == "cert"@ || s == "certs"@ {
        Some(FileObjectClass::Certificate)
    } else if s == "drawing"@ || s == "drawings"@ {
        Some(FileObjectClass::Drawing)
    } else if s == "attachment"@ || s == "attachments"@ {
        Some(FileObjectClass::Attachment)
    } else {
        None
    }
}

/// The MIME base type of a content type: lower-cased, cut at the first `;`, trimmed.
pub open spec fn content_type_base(content_type: Seq<char>) -> Seq<char> {
    trim(before_first(ascii_lower(content_type), ';'))
}

/// Whether a class admits a MIME base type.
pub open spec fn class_admits(c: FileObjectClass, base: Seq<char>) -> bool {
    match c {
        FileObjectClass::Photo => base == "image/jpeg"@ || base == "image/png"@ || base
            == "image/webp"@ || base == "image/heic"@,
        FileObjectClass::Pdf | FileObjectClass::Certificate => base == "application/pdf"@,
        FileObjectClass::Video => base == "video/mp4"@ || base == "video/quicktime"@ || base
            == "video/webm"@,
        FileObjectClass::Drawing => base == "application/pdf"@ || base == "image/png"@ || base
            == "image/jpeg"@ || base == "image/vnd.dwg"@ || base == "application/acad"@ || base
            == "application/octet-stream"@,
        FileObjectClass::Attachment => base.len() > 0,
    }
}

impl FileObjectClass {
    pub fn as_str(self) -> (r: &'static str)
        ensures
            r@ == object_class_text(self),
    {
        match self {
            FileObjectClass::Photo => "photo",
            FileObjectClass::Pdf => "pdf",
            FileObjectClass::Video => "video",
            FileObjectClass::Certificate => "certificate",
            FileObjectClass::Drawing => "drawing",
            FileObjectClass::Attachment => "attachment",
        }
    }

    /// Storage key prefix segment (plural folder name).
    pub fn storage_prefix(self) -> (r: &'static str)
        ensures
            r@ == storage_prefix_text(self),
    {
        match self {
            FileObjectClass::Photo => "images",
            FileObjectClass::Pdf => "pdfs",
            FileObjectClass::Video => "videos",
            FileObjectClass::Certificate => "certs",
            FileObjectClass::Drawing => "drawings",
            FileObjectClass::Attachment => "attachments",
        }
    }

    pub fn parse(value: &str) -> (r: Option<Self>)
        ensures
            r == object_class_from_text(value@),
    {
        if str_eq(value, "photo") || str_eq(value, "image") || str_eq(value, "images") {
            Some(FileObjectClass::Photo)
        } else if str_eq(value, "pdf") || str_eq(value, "pdfs") {
            Some(FileObjectClass::Pdf)
        } else if str_eq(value, "video") || str_eq(value, "videos") {
            Some(FileObjectClass::Video)
        } else if str_eq(value, "certificate") || str_eq(value, "cert") || str_eq(value, "certs") {
            Some(FileObjectClass::Certificate)
        } else if str_eq(value, "drawing") || str_eq(value, "drawings") {
            Some(FileObjectClass::Drawing)
        } else if str_eq(value, "attachment") || str_eq(value, "attachments") {
            Some(FileObjectClass::Attachment)
        } else {
            None
        }
    }

    /// MIME allowlist for the class (server-side gate before an upload intent).
    pub fn allows_content_type(self, content_type: &str) -> (r: bool)
        ensures
            r == class_admits(self, content_type_base(content_type@)),
    {
        let chars = chars_of(content_type);
        let lower = lower_chars(&chars);
        let head = first_segment(&lower, ';');
        let base = trim_chars(&head);
        match self {
            FileObjectClass::Photo => chars_are(&base, "image/jpeg") || chars_are(&base, "image/png")
                || chars_are(&base, "image/webp") || chars_are(&base, "image/heic"),
            FileObjectClass::Pdf | FileObjectClass::Certificate => chars_are(
                &base,
                "application/pdf",
            ),
            FileObjectClass::Video => chars_are(&base, "video/mp4") || chars_are(
                &base,
                "video/quicktime",
            ) || chars_are(&base, "video/webm"),
            FileObjectClass::Drawing => chars_are(&base, "application/pdf") || chars_are(
                &base,
                "image/png",
            ) || chars_are(&base, "image/jpeg") || chars_are(&base, "image/vnd.dwg") || chars_are(
                &base,
                "application/acad",
            ) || chars_are(&base, "application/octet-stream"),
            FileObjectClass::Attachment => base.len() > 0,
        }
    }
}

impl Default for FileObjectClass {
    fn default() -> (r: Self)
        ensures
            r == FileObjectClass::Attachment,
    {
        FileObjectClass::Attachment
    }
}

/// Every class name parses back to its class, and so does every storage prefix.
pub proof fn lemma_object_class_names_round_trip(c: FileObjectClass)
    ensures
        object_class_from_text(object_class_text(c)) == Some(c),
        object_class_from_text(storage_prefix_text(c)) == Some(c),
{
    reveal_strlit("photo");
    reveal_strlit("image");
    reveal_strlit("images");
    reveal_strlit("pdf");
    reveal_strlit("pdfs");
    reveal_strlit("video");
    reveal_strlit("videos");
    reveal_strlit("certificate");
    reveal_strlit("cert");
    reveal_strlit("certs");
    reveal_strlit("drawing");
    reveal_strlit("drawings");
    reveal_strlit("attachment");
    reveal_strlit("attachments");
    assert("photo"@ =~= seq!['p', 'h', 'o', 't', 'o']);
    assert("image"@ =~= seq!['i', 'm', 'a', 'g', 'e']);
    assert("images"@ =~= seq!['i', 'm', 'a', 'g', 'e', 's']);
    assert("pdf"@ =~= seq!['p', 'd', 'f']);
    assert("pdfs"@ =~= seq!['p', 'd', 'f', 's']);
    assert("video"@ =~= seq!['v', 'i', 'd', 'e', 'o']);
    assert("videos"@ =~= seq!['v', 'i', 'd', 'e', 'o', 's']);
    assert("certificate"@ =~= seq!['c', 'e', 'r', 't', 'i', 'f', 'i', 'c', 'a', 't', 'e']);
    assert("cert"@ =~= seq!['c', 'e', 'r', 't']);
    assert("certs"@ =~= seq!['c', 'e', 'r', 't', 's']);
    assert("drawing"@ =~= seq!['d', 'r', 'a', 'w', 'i', 'n', 'g']);
    assert("drawings"@ =~= seq!['d', 'r', 'a', 'w', 'i', 'n', 'g', 's']);
    assert("attachment"@ =~= seq!['a', 't', 't', 'a', 'c', 'h', 'm', 'e', 'n', 't']);
    assert("attachments"@ =~= seq!['a', 't', 't', 'a', 'c', 'h', 'm', 'e', 'n', 't', 's']);
}

/// Virus / malware scan status recorded on a file object.
#[derive(Debug, Clone, Copy, PartialEq, Eq, Structural)]
pub enum VirusScanStatus {
    NotScanned,
    Pending,
    Clean,
    Infected,
    Error,
}

pub open spec fn scan_status_text(s: VirusScanStatus) -> Seq<char> {
    match s {
        VirusScanStatus::NotScanned => "not_scanned"@,
        VirusScanStatus::Pending => "pending"@,
        VirusScanStatus::Clean => "clean"@,
        VirusScanStatus::Infected => "infected"@,
        VirusScanStatus::Error => "error"@,
    }
}

impl VirusScanStatus {
    pub fn as_str(self) -> (r: &'static str)
        ensures
            r@ == scan_status_text(self),
    {
        match self {
            VirusScanStatus::NotScanned => "not_scanned",
            VirusScanStatus::Pending => "pending",
            VirusScanStatus::Clean => "clean",
            VirusScanStatus::Infected => "infected",
            VirusScanStatus::Error => "error",
        }
    }
}

impl Default for VirusScanStatus {
    fn default() -> (r: Self)
        ensures
            r == VirusScanStatus::NotScanned,
    {
        VirusScanStatus::NotScanned
    }
}

/// Share / download link kind. Public shares still resolve through the API.
#[derive(Debug, Clone, Copy, PartialEq, Eq, Structural)]
pub enum FileLinkKind {
    /// Short-lived authenticated download (presigned GET).
    Private,
    /// Longer-lived share token resolved through Core.
    PublicShare,
}

pub open spec fn link_kind_text(k: FileLinkKind) -> Seq<char> {
    match k {
        FileLinkKind::Private => "private"@,
        FileLinkKind::PublicShare => "public_share"@,
    }
}

impl FileLinkKind {
    pub fn as_str(self) -> (r: &'static str)
        ensures
            r@ == link_kind_text(self),
    {
        match self {
            FileLinkKind::Private => "private",
            FileLinkKind::PublicShare => "public_share",
        }
    }
}

/// Presigned URL descriptor returned to clients; `headers` is JSON text.
#[derive(Debug)]
pub struct PresignedUrl {
    pub url: String,
    pub method: String,
    pub expires_at: Timestamp,
    pub headers: String,
    /// True when the URL is a local placeholder rather than a signed storage URL.
    pub placeholder: bool,
}

/// Result of creating an upload intent: the file's metadata and its PUT target.
#[derive(Debug)]
pub struct UploadIntent {
    pub file: FileObject,
    pub upload: PresignedUrl,
}

/// Result of authorizing a download.
#[derive(Debug)]
pub struct DownloadLink {
    pub file_id: FileObjectId,
    pub download: PresignedUrl,
    pub link_kind: FileLinkKind,
}

/// Share token row for public (API-mediated) links.
#[derive(Debug)]
pub struct FileShareLink {
    pub id: Uuid,
    pub tenant_id: TenantId,
    pub file_id: FileObjectId,
    pub token: String,
    pub kind: FileLinkKind,
    pub expires_at: Timestamp,
    pub created_by: Option<UserId>,
    pub created_at: Timestamp,
    pub revoked_at: Option<Timestamp>,
    pub max_downloads: Option<i32>,
    pub download_count: i32,
}

impl Clone for FileShareLink {
    fn clone(&self) -> (r: Self)
        ensures
            r == *self,
    {
        FileShareLink {
            id: self.id,
            tenant_id: self.tenant_id,
            file_id: self.file_id,
            token: self.token.clone(),
            kind: self.kind,
            expires_at: self.expires_at,
            created_by: self.created_by,
            created_at: self.created_at,
            revoked_at: self.revoked_at,
            max_downloads: self.max_downloads,
            download_count: self.download_count,
        }
    }
}

impl FileShareLink {
    /// Not revoked, not expired at `now`, and under its download cap (if any).
    pub open spec fn usable_at(self, now: Timestamp) -> bool {
        &&& self.revoked_at is None
        &&& self.expires_at > now
        &&& match self.max_downloads {
            Some(max) => self.download_count < max,
            None => true,
        }
    }

    pub fn is_usable(&self, now: Timestamp) -> (r: bool)
        ensures
            r == self.usable_at(now),
    {
        self.revoked_at.is_none() && self.expires_at > now && match self.max_downloads {
            Some(max) => self.download_count < max,
            None => true,
        }
    }
}

/// Input to the virus-scan hook after an upload completes.
#[derive(Debug)]
pub struct VirusScanRequest {
    pub tenant_id: TenantId,
    pub file_id: FileObjectId,
    pub storage_key: String,
    pub content_type: Option<String>,
    pub checksum_sha256: String,
    pub byte_size: i64,
    pub object_class: FileObjectClass,
}

/// Scan hook outcome; `Pending` means a worker will report back later.
#[derive(Debug)]
#[allow(inconsistent_fields)]
pub enum VirusScanOutcome {
    Clean { detail: Option<String> },
    Infected { detail: Option<String> },
    Pending { detail: Option<String> },
    Error { detail: String },
}

} // verus!
