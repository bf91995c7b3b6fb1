//! File management: upload intents, completion and virus scanning, versions, soft deletion,
//! private download links, public share links and temporary files. The bytes live in object
//! storage; Core holds each file's identity and metadata.
use vstd::prelude::*;

use crate::application::apis::CorePorts;
use crate::application::audit::{id_json, id_json_text, logged, opt_id_json, or_default};
use crate::application::store::{find_key, key_index, upsert, upserted, MemoryStore, Table};
use crate::domain::enums::FileObjectStatus;
use crate::domain::error::{is_conflict, is_forbidden, is_internal, is_not_found, is_validation, CoreError};
use crate::domain::files::{
    class_admits, content_type_base, object_class_text, scan_status_text, storage_prefix_text,
    DownloadLink, FileLinkKind, FileObjectClass, FileShareLink, PresignedUrl, UploadIntent,
    VirusScanOutcome, VirusScanRequest, VirusScanStatus,
};
use crate::domain::models::FileObject;
use crate::events::{actor_for, actor_of, CoreEvent, EventEnvelope, ResourceRef};
use crate::external::{
    clock_now, format_year_month, json_i64, json_instant, json_integer, json_quoted, json_string,
    json_timestamp, new_uuid, string_from_chars, unicode_whitespace, uuid_hyphenated, uuid_simple,
    uuid_simple_text, uuid_text, year_month_path,
};
use crate::ids::{
    bump_version, bumped, plus_seconds, representable, shifted, FileObjectId, TenantId, Timestamp,
    UserId, Uuid,
};
use crate::infrastructure::virus_scan::ScanHook;
use crate::infrastructure::object_storage::{
    is_placeholder_url, out_of_range_message, placeholder_get_headers, placeholder_put_headers,
    r2_pending_message, strip_trailing, ObjectStorage,
};
use crate::lists::{first_where, keep, lemma_first_where_found, lemma_first_where_none, lemma_keep_step};
use crate::text::{
    chars_of, join, json_bool, json_bool_text, json_null, json_null_text, json_object,
    json_object_text, text, trim, trim_chars,
};

verus! {

broadcast use vstd::string::group_string_axioms;

/// Lifetime of an upload URL, in seconds.
pub const DEFAULT_UPLOAD_TTL_SECS: u64 = 900;
/// Lifetime of a download URL, in seconds.
pub const DEFAULT_PRIVATE_DOWNLOAD_TTL_SECS: u64 = 300;
/// Lifetime of a public share link when none is asked for, in hours.
pub const DEFAULT_PUBLIC_SHARE_TTL_HOURS: i64 = 72;
/// Lifetime of a temporary file when none is given, in hours.
pub const DEFAULT_TEMPORARY_TTL_HOURS: i64 = 24;
/// The longest share lifetime, in hours, the calendar duration type can hold.
pub const MAX_SHARE_TTL_HOURS: i64 = 2_562_047_788_015;

/// Ask for an upload slot for a new file (or a new version of one).
#[derive(Debug)]
pub struct CreateFileUploadIntentCommand {
    pub tenant_id: TenantId,
    pub content_type: Option<String>,
    pub retention_class: Option<String>,
    pub access_class: Option<String>,
    pub created_by: Option<UserId>,
    pub object_class: Option<FileObjectClass>,
    pub original_filename: Option<String>,
    /// JSON text.
    pub metadata: Option<String>,
    pub parent_file_id: Option<FileObjectId>,
    pub is_temporary: bool,
    /// Expiry of a temporary file; a default applies when unset.
    pub expires_at: Option<Timestamp>,
}

/// Share an available file publicly through a token.
#[derive(Debug)]
pub struct CreatePublicShareLinkCommand {
    pub tenant_id: TenantId,
    pub file_id: FileObjectId,
    pub created_by: Option<UserId>,
    pub ttl_hours: Option<i64>,
    pub max_downloads: Option<i32>,
}

/// A scan verdict reported for a file.
#[derive(Debug)]
pub struct ApplyScanResultCommand {
    pub tenant_id: TenantId,
    pub file_id: FileObjectId,
    pub outcome: VirusScanOutcome,
    pub actor_user_id: Option<UserId>,
}

/// A character kept as is in a stored file name: ASCII letters and digits, `.`, `-` and `_`.
pub open spec fn name_safe(c: char) -> bool {
    ('a' <= c && c <= 'z') || ('A' <= c && c <= 'Z') || ('0' <= c && c <= '9') || c == '.' || c
        == '-' || c == '_'
}

/// A file name made safe for storage keys: trimmed, every other character replaced by `_`,
/// cut to 128 characters; `original` when nothing is left.
pub open spec fn sanitized(name: Seq<char>) -> Seq<char> {
    let t = trim(name);
    if t.len() == 0 {
        "original"@
    } else {
        Seq::new(
            if t.len() <= 128 {
                t.len()
            } else {
                128
            },
            |i: int|
                if name_safe(t[i]) {
                    t[i]
                } else {
                    '_'
                },
        )
    }
}

/// Make a file name safe for storage keys (see [`sanitized`]).
pub fn sanitize_filename(name: &str) -> (r: String)
    ensures
        r@ == sanitized(name@),
{
    let chars = chars_of(name);
    let trimmed = trim_chars(&chars);
    if trimmed.len() == 0 {
        return text("original");
    }
    let n: usize = if trimmed.len() <= 128 {
        trimmed.len()
    } else {
        128
    };
    let mut safe: Vec<char> = Vec::new();
    let mut i: usize = 0;
    while i < n
        invariant
            i <= n <= trimmed.len(),
            n == if trimmed@.len() <= 128 { trimmed@.len() } else { 128 },
            safe@.len() == i,
            forall|k: int| 0 <= k < i ==> #[trigger] safe@[k] == if name_safe(trimmed@[k]) {
                trimmed@[k]
            } else {
                '_'
            },
        decreases n - i,
    {
        let c = trimmed[i];
        let keep = ('a' <= c && c <= 'z') || ('A' <= c && c <= 'Z') || ('0' <= c && c <= '9') || c
            == '.' || c == '-' || c == '_';
        if keep {
            safe.push(c);
        } else {
            safe.push('_');
        }
        i = i + 1;
    }
    proof {
        let t = trim(name@);
        assert(safe@ =~= Seq::new(
            if t.len() <= 128 {
                t.len()
            } else {
                128
            },
            |i: int|
                if name_safe(t[i]) {
                    t[i]
                } else {
                    '_'
                },
        ));
    }
    string_from_chars(&safe)
}

/// The storage key of an upload: `{tenant}/{class prefix}/{YYYY}/{MM}/{id}/{safe name}`.
pub open spec fn upload_key(
    tenant_id: TenantId,
    class: FileObjectClass,
    at: int,
    id: Uuid,
    filename: Option<String>,
) -> Seq<char> {
    uuid_text(tenant_id) + "/"@ + storage_prefix_text(class) + "/"@ + year_month_path(at) + "/"@
        + uuid_text(id) + "/"@ + sanitized(
        match filename {
            Some(f) => f@,
            None => "original"@,
        },
    )
}

fn upload_storage_key(
    tenant_id: TenantId,
    class: FileObjectClass,
    at: Timestamp,
    id: Uuid,
    filename: &Option<String>,
) -> (r: String)
    requires
        representable(at as int),
    ensures
        r@ == upload_key(tenant_id, class, at as int, id, *filename),
{
    let safe = match filename {
        Some(f) => sanitize_filename(f.as_str()),
        None => sanitize_filename("original"),
    };
    let t = uuid_hyphenated(tenant_id);
    let ym = format_year_month(at);
    let i = uuid_hyphenated(id);
    let mut k = join(t.as_str(), "/");
    k.append(class.storage_prefix());
    k.append("/");
    k.append(ym.as_str());
    k.append("/");
    k.append(i.as_str());
    k.append("/");
    k.append(safe.as_str());
    k
}

/// The tenant's file with this id.
pub open spec fn file_of(store: MemoryStore, tenant_id: TenantId, id: FileObjectId) -> Option<FileObject> {
    match key_index(store.files@, id) {
        Some(i) => if store.files@[i].tenant_id == tenant_id {
            Some(store.files@[i])
        } else {
            None
        },
        None => None,
    }
}

/// The index of the tenant's file with this id.
fn find_file(store: &MemoryStore, tenant_id: TenantId, id: FileObjectId) -> (r: Option<usize>)
    ensures
        match r {
            Some(i) => i < store.files@.len() && key_index(store.files@, id) == Some(i as int)
                && store.files@[i as int].tenant_id == tenant_id && file_of(*store, tenant_id, id)
                == Some(store.files@[i as int]) && store.files@[i as int].id == id,
            None => file_of(*store, tenant_id, id) is None,
        },
{
    match find_key(&store.files, id) {
        Some(i) => {
            proof {
                crate::lists::lemma_first_where_props(
                    store.files@,
                    crate::application::store::key_is::<FileObject>(id),
                );
            }
            if store.files[i].tenant_id == tenant_id {
                Some(i)
            } else {
                None
            }
        },
        None => None,
    }
}

/// The number after `v` (wrapping at the top of the range, as release builds do).
pub open spec fn wrapping_succ(v: i32) -> i32 {
    if v < i32::MAX {
        (v + 1) as i32
    } else {
        i32::MIN
    }
}

/// The message refusing a content type for a class.
pub open spec fn content_type_refusal(content_type: Seq<char>, class: FileObjectClass) -> Seq<char> {
    "content_type '"@ + content_type + "' is not allowed for class "@ + object_class_text(class)
}

/// `u` is what `storage` signs for an upload of `key`.
pub open spec fn signed_put(storage: ObjectStorage, u: PresignedUrl, key: Seq<char>, content_type: Seq<char>, ttl: int) -> bool {
    match storage {
        ObjectStorage::Placeholder(p) => {
            &&& u.url@ == strip_trailing(p.public_base_url@, '/') + "/upload/"@ + key
            &&& u.method@ == "PUT"@
            &&& u.headers@ == placeholder_put_headers(content_type)
            &&& u.placeholder
            &&& representable(u.expires_at as int)
            &&& representable(u.expires_at - ttl * 1000)
        },
        ObjectStorage::PendingR2(_) => false,
    }
}

/// `u` is what `storage` signs for a download of `key`.
pub open spec fn signed_get(
    storage: ObjectStorage,
    u: PresignedUrl,
    key: Seq<char>,
    filename: Option<String>,
    ttl: int,
) -> bool {
    match storage {
        ObjectStorage::Placeholder(p) => {
            &&& u.url@ == strip_trailing(p.public_base_url@, '/') + "/download/"@ + key
            &&& u.method@ == "GET"@
            &&& u.headers@ == placeholder_get_headers(
                match filename {
                    Some(n) => Some(n@),
                    None => None,
                },
            )
            &&& u.placeholder
            &&& representable(u.expires_at as int)
            &&& representable(u.expires_at - ttl * 1000)
        },
        ObjectStorage::PendingR2(_) => false,
    }
}

/// The errors `storage` may answer a signing request with.
pub open spec fn signing_refusal(storage: ObjectStorage, e: CoreError) -> bool {
    match storage {
        ObjectStorage::Placeholder(_) => is_internal(e, out_of_range_message()),
        ObjectStorage::PendingR2(_) => is_internal(e, r2_pending_message()),
    }
}

/// The content type an upload intent records.
pub open spec fn intent_content_type(cmd: CreateFileUploadIntentCommand) -> Seq<char> {
    or_default(cmd.content_type, "application/octet-stream"@)
}

/// The class an upload intent records.
pub open spec fn intent_class(cmd: CreateFileUploadIntentCommand) -> FileObjectClass {
    match cmd.object_class {
        Some(c) => c,
        None => FileObjectClass::Attachment,
    }
}

/// `f` is the pending file an upload intent for `cmd` creates, as version `content_version`.
pub open spec fn intent_file(f: FileObject, cmd: CreateFileUploadIntentCommand, content_version: i32) -> bool {
    let now = f.created_at;
    &&& f.tenant_id == cmd.tenant_id
    &&& f.status == FileObjectStatus::PendingUpload
    &&& f.storage_key@ == upload_key(
        cmd.tenant_id,
        intent_class(cmd),
        now as int,
        f.id,
        cmd.original_filename,
    )
    &&& f.content_type matches Some(ct) && ct@ == intent_content_type(cmd)
    &&& f.byte_size is None
    &&& f.checksum_sha256 is None
    &&& f.retention_class@ == or_default(cmd.retention_class, "standard"@)
    &&& f.access_class@ == or_default(cmd.access_class, "tenant"@)
    &&& f.created_by == cmd.created_by
    &&& representable(now as int)
    &&& f.updated_at == now
    &&& f.version == 1
    &&& f.object_class == intent_class(cmd)
    &&& f.original_filename == cmd.original_filename
    &&& f.metadata@ == or_default(cmd.metadata, "{}"@)
    &&& f.parent_file_id == cmd.parent_file_id
    &&& f.content_version == content_version
    &&& f.is_temporary == cmd.is_temporary
    &&& f.expires_at == if cmd.is_temporary {
        match cmd.expires_at {
            Some(t) => Some(t),
            None => match shifted(now as int, DEFAULT_TEMPORARY_TTL_HOURS * 3600) {
                Some(t) => Some(t as Timestamp),
                None => None,
            },
        }
    } else {
        cmd.expires_at
    }
    &&& f.scan_status == VirusScanStatus::NotScanned
    &&& f.scan_detail is None
}

/// The parent of a new version, if one is named, exists in the tenant and is not deleted.
pub open spec fn parent_usable(store: MemoryStore, cmd: CreateFileUploadIntentCommand) -> bool {
    match cmd.parent_file_id {
        Some(p) => match file_of(store, cmd.tenant_id, p) {
            Some(parent) => parent.status != FileObjectStatus::Deleted,
            None => false,
        },
        None => true,
    }
}

/// The expiry an upload intent for `cmd` records at `now` lies in the calendar's range: only a
/// temporary file without an expiry of its own gets one computed, a day after `now`.
pub open spec fn expiry_fits(cmd: CreateFileUploadIntentCommand, now: Timestamp) -> bool {
    cmd.is_temporary && cmd.expires_at is None ==> shifted(
        now as int,
        DEFAULT_TEMPORARY_TTL_HOURS * 3600,
    ) is Some
}

/// `storage` signs an upload URL at `now`: the placeholder does when the URL's expiry is in
/// range; the pending R2 adapter never does.
pub open spec fn upload_signable(storage: ObjectStorage, now: Timestamp) -> bool {
    storage is Placeholder && shifted(now as int, DEFAULT_UPLOAD_TTL_SECS as int) is Some
}

/// The version number an upload intent for `cmd` gets: one past its parent's, else one.
pub open spec fn next_version(store: MemoryStore, cmd: CreateFileUploadIntentCommand) -> i32 {
    match cmd.parent_file_id {
        Some(p) => wrapping_succ(file_of(store, cmd.tenant_id, p).unwrap().content_version),
        None => 1,
    }
}

/// The lifetime, in hours, a share link for `cmd` gets: the one asked for, else three days.
pub open spec fn share_ttl_hours(cmd: CreatePublicShareLinkCommand) -> int {
    match cmd.ttl_hours {
        Some(h) => h as int,
        None => DEFAULT_PUBLIC_SHARE_TTL_HOURS as int,
    }
}

/// The audit payload of an upload intent.
pub open spec fn intent_payload(f: FileObject) -> Seq<char> {
    json_object_text(
        seq![
            ("content_version"@, json_integer(f.content_version as int)),
            ("is_temporary"@, json_bool(f.is_temporary)),
            ("object_class"@, json_quoted(object_class_text(f.object_class))),
            ("parent_file_id"@, opt_id_json(f.parent_file_id)),
            ("storage_key"@, json_quoted(f.storage_key@)),
        ],
    )
}

/// What resolving the share token `token` at `now` does, from ports `old` to ports `new`, with
/// result `r`: an unknown token, an unusable link and an unavailable file are refused with
/// nothing changed; otherwise the download is signed, counted on the link and audited.
pub open spec fn share_resolution(
    old: CorePorts,
    new: CorePorts,
    token: Seq<char>,
    now: Timestamp,
    r: Result<DownloadLink, CoreError>,
) -> bool {
    match first_where(old.store.file_share_links@, link_with_token(token)) {
        None => r matches Err(e) && is_not_found(e, "file_share_link"@) && new
            == old,
        Some(li) => {
            let l = old.store.file_share_links@[li];
            if !l.usable_at(now) {
                r matches Err(e) && is_forbidden(e, "share link is expired or revoked"@)
                    && new == old
            } else {
                match file_of(old.store, l.tenant_id, l.file_id) {
                    None => r matches Err(e) && is_not_found(e, "file_object"@)
                        && new == old,
                    Some(f) => if f.status != FileObjectStatus::Available {
                        r matches Err(e) && is_conflict(e, "shared file is not available"@)
                            && new == old
                    } else {
                        match r {
                            Ok(d) => {
                                let counted = FileShareLink {
                                    download_count: wrapping_succ(l.download_count),
                                    ..l
                                };
                                &&& d.file_id == f.id
                                &&& d.link_kind == FileLinkKind::PublicShare
                                &&& signed_get(
                                    old.object_storage,
                                    d.download,
                                    f.storage_key@,
                                    f.original_filename,
                                    DEFAULT_PRIVATE_DOWNLOAD_TTL_SECS as int,
                                )
                                &&& new.store.file_share_links@
                                    == old.store.file_share_links@.update(li, counted)
                                &&& logged(
                                    old.store.audit@,
                                    new.store.audit@,
                                    l.tenant_id,
                                    None,
                                    "system"@,
                                    "core.file.public_link_resolved"@,
                                    "file_share_link"@,
                                    Some(l.id),
                                    json_object_text(
                                        seq![
                                            (
                                                "download_count"@,
                                                json_integer(counted.download_count as int),
                                            ),
                                            ("file_id"@, id_json_text(l.file_id)),
                                        ],
                                    ),
                                    "data"@,
                                    None,
                                )
                                &&& new.evolved(
                                    old,
                                    set![Table::FileShareLinks, Table::Audit],
                                    0,
                                )
                            },
                            Err(e) => signing_refusal(old.object_storage, e)
                                && new == old,
                        }
                    },
                }
            }
        },
    }
}

/// The file service.
#[derive(Debug, Clone, Copy)]
pub struct FileService;

impl FileService {
    pub fn new() -> (r: Self) {
        FileService
    }

    /// The tenant's file with this id.
    pub fn get_file(&self, ports: &CorePorts, tenant_id: TenantId, file_id: FileObjectId) -> (r:
        Result<FileObject, CoreError>)
        ensures
            match file_of(ports.store, tenant_id, file_id) {
                Some(f) => r == Ok::<FileObject, CoreError>(f),
                None => r matches Err(e) && is_not_found(e, "file_object"@),
            },
    {
        match find_file(&ports.store, tenant_id, file_id) {
            Some(i) => Ok(ports.store.files[i].clone()),
            None => Err(CoreError::not_found("file_object")),
        }
    }

    /// Create, at `now`, the pending file `id` and an upload URL for it. The content type
    /// (default `application/octet-stream`) must suit the class (default attachment); a new
    /// version needs a parent that exists and is not deleted, and is numbered one past it. A
    /// temporary file expires after a day unless told otherwise; that expiry and the URL's must
    /// fall within the calendar's range, and the storage must be able to sign.
    pub fn create_upload_intent_at(
        &self,
        ports: &mut CorePorts,
        cmd: CreateFileUploadIntentCommand,
        now: Timestamp,
        id: FileObjectId,
    ) -> (r: Result<UploadIntent, CoreError>)
        requires
            representable(now as int),
        ensures
            !class_admits(intent_class(cmd), content_type_base(intent_content_type(cmd)))
                ==> (r matches Err(e) && is_validation(
                e,
                content_type_refusal(intent_content_type(cmd), intent_class(cmd)),
            ) && *final(ports) == *old(ports)),
            class_admits(intent_class(cmd), content_type_base(intent_content_type(cmd)))
                && cmd.parent_file_id is Some ==> match file_of(
                old(ports).store,
                cmd.tenant_id,
                cmd.parent_file_id.unwrap(),
            ) {
                None => r matches Err(e) && is_not_found(e, "parent_file_object"@) && *final(ports)
                    == *old(ports),
                Some(parent) => parent.status == FileObjectStatus::Deleted ==> (r matches Err(e)
                    && is_conflict(e, "cannot version a deleted file"@) && *final(ports)
                    == *old(ports)),
            },
            r matches Ok(intent) ==> {
                let f = intent.file;
                &&& intent_file(
                    f,
                    cmd,
                    match cmd.parent_file_id {
                        Some(p) => wrapping_succ(
                            file_of(old(ports).store, cmd.tenant_id, p).unwrap().content_version,
                        ),
                        None => 1,
                    },
                )
                &&& signed_put(
                    old(ports).object_storage,
                    intent.upload,
                    f.storage_key@,
                    intent_content_type(cmd),
                    DEFAULT_UPLOAD_TTL_SECS as int,
                )
                &&& final(ports).store.files@ == upserted(old(ports).store.files@, f)
                &&& logged(
                    old(ports).store.audit@,
                    final(ports).store.audit@,
                    cmd.tenant_id,
                    cmd.created_by,
                    "user"@,
                    "core.file.upload_intent_created"@,
                    "file_object"@,
                    Some(f.id),
                    intent_payload(f),
                    "data"@,
                    None,
                )
                &&& final(ports).evolved(*old(ports), set![Table::Files, Table::Audit], 1)
                &&& final(ports).event(*old(ports), 0).wraps(
                    cmd.tenant_id,
                    actor_of(cmd.created_by),
                    "file_object"@,
                    f.id,
                    None,
                    None,
                    CoreEvent::FileUploadIntentCreated { tenant_id: cmd.tenant_id, file_id: f.id },
                )
            },
            class_admits(intent_class(cmd), content_type_base(intent_content_type(cmd)))
                && parent_usable(old(ports).store, cmd) && !expiry_fits(cmd, now) ==> (r matches Err(
                e,
            ) && is_internal(e, out_of_range_message()) && *final(ports) == *old(ports)),
            class_admits(intent_class(cmd), content_type_base(intent_content_type(cmd)))
                && parent_usable(old(ports).store, cmd) && expiry_fits(cmd, now) && !upload_signable(
                old(ports).object_storage,
                now,
            ) ==> (r matches Err(e) && signing_refusal(old(ports).object_storage, e)
                && final(ports).evolved(*old(ports), set![Table::Files], 0) && exists|f: FileObject|
                intent_file(f, cmd, next_version(old(ports).store, cmd)) && f.id == id
                    && f.created_at == now && final(ports).store.files@ == #[trigger] upserted(
                    old(ports).store.files@,
                    f,
                )),
            class_admits(intent_class(cmd), content_type_base(intent_content_type(cmd)))
                && parent_usable(old(ports).store, cmd) && expiry_fits(cmd, now) && upload_signable(
                old(ports).object_storage,
                now,
            ) ==> r is Ok,
            r matches Ok(intent) ==> intent.file.id == id && intent.file.created_at == now
                && shifted(now as int, DEFAULT_UPLOAD_TTL_SECS as int) == Some(
                intent.upload.expires_at as int,
            ),
    {
        let object_class = match cmd.object_class {
            Some(c) => c,
            None => FileObjectClass::Attachment,
        };
        let content_type = match &cmd.content_type {
            Some(c) => c.clone(),
            None => text("application/octet-stream"),
        };
        if !object_class.allows_content_type(content_type.as_str()) {
            let mut m = join("content_type '", content_type.as_str());
            m.append("' is not allowed for class ");
            m.append(object_class.as_str());
            return Err(CoreError::Validation(m));
        }
        let mut content_version: i32 = 1;
        if let Some(parent_id) = cmd.parent_file_id {
            let parent = match find_file(&ports.store, cmd.tenant_id, parent_id) {
                Some(i) => &ports.store.files[i],
                None => {
                    return Err(CoreError::not_found("parent_file_object"));
                },
            };
            if parent.status == FileObjectStatus::Deleted {
                return Err(CoreError::conflict("cannot version a deleted file"));
            }
            content_version = if parent.content_version < i32::MAX {
                parent.content_version + 1
            } else {
                i32::MIN
            };
        }
        let ghost old_ports = *ports;
        let storage_key = upload_storage_key(
            cmd.tenant_id,
            object_class,
            now,
            id,
            &cmd.original_filename,
        );
        let expires_at = if cmd.is_temporary {
            match cmd.expires_at {
                Some(t) => Some(t),
                None => match plus_seconds(now, DEFAULT_TEMPORARY_TTL_HOURS * 3600) {
                    Some(t) => Some(t),
                    None => {
                        return Err(CoreError::internal("instant out of range"));
                    },
                },
            }
        } else {
            cmd.expires_at
        };
        let metadata = match cmd.metadata {
            Some(m) => m,
            None => text("{}"),
        };
        let retention_class = match cmd.retention_class {
            Some(c) => c,
            None => text("standard"),
        };
        let access_class = match cmd.access_class {
            Some(c) => c,
            None => text("tenant"),
        };
        let file = FileObject {
            id,
            tenant_id: cmd.tenant_id,
            status: FileObjectStatus::PendingUpload,
            storage_key,
            content_type: Some(content_type.clone()),
            byte_size: None,
            checksum_sha256: None,
            retention_class,
            access_class,
            created_by: cmd.created_by,
            created_at: now,
            updated_at: now,
            version: 1,
            object_class,
            original_filename: cmd.original_filename,
            metadata,
            parent_file_id: cmd.parent_file_id,
            content_version,
            is_temporary: cmd.is_temporary,
            expires_at,
            scan_status: VirusScanStatus::NotScanned,
            scan_detail: None,
        };
        let ghost stored = file;
        upsert(&mut ports.store.files, file.clone());
        let upload = match ports.object_storage.presign_put_at(
            file.storage_key.as_str(),
            content_type.as_str(),
            DEFAULT_UPLOAD_TTL_SECS,
            now,
        ) {
            Ok(u) => u,
            Err(e) => {
                proof {
                    assert(ports.outbox.events@.subrange(0, ports.outbox.events@.len() as int)
                        =~= ports.outbox.events@);
                }
                return Err(e);
            },
        };
        let keys: Vec<&str> = vec![
            "content_version",
            "is_temporary",
            "object_class",
            "parent_file_id",
            "storage_key",
        ];
        let parent_json = match file.parent_file_id {
            Some(p) => id_json(p),
            None => json_null_text(),
        };
        let values: Vec<String> = vec![
            json_i64(file.content_version as i64),
            json_bool_text(file.is_temporary),
            json_string(object_class.as_str()),
            parent_json,
            json_string(file.storage_key.as_str()),
        ];
        let payload = json_object(&keys, &values);
        proof {
            let fields = Seq::new(keys.len() as nat, |i: int| (keys@[i]@, values@[i]@));
            assert(fields =~= seq![
                ("content_version"@, json_integer(file.content_version as int)),
                ("is_temporary"@, json_bool(file.is_temporary)),
                ("object_class"@, json_quoted(object_class_text(file.object_class))),
                ("parent_file_id"@, opt_id_json(file.parent_file_id)),
                ("storage_key"@, json_quoted(file.storage_key@)),
            ]);
        }
        ports.store.log_service_action(
            cmd.tenant_id,
            cmd.created_by,
            "user",
            "core.file.upload_intent_created",
            "file_object",
            Some(file.id),
            payload,
            "data",
            None,
        );
        let envelope = EventEnvelope::new(
            cmd.tenant_id,
            actor_for(cmd.created_by),
            ResourceRef { resource_type: text("file_object"), resource_id: file.id },
            None,
            None,
            CoreEvent::FileUploadIntentCreated { tenant_id: cmd.tenant_id, file_id: file.id },
        );
        ports.outbox.publish(envelope);
        proof {
            assert(ports.outbox.events@.subrange(0, old_ports.outbox.events@.len() as int)
                =~= old_ports.outbox.events@);
        }
        Ok(UploadIntent { file, upload })
    }

    /// Create a pending file and an upload URL for it, now (see
    /// [`Self::create_upload_intent_at`]). The content type (default
    /// `application/octet-stream`) must suit the class (default attachment); a new version
    /// needs a parent that exists and is not deleted, and is numbered one past it. A temporary
    /// file expires after a day unless told otherwise.
    pub fn create_upload_intent(&self, ports: &mut CorePorts, cmd: CreateFileUploadIntentCommand) -> (r:
        Result<UploadIntent, CoreError>)
        ensures
            !class_admits(intent_class(cmd), content_type_base(intent_content_type(cmd)))
                ==> (r matches Err(e) && is_validation(
                e,
                content_type_refusal(intent_content_type(cmd), intent_class(cmd)),
            ) && *final(ports) == *old(ports)),
            class_admits(intent_class(cmd), content_type_base(intent_content_type(cmd)))
                && cmd.parent_file_id is Some ==> match file_of(
                old(ports).store,
                cmd.tenant_id,
                cmd.parent_file_id.unwrap(),
            ) {
                None => r matches Err(e) && is_not_found(e, "parent_file_object"@) && *final(ports)
                    == *old(ports),
                Some(parent) => parent.status == FileObjectStatus::Deleted ==> (r matches Err(e)
                    && is_conflict(e, "cannot version a deleted file"@) && *final(ports)
                    == *old(ports)),
            },
            r matches Ok(intent) ==> {
                let f = intent.file;
                &&& intent_file(
                    f,
                    cmd,
                    match cmd.parent_file_id {
                        Some(p) => wrapping_succ(
                            file_of(old(ports).store, cmd.tenant_id, p).unwrap().content_version,
                        ),
                        None => 1,
                    },
                )
                &&& signed_put(
                    old(ports).object_storage,
                    intent.upload,
                    f.storage_key@,
                    intent_content_type(cmd),
                    DEFAULT_UPLOAD_TTL_SECS as int,
                )
                &&& final(ports).store.files@ == upserted(old(ports).store.files@, f)
                &&& logged(
                    old(ports).store.audit@,
                    final(ports).store.audit@,
                    cmd.tenant_id,
                    cmd.created_by,
                    "user"@,
                    "core.file.upload_intent_created"@,
                    "file_object"@,
                    Some(f.id),
                    intent_payload(f),
                    "data"@,
                    None,
                )
                &&& final(ports).evolved(*old(ports), set![Table::Files, Table::Audit], 1)
                &&& final(ports).event(*old(ports), 0).wraps(
                    cmd.tenant_id,
                    actor_of(cmd.created_by),
                    "file_object"@,
                    f.id,
                    None,
                    None,
                    CoreEvent::FileUploadIntentCreated { tenant_id: cmd.tenant_id, file_id: f.id },
                )
            },
            class_admits(intent_class(cmd), content_type_base(intent_content_type(cmd)))
                && parent_usable(old(ports).store, cmd) ==> match r {
                Ok(_) => true,
                Err(e) => (is_internal(e, out_of_range_message()) && *final(ports) == *old(ports))
                    || (signing_refusal(old(ports).object_storage, e) && final(ports).evolved(
                    *old(ports),
                    set![Table::Files],
                    0,
                )),
            },
    {
        let now = clock_now();
        let id = new_uuid();
        self.create_upload_intent_at(ports, cmd, now, id)
    }
}

/// The scan status a verdict records.
pub open spec fn scan_status_for(o: VirusScanOutcome) -> VirusScanStatus {
    match o {
        VirusScanOutcome::Clean { .. } => VirusScanStatus::Clean,
        VirusScanOutcome::Infected { .. } => VirusScanStatus::Infected,
        VirusScanOutcome::Pending { .. } => VirusScanStatus::Pending,
        VirusScanOutcome::Error { .. } => VirusScanStatus::Error,
    }
}

/// The file status a verdict leads to: clean files become available, infected or failed scans
/// quarantine the file, a pending scan leaves it processing.
pub open spec fn file_status_for(o: VirusScanOutcome) -> FileObjectStatus {
    match o {
        VirusScanOutcome::Clean { .. } => FileObjectStatus::Available,
        VirusScanOutcome::Infected { .. } => FileObjectStatus::Quarantined,
        VirusScanOutcome::Pending { .. } => FileObjectStatus::Processing,
        VirusScanOutcome::Error { .. } => FileObjectStatus::Quarantined,
    }
}

/// The detail a verdict records.
pub open spec fn scan_detail_for(o: VirusScanOutcome) -> Option<String> {
    match o {
        VirusScanOutcome::Clean { detail } => detail,
        VirusScanOutcome::Infected { detail } => detail,
        VirusScanOutcome::Pending { detail } => detail,
        VirusScanOutcome::Error { detail } => Some(detail),
    }
}

/// The audit action of a scan verdict.
pub open spec fn scan_action(s: VirusScanStatus) -> Seq<char> {
    match s {
        VirusScanStatus::Clean => "core.file.scan_clean"@,
        VirusScanStatus::Infected => "core.file.scan_infected"@,
        VirusScanStatus::Pending => "core.file.scan_pending"@,
        VirusScanStatus::Error => "core.file.scan_error"@,
        VirusScanStatus::NotScanned => "core.file.scan_unknown"@,
    }
}

/// A file status as the audit log words it (its name in lower case).
pub open spec fn status_word(s: FileObjectStatus) -> Seq<char> {
    match s {
        FileObjectStatus::PendingUpload => "pendingupload"@,
        FileObjectStatus::Processing => "processing"@,
        FileObjectStatus::Available => "available"@,
        FileObjectStatus::Quarantined => "quarantined"@,
        FileObjectStatus::Deleted => "deleted"@,
    }
}

/// `after` is `before` with the verdict `o` applied at time `after.updated_at`.
pub open spec fn scanned(before: FileObject, after: FileObject, o: VirusScanOutcome) -> bool {
    &&& after == FileObject {
        status: file_status_for(o),
        scan_status: scan_status_for(o),
        scan_detail: scan_detail_for(o),
        updated_at: after.updated_at,
        version: bumped(before.version),
        ..before
    }
    &&& representable(after.updated_at as int)
}

/// The audit payload of a scan verdict.
pub open spec fn scan_payload(f: FileObject) -> Seq<char> {
    json_object_text(
        seq![
            (
                "scan_detail"@,
                match f.scan_detail {
                    Some(d) => json_quoted(d@),
                    None => json_null(),
                },
            ),
            ("scan_status"@, json_quoted(scan_status_text(f.scan_status))),
            ("status"@, json_quoted(status_word(f.status))),
        ],
    )
}

/// The event announcing a scan verdict on `f`.
pub open spec fn scan_event(f: FileObject, tenant_id: TenantId) -> CoreEvent {
    match f.status {
        FileObjectStatus::Available => CoreEvent::FileObjectAvailable { tenant_id, file_id: f.id },
        FileObjectStatus::Quarantined => CoreEvent::FileObjectQuarantined {
            tenant_id,
            file_id: f.id,
        },
        _ => CoreEvent::FileObjectScanPending { tenant_id, file_id: f.id },
    }
}

/// The actor type of an audited action: a user when one is named, else the system.
pub open spec fn actor_type_of(actor: Option<UserId>) -> Seq<char> {
    if actor is Some {
        "user"@
    } else {
        "system"@
    }
}

/// `after` is `before` stamped uploaded with `checksum` and `byte_size`, awaiting its scan.
pub open spec fn uploaded(before: FileObject, after: FileObject, checksum: String, byte_size: i64) -> bool {
    &&& after == FileObject {
        checksum_sha256: Some(checksum),
        byte_size: Some(byte_size),
        status: FileObjectStatus::Processing,
        scan_status: VirusScanStatus::Pending,
        updated_at: after.updated_at,
        version: bumped(before.version),
        ..before
    }
    &&& representable(after.updated_at as int)
}

/// `req` asks to scan the uploaded file `f`: its tenant, id, storage key, content type, class,
/// checksum and size.
pub open spec fn requests_scan_of(req: VirusScanRequest, f: FileObject) -> bool {
    &&& req.tenant_id == f.tenant_id
    &&& req.file_id == f.id
    &&& req.storage_key@ == f.storage_key@
    &&& match (req.content_type, f.content_type) {
        (Some(a), Some(b)) => a@ == b@,
        (None, None) => true,
        _ => false,
    }
    &&& f.checksum_sha256 matches Some(c) && req.checksum_sha256@ == c@
    &&& f.byte_size == Some(req.byte_size)
    &&& req.object_class == f.object_class
}

/// What completing the upload of `file_id` with `checksum` and `byte_size` does, `hook`
/// scanning, from ports `old` to ports `new`, with result `r`. A blank checksum, a negative size,
/// an unknown file and a file not pending upload are refused with nothing changed. Otherwise
/// the file records its checksum and size and turns to processing (audited), `hook` is handed
/// the scan request for it, and its verdict is applied (audited and announced); a hook error is
/// returned as it came, after the first step.
pub open spec fn upload_completion<H: ScanHook>(
    old: CorePorts,
    new: CorePorts,
    hook: H,
    tenant_id: TenantId,
    file_id: FileObjectId,
    checksum: String,
    byte_size: i64,
    r: Result<FileObject, CoreError>,
) -> bool {
    if trim(checksum@).len() == 0 {
        r matches Err(e) && is_validation(e, "checksum_sha256 must not be empty"@) && new == old
    } else if byte_size < 0 {
        r matches Err(e) && is_validation(e, "byte_size must be non-negative"@) && new == old
    } else {
        match file_of(old.store, tenant_id, file_id) {
            None => r matches Err(e) && is_not_found(e, "file_object"@) && new == old,
            Some(f) => if f.status != FileObjectStatus::PendingUpload {
                r matches Err(e) && is_conflict(e, "file object is not pending upload"@) && new
                    == old
            } else {
                exists|mid: FileObject, req: VirusScanRequest, answer: Result<VirusScanOutcome, CoreError>|
                    #![trigger hook.answers(req, answer), uploaded(f, mid, checksum, byte_size)]
                    {
                        &&& uploaded(f, mid, checksum, byte_size)
                        &&& requests_scan_of(req, mid)
                        &&& hook.answers(req, answer)
                        &&& match answer {
                            Ok(o) => r matches Ok(g) && {
                                &&& scanned(mid, g, o)
                                &&& new.store.files@ == upserted(old.store.files@, g)
                                &&& logged(
                                    old.store.audit@,
                                    new.store.audit@.drop_last(),
                                    tenant_id,
                                    f.created_by,
                                    "user"@,
                                    "core.file.upload_completed"@,
                                    "file_object"@,
                                    Some(file_id),
                                    upload_payload(checksum@, byte_size),
                                    "data"@,
                                    None,
                                )
                                &&& logged(
                                    new.store.audit@.drop_last(),
                                    new.store.audit@,
                                    tenant_id,
                                    f.created_by,
                                    actor_type_of(f.created_by),
                                    scan_action(g.scan_status),
                                    "file_object"@,
                                    Some(file_id),
                                    scan_payload(g),
                                    "data"@,
                                    None,
                                )
                                &&& new.evolved(old, set![Table::Files, Table::Audit], 1)
                                &&& new.event(old, 0).wraps(
                                    tenant_id,
                                    actor_of(f.created_by),
                                    "file_object"@,
                                    file_id,
                                    None,
                                    None,
                                    scan_event(g, tenant_id),
                                )
                            },
                            Err(e) => {
                                &&& r == Err::<FileObject, CoreError>(e)
                                &&& new.store.files@ == upserted(old.store.files@, mid)
                                &&& logged(
                                    old.store.audit@,
                                    new.store.audit@,
                                    tenant_id,
                                    f.created_by,
                                    "user"@,
                                    "core.file.upload_completed"@,
                                    "file_object"@,
                                    Some(file_id),
                                    upload_payload(checksum@, byte_size),
                                    "data"@,
                                    None,
                                )
                                &&& new.evolved(old, set![Table::Files, Table::Audit], 0)
                            },
                        }
                    }
            },
        }
    }
}

/// The audit payload of a completed upload.
pub open spec fn upload_payload(checksum: Seq<char>, byte_size: i64) -> Seq<char> {
    json_object_text(
        seq![
            ("byte_size"@, json_integer(byte_size as int)),
            ("checksum_sha256"@, json_quoted(checksum)),
        ],
    )
}

fn status_word_of(s: FileObjectStatus) -> (r: &'static str)
    ensures
        r@ == status_word(s),
{
    match s {
        FileObjectStatus::PendingUpload => "pendingupload",
        FileObjectStatus::Processing => "processing",
        FileObjectStatus::Available => "available",
        FileObjectStatus::Quarantined => "quarantined",
        FileObjectStatus::Deleted => "deleted",
    }
}

fn scan_action_of(s: VirusScanStatus) -> (r: &'static str)
    ensures
        r@ == scan_action(s),
{
    match s {
        VirusScanStatus::Clean => "core.file.scan_clean",
        VirusScanStatus::Infected => "core.file.scan_infected",
        VirusScanStatus::Pending => "core.file.scan_pending",
        VirusScanStatus::Error => "core.file.scan_error",
        VirusScanStatus::NotScanned => "core.file.scan_unknown",
    }
}

impl FileService {
    /// Apply a scan verdict to a processing file, audit it and announce the file's new state.
    fn apply_scan_outcome(
        &self,
        ports: &mut CorePorts,
        tenant_id: TenantId,
        file_id: FileObjectId,
        outcome: VirusScanOutcome,
        actor_user_id: Option<UserId>,
    ) -> (r: Result<FileObject, CoreError>)
        ensures
            match file_of(old(ports).store, tenant_id, file_id) {
                None => r matches Err(e) && is_not_found(e, "file_object"@) && *final(ports)
                    == *old(ports),
                Some(f) => if f.status != FileObjectStatus::Processing {
                    r matches Err(e) && is_conflict(
                        e,
                        "scan result can only be applied while processing"@,
                    ) && *final(ports) == *old(ports)
                } else {
                    r matches Ok(g) && {
                        &&& scanned(f, g, outcome)
                        &&& final(ports).store.files@ == upserted(old(ports).store.files@, g)
                        &&& logged(
                            old(ports).store.audit@,
                            final(ports).store.audit@,
                            tenant_id,
                            actor_user_id,
                            actor_type_of(actor_user_id),
                            scan_action(g.scan_status),
                            "file_object"@,
                            Some(g.id),
                            scan_payload(g),
                            "data"@,
                            None,
                        )
                        &&& final(ports).evolved(*old(ports), set![Table::Files, Table::Audit], 1)
                        &&& final(ports).event(*old(ports), 0).wraps(
                            tenant_id,
                            actor_of(actor_user_id),
                            "file_object"@,
                            g.id,
                            None,
                            None,
                            scan_event(g, tenant_id),
                        )
                    }
                },
            },
    {
        let i = match find_file(&ports.store, tenant_id, file_id) {
            Some(i) => i,
            None => {
                return Err(CoreError::not_found("file_object"));
            },
        };
        if ports.store.files[i].status != FileObjectStatus::Processing {
            return Err(CoreError::conflict("scan result can only be applied while processing"));
        }
        let ghost old_events = ports.outbox.events@;
        let mut file = ports.store.files[i].clone();
        match outcome {
            VirusScanOutcome::Clean { detail } => {
                file.status = FileObjectStatus::Available;
                file.scan_status = VirusScanStatus::Clean;
                file.scan_detail = detail;
            },
            VirusScanOutcome::Infected { detail } => {
                file.status = FileObjectStatus::Quarantined;
                file.scan_status = VirusScanStatus::Infected;
                file.scan_detail = detail;
            },
            VirusScanOutcome::Pending { detail } => {
                file.status = FileObjectStatus::Processing;
                file.scan_status = VirusScanStatus::Pending;
                file.scan_detail = detail;
            },
            VirusScanOutcome::Error { detail } => {
                file.status = FileObjectStatus::Quarantined;
                file.scan_status = VirusScanStatus::Error;
                file.scan_detail = Some(detail);
            },
        }
        file.updated_at = clock_now();
        file.version = bump_version(file.version);
        upsert(&mut ports.store.files, file.clone());
        let actor_type = if actor_user_id.is_some() {
            "user"
        } else {
            "system"
        };
        let keys: Vec<&str> = vec!["scan_detail", "scan_status", "status"];
        let detail_json = match &file.scan_detail {
            Some(d) => json_string(d.as_str()),
            None => json_null_text(),
        };
        let values: Vec<String> = vec![
            detail_json,
            json_string(file.scan_status.as_str()),
            json_string(status_word_of(file.status)),
        ];
        let payload = json_object(&keys, &values);
        proof {
            let fields = Seq::new(keys.len() as nat, |i: int| (keys@[i]@, values@[i]@));
            assert(fields =~= seq![
                (
                    "scan_detail"@,
                    match file.scan_detail {
                        Some(d) => json_quoted(d@),
                        None => json_null(),
                    },
                ),
                ("scan_status"@, json_quoted(scan_status_text(file.scan_status))),
                ("status"@, json_quoted(status_word(file.status))),
            ]);
        }
        ports.store.log_service_action(
            tenant_id,
            actor_user_id,
            actor_type,
            scan_action_of(file.scan_status),
            "file_object",
            Some(file.id),
            payload,
            "data",
            None,
        );
        let event = match file.status {
            FileObjectStatus::Available => CoreEvent::FileObjectAvailable {
                tenant_id,
                file_id: file.id,
            },
            FileObjectStatus::Quarantined => CoreEvent::FileObjectQuarantined {
                tenant_id,
                file_id: file.id,
            },
            _ => CoreEvent::FileObjectScanPending { tenant_id, file_id: file.id },
        };
        let envelope = EventEnvelope::new(
            tenant_id,
            actor_for(actor_user_id),
            ResourceRef { resource_type: text("file_object"), resource_id: file.id },
            None,
            None,
            event,
        );
        ports.outbox.publish(envelope);
        proof {
            assert(ports.outbox.events@.subrange(0, old_events.len() as int) =~= old_events);
        }
        Ok(file)
    }

    /// Apply a scan verdict reported by a worker (see `apply_scan_outcome`).
    pub fn apply_scan_result(&self, ports: &mut CorePorts, cmd: ApplyScanResultCommand) -> (r: Result<
        FileObject,
        CoreError,
    >)
        ensures
            match file_of(old(ports).store, cmd.tenant_id, cmd.file_id) {
                None => r matches Err(e) && is_not_found(e, "file_object"@) && *final(ports)
                    == *old(ports),
                Some(f) => if f.status != FileObjectStatus::Processing {
                    r matches Err(e) && is_conflict(
                        e,
                        "scan result can only be applied while processing"@,
                    ) && *final(ports) == *old(ports)
                } else {
                    r matches Ok(g) && {
                        &&& scanned(f, g, cmd.outcome)
                        &&& final(ports).store.files@ == upserted(old(ports).store.files@, g)
                        &&& logged(
                            old(ports).store.audit@,
                            final(ports).store.audit@,
                            cmd.tenant_id,
                            cmd.actor_user_id,
                            actor_type_of(cmd.actor_user_id),
                            scan_action(g.scan_status),
                            "file_object"@,
                            Some(g.id),
                            scan_payload(g),
                            "data"@,
                            None,
                        )
                        &&& final(ports).evolved(*old(ports), set![Table::Files, Table::Audit], 1)
                        &&& final(ports).event(*old(ports), 0).wraps(
                            cmd.tenant_id,
                            actor_of(cmd.actor_user_id),
                            "file_object"@,
                            g.id,
                            None,
                            None,
                            scan_event(g, cmd.tenant_id),
                        )
                    }
                },
            },
    {
        self.apply_scan_outcome(ports, cmd.tenant_id, cmd.file_id, cmd.outcome, cmd.actor_user_id)
    }

    /// Record that a pending upload finished (its checksum and size), then hand `hook` the scan
    /// request for the file and apply its verdict (see [`upload_completion`]).
    pub fn complete_upload_with<H: ScanHook>(
        &self,
        ports: &mut CorePorts,
        hook: &H,
        tenant_id: TenantId,
        file_id: FileObjectId,
        checksum_sha256: String,
        byte_size: i64,
    ) -> (r: Result<FileObject, CoreError>)
        ensures
            upload_completion(
                *old(ports),
                *final(ports),
                *hook,
                tenant_id,
                file_id,
                checksum_sha256,
                byte_size,
                r,
            ),
    {
        let checksum_chars = chars_of(checksum_sha256.as_str());
        let trimmed = trim_chars(&checksum_chars);
        if trimmed.len() == 0 {
            return Err(CoreError::validation("checksum_sha256 must not be empty"));
        }
        if byte_size < 0 {
            return Err(CoreError::validation("byte_size must be non-negative"));
        }
        let i = match find_file(&ports.store, tenant_id, file_id) {
            Some(i) => i,
            None => {
                return Err(CoreError::not_found("file_object"));
            },
        };
        if ports.store.files[i].status != FileObjectStatus::PendingUpload {
            return Err(CoreError::conflict("file object is not pending upload"));
        }
        let ghost old_ports = *ports;
        let ghost old_file = ports.store.files@[i as int];
        let mut file = ports.store.files[i].clone();
        file.checksum_sha256 = Some(checksum_sha256.clone());
        file.byte_size = Some(byte_size);
        file.status = FileObjectStatus::Processing;
        file.scan_status = VirusScanStatus::Pending;
        file.updated_at = clock_now();
        file.version = bump_version(file.version);
        let ghost mid = file;
        upsert(&mut ports.store.files, file.clone());
        let keys: Vec<&str> = vec!["byte_size", "checksum_sha256"];
        let values: Vec<String> = vec![json_i64(byte_size), json_string(checksum_sha256.as_str())];
        let payload = json_object(&keys, &values);
        proof {
            let fields = Seq::new(keys.len() as nat, |i: int| (keys@[i]@, values@[i]@));
            assert(fields =~= seq![
                ("byte_size"@, json_integer(byte_size as int)),
                ("checksum_sha256"@, json_quoted(checksum_sha256@)),
            ]);
        }
        ports.store.log_service_action(
            tenant_id,
            file.created_by,
            "user",
            "core.file.upload_completed",
            "file_object",
            Some(file.id),
            payload,
            "data",
            None,
        );
        let ghost after_log = *ports;
        let request = VirusScanRequest {
            tenant_id,
            file_id: file.id,
            storage_key: file.storage_key.clone(),
            content_type: crate::text::clone_opt_string(&file.content_type),
            checksum_sha256,
            byte_size,
            object_class: file.object_class,
        };
        let ghost req = request;
        let answer = hook.scan(request);
        let ghost given = answer;
        let outcome = match answer {
            Ok(o) => o,
            Err(e) => {
                proof {
                    crate::application::store::lemma_upserted_finds(old_ports.store.files@, mid);
                    assert(ports.outbox.events@.subrange(0, old_ports.outbox.events@.len() as int)
                        =~= old_ports.outbox.events@);
                    assert(uploaded(old_file, mid, checksum_sha256, byte_size));
                    assert(requests_scan_of(req, mid));
                    assert(hook.answers(req, given));
                }
                return Err(e);
            },
        };
        let ghost o = outcome;
        proof {
            crate::application::store::lemma_upserted_finds(old_ports.store.files@, mid);
            assert(file_of(ports.store, tenant_id, file_id) == Some(mid));
        }
        let result = self.apply_scan_outcome(ports, tenant_id, file.id, outcome, file.created_by);
        proof {
            match &result {
                Ok(g) => {
                    crate::application::store::lemma_upserted_twice(old_ports.store.files@, mid, *g);
                    assert(ports.store.audit@.drop_last() == after_log.store.audit@);
                    assert(ports.outbox.events@.subrange(0, old_ports.outbox.events@.len() as int)
                        =~= old_ports.outbox.events@);
                    assert(scanned(mid, *g, o));
                    assert(uploaded(old_file, mid, checksum_sha256, byte_size));
                    assert(requests_scan_of(req, mid));
                    assert(hook.answers(req, given));
                },
                Err(_) => {},
            }
        }
        result
    }

    /// Record that a pending upload finished (its checksum and size), then run the ports' own
    /// virus-scan hook on it (see [`Self::complete_upload_with`]).
    pub fn complete_upload(
        &self,
        ports: &mut CorePorts,
        tenant_id: TenantId,
        file_id: FileObjectId,
        checksum_sha256: String,
        byte_size: i64,
    ) -> (r: Result<FileObject, CoreError>)
        ensures
            upload_completion(
                *old(ports),
                *final(ports),
                old(ports).virus_scan,
                tenant_id,
                file_id,
                checksum_sha256,
                byte_size,
                r,
            ),
    {
        let hook = ports.virus_scan;
        self.complete_upload_with(ports, &hook, tenant_id, file_id, checksum_sha256, byte_size)
    }
}

/// The file belongs to the lineage rooted at `root` in the tenant: the root itself or a direct
/// version of it.
pub open spec fn in_lineage(tenant_id: TenantId, root: FileObjectId) -> spec_fn(FileObject) -> bool {
    |f: FileObject| f.tenant_id == tenant_id && (f.id == root || f.parent_file_id == Some(root))
}

/// The file has a content version greater than `v`.
pub open spec fn newer_than(v: i32) -> spec_fn(FileObject) -> bool {
    |f: FileObject| f.content_version > v
}

/// Where a file of content version `v` goes in a list ordered by version: before the first
/// greater version, after every version at most `v`.
pub open spec fn version_pos(rows: Seq<FileObject>, v: i32) -> int {
    match first_where(rows, newer_than(v)) {
        Some(j) => j,
        None => rows.len() as int,
    }
}

/// `s` ordered by ascending content version, files of the same version keeping their order.
pub open spec fn by_version(s: Seq<FileObject>) -> Seq<FileObject>
    decreases s.len(),
{
    if s.len() == 0 {
        Seq::empty()
    } else {
        let r = by_version(s.drop_last());
        r.insert(version_pos(r, s.last().content_version), s.last())
    }
}

/// The root of a file's lineage: its parent, or itself for an original.
pub open spec fn lineage_root(f: FileObject) -> FileObjectId {
    match f.parent_file_id {
        Some(p) => p,
        None => f.id,
    }
}

/// The file is a temporary of the tenant, not deleted, whose expiry has passed at `now`.
pub open spec fn expired_temporary(tenant_id: TenantId, now: Timestamp) -> spec_fn(FileObject) -> bool {
    |f: FileObject|
        f.tenant_id == tenant_id && f.is_temporary && f.status != FileObjectStatus::Deleted
            && match f.expires_at {
            Some(exp) => exp <= now,
            None => false,
        }
}

/// The link has this token.
pub open spec fn link_with_token(token: Seq<char>) -> spec_fn(FileShareLink) -> bool {
    |l: FileShareLink| l.token@ == token
}

/// `rows` with `l` replacing the link of the same token, or appended when there is none.
pub open spec fn with_link(rows: Seq<FileShareLink>, l: FileShareLink) -> Seq<FileShareLink> {
    match first_where(rows, link_with_token(l.token@)) {
        Some(i) => rows.update(i, l),
        None => rows.push(l),
    }
}

fn version_position(rows: &Vec<FileObject>, v: i32) -> (r: usize)
    ensures
        r as int == version_pos(rows@, v),
        r <= rows.len(),
{
    let ghost p = newer_than(v);
    let mut i: usize = 0;
    while i < rows.len()
        invariant
            i <= rows.len(),
            p == newer_than(v),
            forall|k: int| 0 <= k < i ==> !p(rows@[k]),
        decreases rows.len() - i,
    {
        if rows[i].content_version > v {
            proof {
                lemma_first_where_found(rows@, p, i as int);
            }
            return i;
        }
        i = i + 1;
    }
    proof {
        lemma_first_where_none(rows@, p);
    }
    i
}

fn find_link(rows: &Vec<FileShareLink>, token: &str) -> (r: Option<usize>)
    ensures
        match r {
            Some(i) => i < rows.len() && first_where(rows@, link_with_token(token@)) == Some(
                i as int,
            ),
            None => first_where(rows@, link_with_token(token@)) is None,
        },
{
    let ghost p = link_with_token(token@);
    let mut i: usize = 0;
    while i < rows.len()
        invariant
            i <= rows.len(),
            p == link_with_token(token@),
            forall|k: int| 0 <= k < i ==> !p(rows@[k]),
        decreases rows.len() - i,
    {
        if crate::text::str_eq(rows[i].token.as_str(), token) {
            proof {
                lemma_first_where_found(rows@, p, i as int);
            }
            return Some(i);
        }
        i = i + 1;
    }
    proof {
        lemma_first_where_none(rows@, p);
    }
    None
}

fn store_link(rows: &mut Vec<FileShareLink>, l: FileShareLink)
    ensures
        final(rows)@ == with_link(old(rows)@, l),
{
    match find_link(rows, l.token.as_str()) {
        Some(i) => {
            rows.set(i, l);
        },
        None => {
            rows.push(l);
        },
    }
}

/// The link that `cmd` creates at `now`.
pub open spec fn share_link_for(l: FileShareLink, cmd: CreatePublicShareLinkCommand, now: Timestamp) -> bool {
    let ttl = match cmd.ttl_hours {
        Some(h) => h as int,
        None => DEFAULT_PUBLIC_SHARE_TTL_HOURS as int,
    };
    &&& l.tenant_id == cmd.tenant_id
    &&& l.file_id == cmd.file_id
    &&& exists|u: Uuid| l.token@ == #[trigger] uuid_simple_text(u)
    &&& l.kind == FileLinkKind::PublicShare
    &&& shifted(now as int, ttl * 3600) == Some(l.expires_at as int)
    &&& l.created_by == cmd.created_by
    &&& l.created_at == now
    &&& l.revoked_at is None
    &&& l.max_downloads == cmd.max_downloads
    &&& l.download_count == 0
}

/// The JSON text of an optional count.
pub open spec fn opt_count_json(o: Option<i32>) -> Seq<char> {
    match o {
        Some(n) => json_integer(n as int),
        None => json_null(),
    }
}

impl FileService {
    /// Mark a file deleted (its metadata stays; the object is not removed here).
    pub fn soft_delete(
        &self,
        ports: &mut CorePorts,
        tenant_id: TenantId,
        file_id: FileObjectId,
        deleted_by: Option<UserId>,
    ) -> (r: Result<FileObject, CoreError>)
        ensures
            match file_of(old(ports).store, tenant_id, file_id) {
                None => r matches Err(e) && is_not_found(e, "file_object"@) && *final(ports)
                    == *old(ports),
                Some(f) => if f.status == FileObjectStatus::Deleted {
                    r matches Err(e) && is_conflict(e, "file is already deleted"@) && *final(ports)
                        == *old(ports)
                } else {
                    r matches Ok(g) && {
                        &&& g == FileObject {
                            status: FileObjectStatus::Deleted,
                            updated_at: g.updated_at,
                            version: bumped(f.version),
                            ..f
                        }
                        &&& representable(g.updated_at as int)
                        &&& final(ports).store.files@ == upserted(old(ports).store.files@, g)
                        &&& logged(
                            old(ports).store.audit@,
                            final(ports).store.audit@,
                            tenant_id,
                            deleted_by,
                            "user"@,
                            "core.file.deleted"@,
                            "file_object"@,
                            Some(file_id),
                            json_object_text(seq![("storage_key"@, json_quoted(f.storage_key@))]),
                            "data"@,
                            None,
                        )
                        &&& final(ports).evolved(*old(ports), set![Table::Files, Table::Audit], 1)
                        &&& final(ports).event(*old(ports), 0).wraps(
                            tenant_id,
                            actor_of(deleted_by),
                            "file_object"@,
                            file_id,
                            None,
                            None,
                            CoreEvent::FileObjectDeleted { tenant_id, file_id },
                        )
                    }
                },
            },
    {
        let i = match find_file(&ports.store, tenant_id, file_id) {
            Some(i) => i,
            None => {
                return Err(CoreError::not_found("file_object"));
            },
        };
        if ports.store.files[i].status == FileObjectStatus::Deleted {
            return Err(CoreError::conflict("file is already deleted"));
        }
        let ghost old_events = ports.outbox.events@;
        let mut file = ports.store.files[i].clone();
        file.status = FileObjectStatus::Deleted;
        file.updated_at = clock_now();
        file.version = bump_version(file.version);
        upsert(&mut ports.store.files, file.clone());
        let keys: Vec<&str> = vec!["storage_key"];
        let values: Vec<String> = vec![json_string(file.storage_key.as_str())];
        let payload = json_object(&keys, &values);
        proof {
            let fields = Seq::new(keys.len() as nat, |i: int| (keys@[i]@, values@[i]@));
            assert(fields =~= seq![("storage_key"@, json_quoted(file.storage_key@))]);
        }
        ports.store.log_service_action(
            tenant_id,
            deleted_by,
            "user",
            "core.file.deleted",
            "file_object",
            Some(file.id),
            payload,
            "data",
            None,
        );
        let envelope = EventEnvelope::new(
            tenant_id,
            actor_for(deleted_by),
            ResourceRef { resource_type: text("file_object"), resource_id: file.id },
            None,
            None,
            CoreEvent::FileObjectDeleted { tenant_id, file_id: file.id },
        );
        ports.outbox.publish(envelope);
        proof {
            assert(ports.outbox.events@.subrange(0, old_events.len() as int) =~= old_events);
        }
        Ok(file)
    }

    /// Replace a file's metadata (JSON text); deleted files cannot be changed.
    pub fn update_metadata(
        &self,
        ports: &mut CorePorts,
        tenant_id: TenantId,
        file_id: FileObjectId,
        metadata: String,
        updated_by: Option<UserId>,
    ) -> (r: Result<FileObject, CoreError>)
        ensures
            match file_of(old(ports).store, tenant_id, file_id) {
                None => r matches Err(e) && is_not_found(e, "file_object"@) && *final(ports)
                    == *old(ports),
                Some(f) => if f.status == FileObjectStatus::Deleted {
                    r matches Err(e) && is_conflict(e, "cannot update metadata on deleted file"@)
                        && *final(ports) == *old(ports)
                } else {
                    r matches Ok(g) && {
                        &&& g == FileObject {
                            metadata,
                            updated_at: g.updated_at,
                            version: bumped(f.version),
                            ..f
                        }
                        &&& representable(g.updated_at as int)
                        &&& final(ports).store.files@ == upserted(old(ports).store.files@, g)
                        &&& logged(
                            old(ports).store.audit@,
                            final(ports).store.audit@,
                            tenant_id,
                            updated_by,
                            "user"@,
                            "core.file.metadata_updated"@,
                            "file_object"@,
                            Some(file_id),
                            json_object_text(seq![("metadata"@, metadata@)]),
                            "data"@,
                            None,
                        )
                        &&& final(ports).evolved(*old(ports), set![Table::Files, Table::Audit], 0)
                    }
                },
            },
    {
        let i = match find_file(&ports.store, tenant_id, file_id) {
            Some(i) => i,
            None => {
                return Err(CoreError::not_found("file_object"));
            },
        };
        if ports.store.files[i].status == FileObjectStatus::Deleted {
            return Err(CoreError::conflict("cannot update metadata on deleted file"));
        }
        let mut file = ports.store.files[i].clone();
        file.metadata = metadata;
        file.updated_at = clock_now();
        file.version = bump_version(file.version);
        upsert(&mut ports.store.files, file.clone());
        let keys: Vec<&str> = vec!["metadata"];
        let values: Vec<String> = vec![file.metadata.clone()];
        let payload = json_object(&keys, &values);
        proof {
            let fields = Seq::new(keys.len() as nat, |i: int| (keys@[i]@, values@[i]@));
            assert(fields =~= seq![("metadata"@, file.metadata@)]);
        }
        ports.store.log_service_action(
            tenant_id,
            updated_by,
            "user",
            "core.file.metadata_updated",
            "file_object",
            Some(file.id),
            payload,
            "data",
            None,
        );
        proof {
            assert(ports.outbox.events@.subrange(0, ports.outbox.events@.len() as int)
                =~= ports.outbox.events@);
        }
        Ok(file)
    }

    /// Every version in the file's lineage (the original and its direct versions), by ascending
    /// content version.
    pub fn list_versions(&self, ports: &CorePorts, tenant_id: TenantId, file_id: FileObjectId) -> (r:
        Result<Vec<FileObject>, CoreError>)
        ensures
            match file_of(ports.store, tenant_id, file_id) {
                None => r matches Err(e) && is_not_found(e, "file_object"@),
                Some(f) => r matches Ok(v) && v@ == by_version(
                    keep(ports.store.files@, in_lineage(tenant_id, lineage_root(f))),
                ),
            },
    {
        let i = match find_file(&ports.store, tenant_id, file_id) {
            Some(i) => i,
            None => {
                return Err(CoreError::not_found("file_object"));
            },
        };
        let root = match ports.store.files[i].parent_file_id {
            Some(p) => p,
            None => ports.store.files[i].id,
        };
        let ghost p = in_lineage(tenant_id, root);
        let rows = &ports.store.files;
        let mut sorted: Vec<FileObject> = Vec::new();
        let mut k: usize = 0;
        while k < rows.len()
            invariant
                k <= rows.len(),
                p == in_lineage(tenant_id, root),
                sorted@ == by_version(keep(rows@.subrange(0, k as int), p)),
            decreases rows.len() - k,
        {
            proof {
                lemma_keep_step(rows@, p, k as int);
            }
            let f = &rows[k];
            if f.tenant_id == tenant_id && (f.id == root || f.parent_file_id == Some(root)) {
                let pos = version_position(&sorted, f.content_version);
                sorted.insert(pos, f.clone());
                proof {
                    let before = keep(rows@.subrange(0, k as int), p);
                    assert(before.push(rows@[k as int]).drop_last() =~= before);
                }
            }
            k = k + 1;
        }
        proof {
            assert(rows@.subrange(0, rows@.len() as int) =~= rows@);
        }
        Ok(sorted)
    }

    /// The tenant's temporary files, not deleted, whose expiry is at or before `now`.
    pub fn list_expired_temporaries(&self, ports: &CorePorts, tenant_id: TenantId, now: Timestamp) -> (r:
        Result<Vec<FileObject>, CoreError>)
        ensures
            r matches Ok(v) && v@ == keep(ports.store.files@, expired_temporary(tenant_id, now)),
    {
        let ghost p = expired_temporary(tenant_id, now);
        let rows = &ports.store.files;
        let mut out: Vec<FileObject> = Vec::new();
        let mut k: usize = 0;
        while k < rows.len()
            invariant
                k <= rows.len(),
                p == expired_temporary(tenant_id, now),
                out@ == keep(rows@.subrange(0, k as int), p),
            decreases rows.len() - k,
        {
            proof {
                lemma_keep_step(rows@, p, k as int);
            }
            let f = &rows[k];
            let expired = match f.expires_at {
                Some(exp) => exp <= now,
                None => false,
            };
            if f.tenant_id == tenant_id && f.is_temporary && f.status != FileObjectStatus::Deleted
                && expired {
                out.push(f.clone());
            }
            k = k + 1;
        }
        proof {
            assert(rows@.subrange(0, rows@.len() as int) =~= rows@);
        }
        Ok(out)
    }

    /// A short-lived download URL for an available file.
    pub fn create_private_download_link(
        &self,
        ports: &mut CorePorts,
        tenant_id: TenantId,
        file_id: FileObjectId,
        requested_by: Option<UserId>,
    ) -> (r: Result<DownloadLink, CoreError>)
        ensures
            match file_of(old(ports).store, tenant_id, file_id) {
                None => r matches Err(e) && is_not_found(e, "file_object"@) && *final(ports)
                    == *old(ports),
                Some(f) => if f.status != FileObjectStatus::Available {
                    r matches Err(e) && is_conflict(e, "only available files can be downloaded"@)
                        && *final(ports) == *old(ports)
                } else {
                    match r {
                        Ok(link) => {
                            &&& link.file_id == file_id
                            &&& link.link_kind == FileLinkKind::Private
                            &&& signed_get(
                                old(ports).object_storage,
                                link.download,
                                f.storage_key@,
                                f.original_filename,
                                DEFAULT_PRIVATE_DOWNLOAD_TTL_SECS as int,
                            )
                            &&& logged(
                                old(ports).store.audit@,
                                final(ports).store.audit@,
                                tenant_id,
                                requested_by,
                                "user"@,
                                "core.file.private_link_issued"@,
                                "file_object"@,
                                Some(file_id),
                                json_object_text(
                                    seq![
                                        ("expires_at"@, json_instant(link.download.expires_at as int)),
                                        ("placeholder"@, json_bool(link.download.placeholder)),
                                    ],
                                ),
                                "data"@,
                                None,
                            )
                            &&& final(ports).evolved(*old(ports), set![Table::Audit], 0)
                        },
                        Err(e) => signing_refusal(old(ports).object_storage, e) && *final(ports)
                            == *old(ports),
                    }
                },
            },
    {
        let i = match find_file(&ports.store, tenant_id, file_id) {
            Some(i) => i,
            None => {
                return Err(CoreError::not_found("file_object"));
            },
        };
        if ports.store.files[i].status != FileObjectStatus::Available {
            return Err(CoreError::conflict("only available files can be downloaded"));
        }
        let file = ports.store.files[i].clone();
        let filename: Option<&str> = match &file.original_filename {
            Some(n) => Some(n.as_str()),
            None => None,
        };
        let download = match ports.object_storage.presign_get(
            file.storage_key.as_str(),
            DEFAULT_PRIVATE_DOWNLOAD_TTL_SECS,
            filename,
        ) {
            Ok(d) => d,
            Err(e) => {
                return Err(e);
            },
        };
        let keys: Vec<&str> = vec!["expires_at", "placeholder"];
        let values: Vec<String> = vec![
            json_timestamp(download.expires_at),
            json_bool_text(download.placeholder),
        ];
        let payload = json_object(&keys, &values);
        proof {
            let fields = Seq::new(keys.len() as nat, |i: int| (keys@[i]@, values@[i]@));
            assert(fields =~= seq![
                ("expires_at"@, json_instant(download.expires_at as int)),
                ("placeholder"@, json_bool(download.placeholder)),
            ]);
        }
        ports.store.log_service_action(
            tenant_id,
            requested_by,
            "user",
            "core.file.private_link_issued",
            "file_object",
            Some(file.id),
            payload,
            "data",
            None,
        );
        proof {
            assert(ports.outbox.events@.subrange(0, ports.outbox.events@.len() as int)
                =~= ports.outbox.events@);
        }
        Ok(DownloadLink { file_id: file.id, download, link_kind: FileLinkKind::Private })
    }
}

impl FileService {
    /// Share an available file through a random token at `now` (see
    /// [`Self::create_public_share_link`]); it succeeds for an available file exactly when the
    /// link's expiry lies in the calendar's range.
    pub fn create_public_share_link_at(
        &self,
        ports: &mut CorePorts,
        cmd: CreatePublicShareLinkCommand,
        now: Timestamp,
    ) -> (r: Result<FileShareLink, CoreError>)
        requires
            cmd.ttl_hours matches Some(h) ==> -MAX_SHARE_TTL_HOURS <= h <= MAX_SHARE_TTL_HOURS,
            representable(now as int),
        ensures
            (file_of(old(ports).store, cmd.tenant_id, cmd.file_id) matches Some(f) && f.status
                == FileObjectStatus::Available) ==> (r is Ok <==> shifted(
                now as int,
                share_ttl_hours(cmd) * 3600,
            ) is Some),
            r matches Ok(l) ==> l.created_at == now,
            match file_of(old(ports).store, cmd.tenant_id, cmd.file_id) {
                None => r matches Err(e) && is_not_found(e, "file_object"@) && *final(ports)
                    == *old(ports),
                Some(f) => if f.status != FileObjectStatus::Available {
                    r matches Err(e) && is_conflict(
                        e,
                        "only available files can be shared publicly via API token"@,
                    ) && *final(ports) == *old(ports)
                } else {
                    match r {
                        Ok(l) => {
                            &&& share_link_for(l, cmd, l.created_at)
                            &&& representable(l.created_at as int)
                            &&& final(ports).store.file_share_links@ == with_link(
                                old(ports).store.file_share_links@,
                                l,
                            )
                            &&& logged(
                                old(ports).store.audit@,
                                final(ports).store.audit@,
                                cmd.tenant_id,
                                cmd.created_by,
                                "user"@,
                                "core.file.public_link_created"@,
                                "file_share_link"@,
                                Some(l.id),
                                json_object_text(
                                    seq![
                                        ("expires_at"@, json_instant(l.expires_at as int)),
                                        ("file_id"@, id_json_text(l.file_id)),
                                        ("max_downloads"@, opt_count_json(l.max_downloads)),
                                    ],
                                ),
                                "data"@,
                                None,
                            )
                            &&& final(ports).evolved(
                                *old(ports),
                                set![Table::FileShareLinks, Table::Audit],
                                0,
                            )
                        },
                        Err(e) => is_internal(e, out_of_range_message()) && *final(ports)
                            == *old(ports),
                    }
                },
            },
    {
        let i = match find_file(&ports.store, cmd.tenant_id, cmd.file_id) {
            Some(i) => i,
            None => {
                return Err(CoreError::not_found("file_object"));
            },
        };
        if ports.store.files[i].status != FileObjectStatus::Available {
            return Err(
                CoreError::conflict("only available files can be shared publicly via API token"),
            );
        }
        let ttl: i64 = match cmd.ttl_hours {
            Some(h) => h,
            None => DEFAULT_PUBLIC_SHARE_TTL_HOURS,
        };
        let id = new_uuid();
        let token_id = new_uuid();
        let token = uuid_simple(token_id);
        let expires_at = match plus_seconds(now, ttl * 3600) {
            Some(t) => t,
            None => {
                return Err(CoreError::internal("instant out of range"));
            },
        };
        let link = FileShareLink {
            id,
            tenant_id: cmd.tenant_id,
            file_id: cmd.file_id,
            token,
            kind: FileLinkKind::PublicShare,
            expires_at,
            created_by: cmd.created_by,
            created_at: now,
            revoked_at: None,
            max_downloads: cmd.max_downloads,
            download_count: 0,
        };
        store_link(&mut ports.store.file_share_links, link.clone());
        let keys: Vec<&str> = vec!["expires_at", "file_id", "max_downloads"];
        let max_json = match link.max_downloads {
            Some(n) => json_i64(n as i64),
            None => json_null_text(),
        };
        let values: Vec<String> = vec![json_timestamp(link.expires_at), id_json(link.file_id), max_json];
        let payload = json_object(&keys, &values);
        proof {
            let fields = Seq::new(keys.len() as nat, |i: int| (keys@[i]@, values@[i]@));
            assert(fields =~= seq![
                ("expires_at"@, json_instant(link.expires_at as int)),
                ("file_id"@, id_json_text(link.file_id)),
                ("max_downloads"@, opt_count_json(link.max_downloads)),
            ]);
        }
        ports.store.log_service_action(
            cmd.tenant_id,
            cmd.created_by,
            "user",
            "core.file.public_link_created",
            "file_share_link",
            Some(link.id),
            payload,
            "data",
            None,
        );
        proof {
            assert(ports.outbox.events@.subrange(0, ports.outbox.events@.len() as int)
                =~= ports.outbox.events@);
            assert(link.token@ == uuid_simple_text(token_id));
        }
        Ok(link)
    }

    /// Share an available file through a random token, valid for `ttl_hours` (three days by
    /// default) and optionally capped in downloads.
    pub fn create_public_share_link(&self, ports: &mut CorePorts, cmd: CreatePublicShareLinkCommand) -> (r:
        Result<FileShareLink, CoreError>)
        requires
            cmd.ttl_hours matches Some(h) ==> -MAX_SHARE_TTL_HOURS <= h <= MAX_SHARE_TTL_HOURS,
        ensures
            match file_of(old(ports).store, cmd.tenant_id, cmd.file_id) {
                None => r matches Err(e) && is_not_found(e, "file_object"@) && *final(ports)
                    == *old(ports),
                Some(f) => if f.status != FileObjectStatus::Available {
                    r matches Err(e) && is_conflict(
                        e,
                        "only available files can be shared publicly via API token"@,
                    ) && *final(ports) == *old(ports)
                } else {
                    match r {
                        Ok(l) => {
                            &&& share_link_for(l, cmd, l.created_at)
                            &&& representable(l.created_at as int)
                            &&& final(ports).store.file_share_links@ == with_link(
                                old(ports).store.file_share_links@,
                                l,
                            )
                            &&& logged(
                                old(ports).store.audit@,
                                final(ports).store.audit@,
                                cmd.tenant_id,
                                cmd.created_by,
                                "user"@,
                                "core.file.public_link_created"@,
                                "file_share_link"@,
                                Some(l.id),
                                json_object_text(
                                    seq![
                                        ("expires_at"@, json_instant(l.expires_at as int)),
                                        ("file_id"@, id_json_text(l.file_id)),
                                        ("max_downloads"@, opt_count_json(l.max_downloads)),
                                    ],
                                ),
                                "data"@,
                                None,
                            )
                            &&& final(ports).evolved(
                                *old(ports),
                                set![Table::FileShareLinks, Table::Audit],
                                0,
                            )
                        },
                        Err(e) => is_internal(e, out_of_range_message()) && *final(ports)
                            == *old(ports),
                    }
                },
            },
    {
        let now = clock_now();
        self.create_public_share_link_at(ports, cmd, now)
    }

    /// Resolve a public share token at `now`: the link must be usable and its file available;
    /// the download is counted on the link.
    pub fn resolve_public_share_link_at(&self, ports: &mut CorePorts, token: &str, now: Timestamp) -> (r:
        Result<DownloadLink, CoreError>)
        ensures
            share_resolution(*old(ports), *final(ports), token@, now, r),
    {
        let li = match find_link(&ports.store.file_share_links, token) {
            Some(i) => i,
            None => {
                return Err(CoreError::not_found("file_share_link"));
            },
        };
        if !ports.store.file_share_links[li].is_usable(now) {
            return Err(CoreError::forbidden("share link is expired or revoked"));
        }
        let mut link = ports.store.file_share_links[li].clone();
        let fi = match find_file(&ports.store, link.tenant_id, link.file_id) {
            Some(i) => i,
            None => {
                return Err(CoreError::not_found("file_object"));
            },
        };
        if ports.store.files[fi].status != FileObjectStatus::Available {
            return Err(CoreError::conflict("shared file is not available"));
        }
        let file = ports.store.files[fi].clone();
        let filename: Option<&str> = match &file.original_filename {
            Some(n) => Some(n.as_str()),
            None => None,
        };
        let download = match ports.object_storage.presign_get(
            file.storage_key.as_str(),
            DEFAULT_PRIVATE_DOWNLOAD_TTL_SECS,
            filename,
        ) {
            Ok(d) => d,
            Err(e) => {
                return Err(e);
            },
        };
        link.download_count = if link.download_count < i32::MAX {
            link.download_count + 1
        } else {
            i32::MIN
        };
        ports.store.file_share_links.set(li, link.clone());
        let keys: Vec<&str> = vec!["download_count", "file_id"];
        let values: Vec<String> = vec![json_i64(link.download_count as i64), id_json(link.file_id)];
        let payload = json_object(&keys, &values);
        proof {
            let fields = Seq::new(keys.len() as nat, |i: int| (keys@[i]@, values@[i]@));
            assert(fields =~= seq![
                ("download_count"@, json_integer(link.download_count as int)),
                ("file_id"@, id_json_text(link.file_id)),
            ]);
        }
        ports.store.log_service_action(
            link.tenant_id,
            None,
            "system",
            "core.file.public_link_resolved",
            "file_share_link",
            Some(link.id),
            payload,
            "data",
            None,
        );
        proof {
            assert(ports.outbox.events@.subrange(0, ports.outbox.events@.len() as int)
                =~= ports.outbox.events@);
        }
        Ok(DownloadLink { file_id: file.id, download, link_kind: FileLinkKind::PublicShare })
    }

    /// Resolve a public share token now: exactly what [`Self::resolve_public_share_link_at`]
    /// does at the clock's reading.
    pub fn resolve_public_share_link(&self, ports: &mut CorePorts, token: &str) -> (r: Result<
        DownloadLink,
        CoreError,
    >)
        ensures
            exists|now: Timestamp|
                representable(now as int) && #[trigger] share_resolution(
                    *old(ports),
                    *final(ports),
                    token@,
                    now,
                    r,
                ),
    {
        let now = clock_now();
        self.resolve_public_share_link_at(ports, token, now)
    }
}

} // verus!
