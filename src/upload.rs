//! Multipart uploads to an object store, without doing any I/O.
//!
//! The manager prepares every request (signed URL, headers, body) and is
//! told what came of it; the caller performs the network calls, holding the
//! manager exclusively for the whole of each operation. A part that goes out
//! stays pending until the caller reports it acknowledged (`part_uploaded`)
//! or failed (`part_failed`). A failure puts the session back exactly as it
//! was before the call that prepared the part: the bytes that call added are
//! dropped from the buffer, and the part counter, which advances only on an
//! acknowledgement, is unchanged, so the retry reuses the part number and
//! the numbering never has gaps.
use vstd::prelude::*;
use crate::config::S3Config;
use crate::store::{
    buffer_append, buffer_bytes, buffer_copy, buffer_clear, buffer_len, buffer_truncate,
    completion_body, completion_xml, empty_buffer, object_url, object_url_of, parse_upload_id,
    sign_complete_multipart, sign_create_multipart, sign_delete, sign_put, sign_upload_part,
    signable, signed_with, upload_id_in, url_path_of, views_of, create_params, part_params,
    complete_params, expiry_params, query_encoded,
};
use crate::text::{strip_quotes, trim_trailing_slashes, unquoted, without_trailing_slashes};

verus! {

/// The smallest size the store accepts for a part other than the last one.
pub const MIN_PART_SIZE: usize = 5 * 1024 * 1024;

/// How long a signed URL stays valid.
pub const SIGNATURE_TTL_SECS: u64 = 3600;

#[derive(Debug, Clone, Copy, PartialEq, Eq)]
pub enum HttpMethod {
    Post,
    Put,
    Delete,
}

/// A request to send as it is: method, signed URL, headers (which were
/// signed and must be sent unchanged) and body.
#[derive(Debug, Clone)]
pub struct SignedRequest {
    pub method: HttpMethod,
    pub url: String,
    pub headers: Vec<(String, String)>,
    pub body: String,
}

/// A part to `PUT`: its number, its signed URL and the bytes it carries.
#[derive(Debug)]
pub struct PartRequest {
    pub part_number: u16,
    pub url: String,
    pub body: bytes::BytesMut,
}

#[derive(Debug, Clone, PartialEq, Eq)]
pub enum UploadError {
    /// No bucket configuration is known.
    Unconfigured,
    /// A multipart upload is already in progress.
    AlreadyUploading,
    /// The operation needs a multipart upload in progress.
    NoUploadInProgress,
    /// The create-upload response holds no upload id.
    MissingUploadId,
    /// The part response holds no ETag.
    MissingEtag,
    /// The object key is empty or does not make a valid URL.
    InvalidObjectUrl,
    /// Every part number has been used.
    PartLimit,
    /// The upload would exceed the largest size a buffer can hold.
    SizeLimit,
    /// No part with this number awaits its outcome.
    StalePart,
    /// A prepared part awaits its outcome.
    PartPending,
    /// The final part has not been acknowledged yet.
    UnflushedBytes,
    /// The request failed on the network or with a non-success status.
    Transport(String),
}

/// Progress notifications of a notifying session.
#[derive(Debug, Clone, Copy, PartialEq, Eq)]
pub enum UploadEvent {
    Started,
    Progress,
    Done,
    Failed,
}

/// The event that reports an operation's outcome: its success event, or
/// `Failed`.
pub fn outcome_event(succeeded: bool, success: UploadEvent) -> (r: UploadEvent)
    ensures
        r == (if succeeded { success } else { UploadEvent::Failed }),
{
    if succeeded {
        success
    } else {
        UploadEvent::Failed
    }
}

/// What a new multipart upload is for.
#[derive(Debug, Clone)]
pub struct InProgressUploadBuilder {
    pub obj_name: String,
}

/// The state of one multipart upload.
pub ghost struct SessionView {
    pub key: Seq<char>,
    pub upload_id: Seq<char>,
    /// The number the next part will carry.
    pub next_part: nat,
    /// The acknowledged parts: number and ETag, in sending order.
    pub etags: Seq<(nat, Seq<char>)>,
    /// Bytes received and not acknowledged yet.
    pub buffer: Seq<u8>,
    /// Bytes sent in acknowledged parts.
    pub sent: nat,
    /// The part that went out and awaits its outcome: its number, the
    /// buffer length to go back to if it fails, and whether it is the last.
    pub pending: Option<(nat, nat, bool)>,
    /// The last part is acknowledged and nothing came after it.
    pub closed: bool,
}

impl SessionView {
    pub open spec fn fresh(key: Seq<char>, upload_id: Seq<char>) -> SessionView {
        SessionView {
            key,
            upload_id,
            next_part: 1,
            etags: Seq::empty(),
            buffer: Seq::empty(),
            sent: 0,
            pending: None,
            closed: false,
        }
    }

    pub open spec fn appended(self, bytes: Seq<u8>) -> SessionView {
        SessionView { buffer: self.buffer + bytes, closed: false, ..self }
    }

    pub open spec fn needs_flush(self) -> bool {
        self.buffer.len() >= MIN_PART_SIZE
    }

    /// The buffered bytes went out as the next part.
    pub open spec fn flushing(self, undo_len: nat, last: bool) -> SessionView {
        SessionView { pending: Some((self.next_part, undo_len, last)), ..self }
    }

    /// The store acknowledged the pending part with an ETag.
    pub open spec fn acked(self, etag: Seq<char>) -> SessionView {
        SessionView {
            next_part: self.next_part + 1,
            etags: self.etags.push((self.next_part, unquoted(etag))),
            buffer: Seq::empty(),
            sent: self.sent + self.buffer.len(),
            pending: None,
            closed: match self.pending {
                Some(p) => p.2,
                None => false,
            },
            ..self
        }
    }

    /// The pending part failed: the bytes added with it are dropped.
    pub open spec fn rolled_back(self) -> SessionView {
        let undo = match self.pending {
            Some(p) => p.1,
            None => self.buffer.len(),
        };
        SessionView { buffer: self.buffer.subrange(0, undo as int), pending: None, ..self }
    }

    /// Parts are numbered from 1 in sending order, with no gap.
    pub open spec fn numbered(self) -> bool {
        &&& self.next_part == self.etags.len() + 1
        &&& forall|i: int| 0 <= i < self.etags.len() ==> #[trigger] self.etags[i].0 == i + 1
    }

    pub open spec fn ascending(self) -> bool {
        forall|i: int, j: int|
            0 <= i < j < self.etags.len() ==> #[trigger] self.etags[i].0 < #[trigger] self.etags[j].0
    }

    pub open spec fn etag_texts(self) -> Seq<Seq<char>> {
        self.etags.map_values(|p: (nat, Seq<char>)| p.1)
    }

    /// The session's bookkeeping is consistent: numbering without gaps, a
    /// pending part carries the next number and a rollback point within the
    /// buffer, and a closed session holds nothing more.
    pub open spec fn consistent(self) -> bool {
        &&& self.numbered()
        &&& self.pending matches Some(p) ==> p.0 == self.next_part && self.next_part < u16::MAX && p.1
            <= self.buffer.len()
        &&& self.closed ==> self.buffer.len() == 0 && self.pending is None
    }
}

/// Total length of a sequence of chunks.
pub open spec fn total_len(chunks: Seq<Seq<u8>>) -> nat
    decreases chunks.len(),
{
    if chunks.len() == 0 {
        0
    } else {
        total_len(chunks.drop_last()) + chunks.last().len()
    }
}

/// The session after each chunk went through `upload_part`, every part it
/// prepared being acknowledged with the ETag of the same index.
pub open spec fn fed(s: SessionView, chunks: Seq<Seq<u8>>, etags: Seq<Seq<char>>) -> SessionView
    decreases chunks.len(),
{
    if chunks.len() == 0 {
        s
    } else {
        let prev = fed(s, chunks.drop_last(), etags.drop_last());
        let next = prev.appended(chunks.last());
        if next.needs_flush() {
            next.flushing(prev.buffer.len(), false).acked(etags.last())
        } else {
            next
        }
    }
}

/// The session after `complete_upload` with the last chunk and the
/// acknowledgement of the final part.
pub open spec fn completed(s: SessionView, last: Seq<u8>, etag: Seq<char>) -> SessionView {
    s.appended(last).flushing(s.buffer.len(), true).acked(etag)
}

proof fn lemma_acked_numbered(s: SessionView, etag: Seq<char>)
    requires
        s.numbered(),
    ensures
        s.acked(etag).numbered(),
{
    let a = s.acked(etag);
    assert forall|i: int| 0 <= i < a.etags.len() implies #[trigger] a.etags[i].0 == i + 1 by {
        if i < s.etags.len() {
            assert(a.etags[i] == s.etags[i]);
        }
    }
}

proof fn lemma_fed_invariants(s: SessionView, chunks: Seq<Seq<u8>>, etags: Seq<Seq<char>>)
    requires
        s.numbered(),
    ensures
        fed(s, chunks, etags).numbered(),
        fed(s, chunks, etags).sent + fed(s, chunks, etags).buffer.len() == s.sent + s.buffer.len()
            + total_len(chunks),
    decreases chunks.len(),
{
    if chunks.len() > 0 {
        lemma_fed_invariants(s, chunks.drop_last(), etags.drop_last());
        let prev = fed(s, chunks.drop_last(), etags.drop_last());
        let next = prev.appended(chunks.last());
        lemma_acked_numbered(next.flushing(prev.buffer.len(), false), etags.last());
    }
}

proof fn lemma_numbered_ascending(s: SessionView)
    requires
        s.numbered(),
    ensures
        s.ascending(),
{
    assert forall|i: int, j: int| 0 <= i < j < s.etags.len() implies #[trigger] s.etags[i].0
        < #[trigger] s.etags[j].0 by {
        assert(s.etags[i].0 == i + 1);
        assert(s.etags[j].0 == j + 1);
    }
}

/// However the chunks fall against the part-size threshold, once the upload
/// is completed the acknowledged parts hold every byte handed in, nothing
/// stays buffered, and the session is ready to be finalized.
pub proof fn lemma_all_bytes_sent(
    key: Seq<char>,
    upload_id: Seq<char>,
    chunks: Seq<Seq<u8>>,
    etags: Seq<Seq<char>>,
    last: Seq<u8>,
    last_etag: Seq<char>,
)
    ensures
        completed(fed(SessionView::fresh(key, upload_id), chunks, etags), last, last_etag).sent
            == total_len(chunks) + last.len(),
        completed(fed(SessionView::fresh(key, upload_id), chunks, etags), last, last_etag).buffer.len()
            == 0,
        completed(fed(SessionView::fresh(key, upload_id), chunks, etags), last, last_etag).closed,
{
    let s = SessionView::fresh(key, upload_id);
    assert(s.numbered());
    lemma_fed_invariants(s, chunks, etags);
}

/// Whatever the chunk sizes, the acknowledged parts are listed in strictly
/// ascending part number, during the upload and after its last part.
pub proof fn lemma_parts_ascending(
    key: Seq<char>,
    upload_id: Seq<char>,
    chunks: Seq<Seq<u8>>,
    etags: Seq<Seq<char>>,
    last: Seq<u8>,
    last_etag: Seq<char>,
)
    ensures
        fed(SessionView::fresh(key, upload_id), chunks, etags).ascending(),
        completed(fed(SessionView::fresh(key, upload_id), chunks, etags), last, last_etag).ascending(),
{
    let s = SessionView::fresh(key, upload_id);
    assert(s.numbered());
    lemma_fed_invariants(s, chunks, etags);
    let f = fed(s, chunks, etags);
    lemma_numbered_ascending(f);
    lemma_acked_numbered(f.appended(last).flushing(f.buffer.len(), true), last_etag);
    lemma_numbered_ascending(completed(f, last, last_etag));
}

pub open spec fn acl_headers() -> Seq<(Seq<char>, Seq<char>)> {
    seq![("x-amz-acl"@, "public-read"@)]
}

pub open spec fn header_views(h: Seq<(String, String)>) -> Seq<(Seq<char>, Seq<char>)> {
    h.map_values(|p: (String, String)| (p.0@, p.1@))
}

/// The public URL of an object: the store's URL for it, or, with a host
/// rewrite, the rewrite base followed by the object's path.
pub open spec fn published_url(
    object_url: Seq<char>,
    path: Seq<char>,
    host_rewrite: Option<Seq<char>>,
) -> Seq<char> {
    match host_rewrite {
        Some(base) => without_trailing_slashes(base) + path,
        None => object_url,
    }
}

pub open spec fn option_view(o: Option<String>) -> Option<Seq<char>> {
    match o {
        Some(s) => Some(s@),
        None => None,
    }
}

/// Applies the host rewrite to an object URL whose path is `path`.
pub fn public_url(object_url: &str, path: &str, host_rewrite: &Option<String>) -> (r: String)
    ensures
        r@ == published_url(object_url@, path@, option_view(*host_rewrite)),
{
    match host_rewrite {
        Some(base) => {
            let mut r = trim_trailing_slashes(base.as_str()).to_string();
            r.append(path);
            r
        },
        None => object_url.to_string(),
    }
}

fn acl_header_list() -> (r: Vec<(String, String)>)
    ensures
        header_views(r@) == acl_headers(),
{
    let mut v: Vec<(String, String)> = Vec::new();
    v.push(("x-amz-acl".to_string(), "public-read".to_string()));
    proof {
        assert(header_views(v@) =~= acl_headers());
    }
    v
}

/// The public URL of an object of a bucket, as the configuration publishes
/// it; `None` where the key does not make a URL.
pub open spec fn public_url_of(config: S3Config, key: Seq<char>) -> Option<Seq<char>> {
    match object_url_of(config.spec_base_url(), key) {
        Some(u) => Some(published_url(u, url_path_of(u), option_view(config.spec_host_rewrite()))),
        None => None,
    }
}

/// One multipart upload in progress.
#[derive(Debug)]
pub struct InProgressUpload {
    multipart_id: String,
    obj_name: String,
    parts_counter: u16,
    etags: Vec<(u16, String)>,
    buffer: bytes::BytesMut,
    total_size: usize,
    pending: Option<(u16, usize, bool)>,
    closed: bool,
}

impl View for InProgressUpload {
    type V = SessionView;

    closed spec fn view(&self) -> SessionView {
        SessionView {
            key: self.obj_name@,
            upload_id: self.multipart_id@,
            next_part: self.parts_counter as nat,
            etags: self.etags@.map_values(|p: (u16, String)| (p.0 as nat, p.1@)),
            buffer: buffer_bytes(self.buffer),
            sent: self.total_size as nat,
            pending: match self.pending {
                Some(p) => Some((p.0 as nat, p.1 as nat, p.2)),
                None => None,
            },
            closed: self.closed,
        }
    }
}

impl InProgressUpload {
    pub open spec fn wf(&self) -> bool {
        &&& self@.consistent()
        &&& self@.sent + self@.buffer.len() <= isize::MAX
    }

    fn new(builder: InProgressUploadBuilder, upload_id: String) -> (r: Self)
        ensures
            r.wf(),
            r@ == SessionView::fresh(builder.obj_name@, upload_id@),
    {
        let r = InProgressUpload {
            multipart_id: upload_id,
            obj_name: builder.obj_name,
            parts_counter: 1,
            etags: Vec::new(),
            buffer: empty_buffer(),
            total_size: 0,
            pending: None,
            closed: false,
        };
        proof {
            assert(r@.etags =~= Seq::<(nat, Seq<char>)>::empty());
        }
        r
    }

    fn fits(&self, slice: &[u8]) -> (r: bool)
        requires
            self.wf(),
        ensures
            r == (self@.sent + self@.buffer.len() + slice@.len() <= isize::MAX),
    {
        let buffered = buffer_len(&self.buffer);
        buffered <= isize::MAX as usize - self.total_size && slice.len() <= isize::MAX as usize
            - self.total_size - buffered
    }

    /// Appends the slice, then, when asked to, prepares the whole buffer as
    /// the next part and marks it pending.
    fn take_slice(&mut self, config: &S3Config, slice: &[u8], flush: bool, last: bool) -> (r: Option<
        PartRequest,
    >)
        requires
            old(self).wf(),
            old(self)@.pending is None,
            old(self)@.sent + old(self)@.buffer.len() + slice@.len() <= isize::MAX,
            flush ==> old(self)@.next_part < u16::MAX,
            signable(config.spec_base_url(), old(self)@.key),
        ensures
            final(self).wf(),
            !flush ==> r is None && final(self)@ == old(self)@.appended(slice@),
            flush ==> final(self)@ == old(self)@.appended(slice@).flushing(
                old(self)@.buffer.len(),
                last,
            ),
            r matches Some(p) ==> p.part_number == old(self)@.next_part && buffer_bytes(p.body)
                == final(self)@.buffer && signed_with(p.url@, config.spec_base_url(), old(self)@.key, part_params(old(self)@.next_part as u16, query_encoded(old(self)@.upload_id), SIGNATURE_TTL_SECS)),
            flush ==> r is Some,
    {
        let undo = buffer_len(&self.buffer);
        buffer_append(&mut self.buffer, slice);
        self.closed = false;
        if !flush {
            return None;
        }
        let url = match sign_upload_part(
            config,
            self.obj_name.as_str(),
            self.parts_counter,
            self.multipart_id.as_str(),
            SIGNATURE_TTL_SECS,
        ) {
            Ok(u) => u,
            Err(_) => {
                assert(false);
                String::new()
            },
        };
        self.pending = Some((self.parts_counter, undo, last));
        Some(PartRequest { part_number: self.parts_counter, url, body: buffer_copy(&self.buffer) })
    }

    fn record_part(&mut self, etag: &str)
        requires
            old(self).wf(),
            old(self)@.pending is Some,
        ensures
            final(self).wf(),
            final(self)@ == old(self)@.acked(etag@),
    {
        let tag = strip_quotes(etag);
        let len = buffer_len(&self.buffer);
        let last = match self.pending {
            Some(p) => p.2,
            None => false,
        };
        self.etags.push((self.parts_counter, tag));
        self.total_size = self.total_size + len;
        self.parts_counter = self.parts_counter + 1;
        buffer_clear(&mut self.buffer);
        self.pending = None;
        self.closed = last;
        proof {
            assert(self@.etags =~= old(self)@.etags.push((old(self)@.next_part, unquoted(etag@))));
            assert(self@.buffer =~= Seq::<u8>::empty());
            lemma_acked_numbered(old(self)@, etag@);
        }
    }

    fn roll_back(&mut self)
        requires
            old(self).wf(),
            old(self)@.pending is Some,
        ensures
            final(self).wf(),
            final(self)@ == old(self)@.rolled_back(),
    {
        let undo = match self.pending {
            Some(p) => p.1,
            None => buffer_len(&self.buffer),
        };
        buffer_truncate(&mut self.buffer, undo);
        self.pending = None;
    }

    fn etag_list(&self) -> (r: Vec<String>)
        requires
            self.wf(),
        ensures
            views_of(r@) == self@.etag_texts(),
            r.len() == self@.etags.len(),
    {
        let mut r: Vec<String> = Vec::new();
        let mut i: usize = 0;
        while i < self.etags.len()
            invariant
                i <= self.etags.len(),
                views_of(r@) == self@.etag_texts().subrange(0, i as int),
                r.len() == i,
            decreases self.etags.len() - i,
        {
            r.push(self.etags[i].1.clone());
            proof {
                assert(views_of(r@) =~= self@.etag_texts().subrange(0, i + 1));
            }
            i = i + 1;
        }
        proof {
            assert(self@.etag_texts().subrange(0, i as int) =~= self@.etag_texts());
        }
        r
    }
}

pub enum ManagerState {
    InProgress(InProgressUpload, S3Config),
    Idle(S3Config),
    NotInitialized,
}

#[derive(Debug, Clone, Copy, PartialEq, Eq)]
pub enum Phase {
    Uninitialized,
    Idle,
    InProgress,
}

/// Owns the bucket configuration and at most one multipart upload.
pub struct UploadManager {
    state: ManagerState,
}

impl UploadManager {
    pub closed spec fn state(&self) -> ManagerState {
        self.state
    }

    pub open spec fn spec_phase(&self) -> Phase {
        match self.state() {
            ManagerState::InProgress(..) => Phase::InProgress,
            ManagerState::Idle(..) => Phase::Idle,
            ManagerState::NotInitialized => Phase::Uninitialized,
        }
    }

    pub open spec fn session(&self) -> SessionView {
        match self.state() {
            ManagerState::InProgress(u, _) => u@,
            _ => SessionView::fresh(Seq::empty(), Seq::empty()),
        }
    }

    pub open spec fn config(&self) -> Option<S3Config> {
        match self.state() {
            ManagerState::InProgress(_, c) => Some(c),
            ManagerState::Idle(c) => Some(c),
            ManagerState::NotInitialized => None,
        }
    }

    /// The base URL of the configured bucket.
    pub open spec fn base_url(&self) -> Seq<char> {
        match self.config() {
            Some(c) => c.spec_base_url(),
            None => Seq::empty(),
        }
    }

    /// A configuration is known and requests can be signed for the key in
    /// its bucket: the key is not empty and makes an object URL.
    pub open spec fn addressable(&self, key: Seq<char>) -> bool {
        match self.config() {
            Some(c) => signable(c.spec_base_url(), key),
            None => false,
        }
    }

    /// A session in progress is consistent, and requests can be signed for
    /// its key in the configured bucket.
    pub open spec fn wf(&self) -> bool {
        match self.state() {
            ManagerState::InProgress(u, c) => u.wf() && signable(c.spec_base_url(), u@.key),
            _ => true,
        }
    }

    pub fn new() -> (r: Self)
        ensures
            r.wf(),
            r.spec_phase() == Phase::Uninitialized,
    {
        UploadManager { state: ManagerState::NotInitialized }
    }

    /// Whether the upload in progress has its final part acknowledged, so
    /// that it can be finalized.
    pub fn ready_to_finalize(&self) -> (r: bool)
        ensures
            r == (self.spec_phase() == Phase::InProgress && self.session().closed),
    {
        match &self.state {
            ManagerState::InProgress(upload, _) => upload.closed,
            _ => false,
        }
    }

    pub fn phase(&self) -> (r: Phase)
        ensures
            r == self.spec_phase(),
    {
        match &self.state {
            ManagerState::InProgress(..) => Phase::InProgress,
            ManagerState::Idle(..) => Phase::Idle,
            ManagerState::NotInitialized => Phase::Uninitialized,
        }
    }
}

/// In every well-formed manager, the acknowledged parts of the session in
/// progress are numbered from 1 without gaps, so they are listed in strictly
/// ascending part number.
pub proof fn lemma_session_parts_ascending(m: &UploadManager)
    requires
        m.wf(),
        m.spec_phase() == Phase::InProgress,
    ensures
        m.session().numbered(),
        m.session().ascending(),
{
    lemma_numbered_ascending(m.session());
}

impl UploadManager {
    /// Installs a bucket configuration; refused while an upload is in
    /// progress.
    pub fn set_config(&mut self, config: S3Config) -> (r: Result<(), UploadError>)
        requires
            old(self).wf(),
        ensures
            final(self).wf(),
            old(self).spec_phase() == Phase::InProgress ==> r == Err::<(), UploadError>(
                UploadError::AlreadyUploading,
            ) && final(self).state() == old(self).state(),
            old(self).spec_phase() != Phase::InProgress ==> r is Ok && final(self).spec_phase()
                == Phase::Idle && final(self).config() == Some(config),
    {
        if let ManagerState::InProgress(..) = &self.state {
            return Err(UploadError::AlreadyUploading);
        }
        self.state = ManagerState::Idle(config);
        Ok(())
    }

    /// The signed request that creates a multipart upload of `obj_name`,
    /// for a manager that is idle.
    pub fn new_multipart_upload(&self, obj_name: &str) -> (r: Result<SignedRequest, UploadError>)
        ensures
            self.spec_phase() == Phase::Uninitialized ==> r == Err::<SignedRequest, UploadError>(
                UploadError::Unconfigured,
            ),
            self.spec_phase() == Phase::InProgress ==> r == Err::<SignedRequest, UploadError>(
                UploadError::AlreadyUploading,
            ),
            self.spec_phase() == Phase::Idle && !self.addressable(obj_name@) ==> r == Err::<SignedRequest, UploadError>(UploadError::InvalidObjectUrl),
            self.spec_phase() == Phase::Idle && self.addressable(obj_name@) ==> (r matches Ok(req) && req.method == HttpMethod::Post && signed_with(
                req.url@,
                self.base_url(),
                obj_name@, create_params(SIGNATURE_TTL_SECS)) && header_views(req.headers@) == acl_headers() && req.body@.len() == 0),
    {
        match &self.state {
            ManagerState::NotInitialized => Err(UploadError::Unconfigured),
            ManagerState::InProgress(..) => Err(UploadError::AlreadyUploading),
            ManagerState::Idle(config) => {
                let headers = acl_header_list();
                if obj_name.is_empty() {
                    return Err(UploadError::InvalidObjectUrl);
                }
                match sign_create_multipart(config, obj_name, &headers, SIGNATURE_TTL_SECS) {
                    Ok(url) => Ok(
                        SignedRequest { method: HttpMethod::Post, url, headers, body: String::new() },
                    ),
                    Err(_) => Err(UploadError::InvalidObjectUrl),
                }
            },
        }
    }

    /// Starts the session for an upload id the store handed out.
    pub fn open_session(&mut self, builder: InProgressUploadBuilder, upload_id: String) -> (r:
        Result<(), UploadError>)
        requires
            old(self).wf(),
        ensures
            final(self).wf(),
            old(self).spec_phase() == Phase::Uninitialized ==> r == Err::<(), UploadError>(
                UploadError::Unconfigured,
            ) && final(self).state() == old(self).state(),
            old(self).spec_phase() == Phase::InProgress ==> r == Err::<(), UploadError>(
                UploadError::AlreadyUploading,
            ) && final(self).state() == old(self).state(),
            old(self).spec_phase() == Phase::Idle && !old(self).addressable(builder.obj_name@) ==> r == Err::<(), UploadError>(UploadError::InvalidObjectUrl) && final(self).state() == old(self).state(),
            old(self).spec_phase() == Phase::Idle && old(self).addressable(builder.obj_name@) ==> r is Ok && final(self).spec_phase() == Phase::InProgress && final(self).config() == old(self).config() && final(self).session() == SessionView::fresh(
                builder.obj_name@,
                upload_id@,
            ),
    {
        match &self.state {
            ManagerState::NotInitialized => {
                return Err(UploadError::Unconfigured);
            },
            ManagerState::InProgress(..) => {
                return Err(UploadError::AlreadyUploading);
            },
            ManagerState::Idle(config) => {
                if builder.obj_name.as_str().is_empty() || object_url(
                    config,
                    builder.obj_name.as_str(),
                ).is_none() {
                    return Err(UploadError::InvalidObjectUrl);
                }
            },
        }
        let mut state = ManagerState::NotInitialized;
        std::mem::swap(&mut state, &mut self.state);
        match state {
            ManagerState::Idle(config) => {
                self.state = ManagerState::InProgress(
                    InProgressUpload::new(builder, upload_id),
                    config,
                );
                Ok(())
            },
            other => {
                self.state = other;
                Err(UploadError::Unconfigured)
            },
        }
    }

    /// Reads the upload id from the store's answer to the create request
    /// and starts the session.
    pub fn multipart_created(
        &mut self,
        builder: InProgressUploadBuilder,
        response_body: &str,
    ) -> (r: Result<(), UploadError>)
        requires
            old(self).wf(),
        ensures
            final(self).wf(),
            old(self).spec_phase() == Phase::Uninitialized ==> r == Err::<(), UploadError>(
                UploadError::Unconfigured,
            ) && final(self).state() == old(self).state(),
            old(self).spec_phase() == Phase::InProgress ==> r == Err::<(), UploadError>(
                UploadError::AlreadyUploading,
            ) && final(self).state() == old(self).state(),
            old(self).spec_phase() == Phase::Idle && upload_id_in(response_body@) is None ==> r
                == Err::<(), UploadError>(UploadError::MissingUploadId) && final(self).state()
                == old(self).state(),
            old(self).spec_phase() == Phase::Idle && upload_id_in(response_body@) is Some
                && !old(self).addressable(builder.obj_name@)
                ==> r == Err::<(), UploadError>(UploadError::InvalidObjectUrl) && final(self).state()
                == old(self).state(),
            old(self).spec_phase() == Phase::Idle && upload_id_in(response_body@) is Some
                && old(self).addressable(builder.obj_name@)
                ==> r is Ok && final(self).spec_phase() == Phase::InProgress && final(self).config()
                == old(self).config() && final(self).session() == SessionView::fresh(
                builder.obj_name@,
                upload_id_in(response_body@)->0,
            ),
    {
        match &self.state {
            ManagerState::NotInitialized => {
                return Err(UploadError::Unconfigured);
            },
            ManagerState::InProgress(..) => {
                return Err(UploadError::AlreadyUploading);
            },
            ManagerState::Idle(..) => {},
        }
        match parse_upload_id(response_body) {
            Some(id) => self.open_session(builder, id),
            None => Err(UploadError::MissingUploadId),
        }
    }

    /// Buffers bytes of the object; once the buffer reaches the minimum part
    /// size, returns the part to send, which stays pending until its outcome
    /// is reported.
    pub fn upload_part(&mut self, slice: &[u8]) -> (r: Result<Option<PartRequest>, UploadError>)
        requires
            old(self).wf(),
        ensures
            final(self).wf(),
            old(self).spec_phase() != Phase::InProgress ==> r == Err::<Option<PartRequest>, UploadError>(
                UploadError::NoUploadInProgress,
            ) && final(self).state() == old(self).state(),
            old(self).spec_phase() == Phase::InProgress ==> ({
                let s = old(self).session();
                let s2 = s.appended(slice@);
                let fits = s.sent + s.buffer.len() + slice@.len() <= isize::MAX;
                &&& s.pending is Some ==> r == Err::<Option<PartRequest>, UploadError>(
                    UploadError::PartPending,
                ) && final(self).state() == old(self).state()
                &&& s.pending is None && !fits ==> r == Err::<Option<PartRequest>, UploadError>(
                    UploadError::SizeLimit,
                ) && final(self).state() == old(self).state()
                &&& s.pending is None && fits && s2.needs_flush() && s.next_part >= u16::MAX ==> r
                    == Err::<Option<PartRequest>, UploadError>(UploadError::PartLimit) && final(self).state() == old(self).state()
                &&& s.pending is None && fits && !s2.needs_flush() ==> r == Ok::<
                    Option<PartRequest>,
                    UploadError,
                >(None) && final(self).spec_phase() == Phase::InProgress && final(self).config()
                    == old(self).config() && final(self).session() == s2
                &&& s.pending is None && fits && s2.needs_flush() && s.next_part < u16::MAX ==> (r matches Ok(Some(p)) && final(self).spec_phase() == Phase::InProgress && final(self).config() == old(self).config() && final(self).session() == s2.flushing(s.buffer.len(), false)
                    && p.part_number == s.next_part && buffer_bytes(p.body) == s2.buffer
                    && signed_with(p.url@, old(self).base_url(), s.key, part_params(s.next_part as u16, query_encoded(s.upload_id), SIGNATURE_TTL_SECS)))
            }),
    {
        match &mut self.state {
            ManagerState::InProgress(upload, config) => {
                if upload.pending.is_some() {
                    return Err(UploadError::PartPending);
                }
                if !upload.fits(slice) {
                    return Err(UploadError::SizeLimit);
                }
                let flush = buffer_len(&upload.buffer) + slice.len() >= MIN_PART_SIZE;
                if flush && upload.parts_counter == u16::MAX {
                    return Err(UploadError::PartLimit);
                }
                Ok(upload.take_slice(config, slice, flush, false))
            },
            _ => Err(UploadError::NoUploadInProgress),
        }
    }

    /// Buffers the last bytes of the object and returns the final part to
    /// send, whatever its size; it stays pending until its outcome is
    /// reported.
    pub fn complete_upload(&mut self, slice: &[u8]) -> (r: Result<PartRequest, UploadError>)
        requires
            old(self).wf(),
        ensures
            final(self).wf(),
            old(self).spec_phase() != Phase::InProgress ==> r == Err::<PartRequest, UploadError>(
                UploadError::NoUploadInProgress,
            ) && final(self).state() == old(self).state(),
            old(self).spec_phase() == Phase::InProgress ==> ({
                let s = old(self).session();
                let s2 = s.appended(slice@);
                let fits = s.sent + s.buffer.len() + slice@.len() <= isize::MAX;
                &&& s.pending is Some ==> r == Err::<PartRequest, UploadError>(
                    UploadError::PartPending,
                ) && final(self).state() == old(self).state()
                &&& s.pending is None && !fits ==> r == Err::<PartRequest, UploadError>(
                    UploadError::SizeLimit,
                ) && final(self).state() == old(self).state()
                &&& s.pending is None && fits && s.next_part >= u16::MAX ==> r == Err::<
                    PartRequest,
                    UploadError,
                >(UploadError::PartLimit) && final(self).state() == old(self).state()
                &&& s.pending is None && fits && s.next_part < u16::MAX ==> (r matches Ok(p) && final(self).spec_phase() == Phase::InProgress && final(self).config() == old(self).config()
                    && final(self).session() == s2.flushing(s.buffer.len(), true) && p.part_number
                    == s.next_part && buffer_bytes(p.body) == s2.buffer && signed_with(
                    p.url@,
                    old(self).base_url(),
                    s.key, part_params(s.next_part as u16, query_encoded(s.upload_id), SIGNATURE_TTL_SECS)))
            }),
    {
        match &mut self.state {
            ManagerState::InProgress(upload, config) => {
                if upload.pending.is_some() {
                    return Err(UploadError::PartPending);
                }
                if !upload.fits(slice) {
                    return Err(UploadError::SizeLimit);
                }
                if upload.parts_counter == u16::MAX {
                    return Err(UploadError::PartLimit);
                }
                match upload.take_slice(config, slice, true, true) {
                    Some(p) => Ok(p),
                    None => Err(UploadError::PartPending),
                }
            },
            _ => Err(UploadError::NoUploadInProgress),
        }
    }

    /// Records the store's acknowledgement of the pending part, with the
    /// ETag header it answered.
    pub fn part_uploaded(&mut self, part_number: u16, etag: &str) -> (r: Result<(), UploadError>)
        requires
            old(self).wf(),
        ensures
            final(self).wf(),
            old(self).spec_phase() != Phase::InProgress ==> r == Err::<(), UploadError>(
                UploadError::NoUploadInProgress,
            ) && final(self).state() == old(self).state(),
            old(self).spec_phase() == Phase::InProgress && !(old(self).session().pending matches Some(p) && p.0 == part_number) ==> r == Err::<(), UploadError>(UploadError::StalePart) && final(self).state() == old(self).state(),
            old(self).spec_phase() == Phase::InProgress && (old(self).session().pending matches Some(p) && p.0 == part_number) ==> r is Ok && final(self).spec_phase() == Phase::InProgress
                && final(self).config() == old(self).config() && final(self).session() == old(self).session().acked(etag@),
    {
        match &mut self.state {
            ManagerState::InProgress(upload, _) => {
                match upload.pending {
                    Some(p) => {
                        if p.0 != part_number {
                            return Err(UploadError::StalePart);
                        }
                    },
                    None => {
                        return Err(UploadError::StalePart);
                    },
                }
                upload.record_part(etag);
                Ok(())
            },
            _ => Err(UploadError::NoUploadInProgress),
        }
    }

    /// The pending part failed: the session goes back to what it was before
    /// the call that prepared it, so that call can be retried as it was.
    pub fn part_failed(&mut self) -> (r: Result<(), UploadError>)
        requires
            old(self).wf(),
        ensures
            final(self).wf(),
            old(self).spec_phase() != Phase::InProgress ==> r == Err::<(), UploadError>(
                UploadError::NoUploadInProgress,
            ) && final(self).state() == old(self).state(),
            old(self).spec_phase() == Phase::InProgress && old(self).session().pending is None ==> r
                == Err::<(), UploadError>(UploadError::StalePart) && final(self).state() == old(self).state(),
            old(self).spec_phase() == Phase::InProgress && old(self).session().pending is Some ==> r
                is Ok && final(self).spec_phase() == Phase::InProgress && final(self).config() == old(self).config() && final(self).session() == old(self).session().rolled_back(),
    {
        match &mut self.state {
            ManagerState::InProgress(upload, _) => {
                if upload.pending.is_none() {
                    return Err(UploadError::StalePart);
                }
                upload.roll_back();
                Ok(())
            },
            _ => Err(UploadError::NoUploadInProgress),
        }
    }

    /// The signed request that finalizes the upload, listing the
    /// acknowledged parts in order; only once the final part is
    /// acknowledged.
    pub fn finalize_request(&self) -> (r: Result<SignedRequest, UploadError>)
        requires
            self.wf(),
        ensures
            self.spec_phase() != Phase::InProgress ==> r == Err::<SignedRequest, UploadError>(
                UploadError::NoUploadInProgress,
            ),
            self.spec_phase() == Phase::InProgress && !self.session().closed ==> r == Err::<
                SignedRequest,
                UploadError,
            >(UploadError::UnflushedBytes),
            self.spec_phase() == Phase::InProgress && self.session().closed ==> (r matches Ok(req)
                && req.method == HttpMethod::Post && signed_with(
                req.url@,
                self.base_url(),
                self.session().key, complete_params(query_encoded(self.session().upload_id), SIGNATURE_TTL_SECS)) && req.headers@.len() == 0 && req.body@ == completion_xml(
                self.session().etag_texts(),
            )),
    {
        match &self.state {
            ManagerState::InProgress(upload, config) => {
                if !upload.closed {
                    return Err(UploadError::UnflushedBytes);
                }
                let tags = upload.etag_list();
                let url = match sign_complete_multipart(
                    config,
                    upload.obj_name.as_str(),
                    upload.multipart_id.as_str(),
                    &tags,
                    SIGNATURE_TTL_SECS,
                ) {
                    Ok(u) => u,
                    Err(_) => {
                        assert(false);
                        String::new()
                    },
                };
                let body = completion_body(
                    config,
                    upload.obj_name.as_str(),
                    upload.multipart_id.as_str(),
                    &tags,
                );
                Ok(SignedRequest { method: HttpMethod::Post, url, headers: Vec::new(), body })
            },
            _ => Err(UploadError::NoUploadInProgress),
        }
    }

    /// The store accepted the finalize request: the session ends and the
    /// object's public URL is returned.
    pub fn upload_finished(&mut self) -> (r: Result<String, UploadError>)
        requires
            old(self).wf(),
        ensures
            final(self).wf(),
            old(self).spec_phase() != Phase::InProgress ==> r == Err::<String, UploadError>(
                UploadError::NoUploadInProgress,
            ) && final(self).state() == old(self).state(),
            old(self).spec_phase() == Phase::InProgress && !old(self).session().closed ==> r == Err::<
                String,
                UploadError,
            >(UploadError::UnflushedBytes) && final(self).state() == old(self).state(),
            old(self).spec_phase() == Phase::InProgress && old(self).session().closed ==> (r matches Ok(url) && Some(url@) == public_url_of(old(self).config()->0, old(self).session().key)
                && final(self).spec_phase() == Phase::Idle && final(self).config() == old(self).config()),
    {
        let url = match &self.state {
            ManagerState::InProgress(upload, config) => {
                if !upload.closed {
                    return Err(UploadError::UnflushedBytes);
                }
                match Self::public_object_url(config, upload.obj_name.as_str()) {
                    Ok(u) => u,
                    Err(e) => {
                        return Err(e);
                    },
                }
            },
            _ => {
                return Err(UploadError::NoUploadInProgress);
            },
        };
        let mut state = ManagerState::NotInitialized;
        std::mem::swap(&mut state, &mut self.state);
        match state {
            ManagerState::InProgress(_, config) => {
                self.state = ManagerState::Idle(config);
            },
            other => {
                self.state = other;
            },
        }
        Ok(url)
    }

    fn public_object_url(config: &S3Config, key: &str) -> (r: Result<String, UploadError>)
        ensures
            public_url_of(*config, key@) is None ==> r == Err::<String, UploadError>(
                UploadError::InvalidObjectUrl,
            ),
            public_url_of(*config, key@) is Some ==> (r matches Ok(url) && Some(url@)
                == public_url_of(*config, key@)),
    {
        match object_url(config, key) {
            Some((text, path)) => Ok(public_url(text.as_str(), path.as_str(), config.host_rewrite())),
            None => Err(UploadError::InvalidObjectUrl),
        }
    }

    /// The public URL of an object of the configured bucket.
    pub fn object_public_url(&self, obj_name: &str) -> (r: Result<String, UploadError>)
        ensures
            self.spec_phase() == Phase::Uninitialized ==> r == Err::<String, UploadError>(
                UploadError::Unconfigured,
            ),
            self.spec_phase() != Phase::Uninitialized && public_url_of(self.config()->0, obj_name@) is None
                ==> r == Err::<String, UploadError>(UploadError::InvalidObjectUrl),
            self.spec_phase() != Phase::Uninitialized && public_url_of(self.config()->0, obj_name@) is Some
                ==> (r matches Ok(url) && Some(url@) == public_url_of(self.config()->0, obj_name@)),
    {
        match &self.state {
            ManagerState::InProgress(_, config) => Self::public_object_url(config, obj_name),
            ManagerState::Idle(config) => Self::public_object_url(config, obj_name),
            ManagerState::NotInitialized => Err(UploadError::Unconfigured),
        }
    }

    /// The signed request that deletes an object; needs only a known
    /// configuration, whatever the session.
    pub fn delete(&self, obj_name: &str) -> (r: Result<SignedRequest, UploadError>)
        ensures
            self.spec_phase() == Phase::Uninitialized ==> r == Err::<SignedRequest, UploadError>(
                UploadError::Unconfigured,
            ),
            self.spec_phase() != Phase::Uninitialized && !self.addressable(obj_name@) ==> r == Err::<SignedRequest, UploadError>(UploadError::InvalidObjectUrl),
            self.spec_phase() != Phase::Uninitialized && self.addressable(obj_name@) ==> (r matches Ok(req) && req.method == HttpMethod::Delete && signed_with(
                req.url@,
                self.base_url(),
                obj_name@, expiry_params(SIGNATURE_TTL_SECS)) && req.headers@.len() == 0 && req.body@.len() == 0),
    {
        let config = match &self.state {
            ManagerState::InProgress(_, config) => config,
            ManagerState::Idle(config) => config,
            ManagerState::NotInitialized => {
                return Err(UploadError::Unconfigured);
            },
        };
        if obj_name.is_empty() {
            return Err(UploadError::InvalidObjectUrl);
        }
        match sign_delete(config, obj_name, SIGNATURE_TTL_SECS) {
            Ok(url) => Ok(
                SignedRequest { method: HttpMethod::Delete, url, headers: Vec::new(), body: String::new() },
            ),
            Err(_) => Err(UploadError::InvalidObjectUrl),
        }
    }

    /// The signed request that uploads a whole object in one `PUT`, publicly
    /// readable, with the given content type; the caller sends the bytes as
    /// its body. The object's public URL is `object_public_url(obj_name)`.
    pub fn new_upload(&self, obj_name: &str, content_type: &str) -> (r: Result<
        SignedRequest,
        UploadError,
    >)
        ensures
            self.spec_phase() == Phase::Uninitialized ==> r == Err::<SignedRequest, UploadError>(
                UploadError::Unconfigured,
            ),
            self.spec_phase() != Phase::Uninitialized && !self.addressable(obj_name@) ==> r == Err::<SignedRequest, UploadError>(UploadError::InvalidObjectUrl),
            self.spec_phase() != Phase::Uninitialized && self.addressable(obj_name@) ==> (r matches Ok(req) && req.method == HttpMethod::Put && signed_with(
                req.url@,
                self.base_url(),
                obj_name@, expiry_params(SIGNATURE_TTL_SECS)) && header_views(req.headers@) == seq![("content-type"@, content_type@)]
                + acl_headers() && req.body@.len() == 0),
    {
        let config = match &self.state {
            ManagerState::InProgress(_, config) => config,
            ManagerState::Idle(config) => config,
            ManagerState::NotInitialized => {
                return Err(UploadError::Unconfigured);
            },
        };
        let mut headers: Vec<(String, String)> = Vec::new();
        headers.push(("content-type".to_string(), content_type.to_string()));
        headers.push(("x-amz-acl".to_string(), "public-read".to_string()));
        proof {
            assert(header_views(headers@) =~= seq![("content-type"@, content_type@)] + acl_headers());
        }
        if obj_name.is_empty() {
            return Err(UploadError::InvalidObjectUrl);
        }
        match sign_put(config, obj_name, &headers, SIGNATURE_TTL_SECS) {
            Ok(url) => Ok(SignedRequest { method: HttpMethod::Put, url, headers, body: String::new() }),
            Err(_) => Err(UploadError::InvalidObjectUrl),
        }
    }
}

impl Default for UploadManager {
    fn default() -> (r: Self)
        ensures
            r.wf(),
            r.spec_phase() == Phase::Uninitialized,
    {
        UploadManager::new()
    }
}

} // verus!
