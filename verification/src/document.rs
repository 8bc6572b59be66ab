//! Stored documents: an event-sourced entity tracking upload, download links,
//! archiving and deletion, and the sanitising of uploaded file names.

use vstd::prelude::*;

use crate::primitives::{
    push_char, tagged_id, uuid_text, BuilderError, DocumentId, EntityError, Idempotent,
    ReferenceId,
};

verus! {

// ---------------------------------------------------------------------------
// Character classes from std
// ---------------------------------------------------------------------------

/// What `char::is_alphanumeric` returns: whether the character is alphabetic
/// or numeric in Unicode's sense.
pub uninterp spec fn unicode_alphanumeric(c: char) -> bool;

/// What `char::is_whitespace` returns: whether the character has Unicode's
/// `White_Space` property.
pub uninterp spec fn unicode_whitespace(c: char) -> bool;

/// Calls `char::is_alphanumeric`.
#[verifier::external_body]
fn is_alphanumeric(c: char) -> (b: bool)
    ensures
        b == unicode_alphanumeric(c),
{
    c.is_alphanumeric()
}

/// Calls `char::is_whitespace`.
#[verifier::external_body]
fn is_whitespace(c: char) -> (b: bool)
    ensures
        b == unicode_whitespace(c),
{
    c.is_whitespace()
}

/// The text without leading whitespace (what `str::trim_start` keeps).
pub open spec fn trim_start(s: Seq<char>) -> Seq<char>
    decreases s.len(),
{
    if s.len() > 0 && unicode_whitespace(s[0]) {
        trim_start(s.drop_first())
    } else {
        s
    }
}

/// The text without trailing whitespace (what `str::trim_end` keeps).
pub open spec fn trim_end(s: Seq<char>) -> Seq<char>
    decreases s.len(),
{
    if s.len() > 0 && unicode_whitespace(s.last()) {
        trim_end(s.drop_last())
    } else {
        s
    }
}

/// A character of a stored file name: letters, digits and `-` stay, any
/// other character becomes `-`.
pub open spec fn sanitize_char(c: char) -> char {
    if !unicode_alphanumeric(c) && c != '-' {
        '-'
    } else {
        c
    }
}

/// The stored file name: the trimmed name with every character sanitised.
pub open spec fn sanitized_filename(name: Seq<char>) -> Seq<char> {
    trim_end(trim_start(name)).map_values(|c: char| sanitize_char(c))
}

/// A sanitised name is the trimmed name, character for character: every
/// letter, digit or `-` is kept, every other character becomes `-`; so the
/// name holds nothing but letters, digits and `-`.
pub proof fn sanitized_names_hold_only_letters_digits_and_dashes(name: Seq<char>)
    ensures
        sanitized_filename(name).len() == trim_end(trim_start(name)).len(),
        forall|i: int|
            0 <= i < sanitized_filename(name).len() ==> {
                let c = trim_end(trim_start(name))[i];
                let out = #[trigger] sanitized_filename(name)[i];
                &&& unicode_alphanumeric(out) || out == '-'
                &&& (unicode_alphanumeric(c) || c == '-') ==> out == c
                &&& !(unicode_alphanumeric(c) || c == '-') ==> out == '-'
            },
{
}

proof fn lemma_trim_start_skip(s: Seq<char>, i: int)
    requires
        0 <= i < s.len(),
        unicode_whitespace(s[i]),
    ensures
        trim_start(s.subrange(i, s.len() as int)) == trim_start(s.subrange(i + 1, s.len() as int)),
{
    assert(s.subrange(i, s.len() as int).drop_first() =~= s.subrange(i + 1, s.len() as int));
}

proof fn lemma_trim_end_skip(t: Seq<char>, j: int)
    requires
        0 < j <= t.len(),
        unicode_whitespace(t[j - 1]),
    ensures
        trim_end(t.subrange(0, j)) == trim_end(t.subrange(0, j - 1)),
{
    assert(t.subrange(0, j).drop_last() =~= t.subrange(0, j - 1));
}

/// Trims the name and replaces every character other than letters, digits
/// and `-` by `-`.
pub fn sanitize_filename(filename: &str) -> (s: String)
    ensures
        s@ == sanitized_filename(filename@),
        forall|i: int| 0 <= i < s@.len() ==> unicode_alphanumeric(#[trigger] s@[i]) || s@[i] == '-',
{
    let n = filename.unicode_len();
    let ghost text = filename@;
    let mut i: usize = 0;
    assert(text.subrange(0, n as int) =~= text);
    while i < n && is_whitespace(filename.get_char(i))
        invariant
            n == text.len(),
            text == filename@,
            i <= n,
            trim_start(text) == trim_start(text.subrange(i as int, n as int)),
        decreases n - i,
    {
        proof {
            lemma_trim_start_skip(text, i as int);
        }
        i += 1;
    }
    let ghost started = text.subrange(i as int, n as int);
    assert(trim_start(started) == started) by {
        if started.len() > 0 {
            assert(started[0] == text[i as int]);
        }
    }
    let mut j: usize = n;
    assert(started.subrange(0, (j - i) as int) =~= started);
    while j > i && is_whitespace(filename.get_char(j - 1))
        invariant
            n == text.len(),
            text == filename@,
            i <= j <= n,
            started == text.subrange(i as int, n as int),
            trim_end(started) == trim_end(started.subrange(0, (j - i) as int)),
        decreases j,
    {
        proof {
            assert(started[(j - i) - 1] == text[j - 1]);
            lemma_trim_end_skip(started, (j - i) as int);
        }
        j -= 1;
    }
    let ghost trimmed = started.subrange(0, (j - i) as int);
    assert(trim_end(trimmed) == trimmed) by {
        if trimmed.len() > 0 {
            assert(trimmed.last() == text[j - 1]);
        }
    }
    assert(trimmed =~= text.subrange(i as int, j as int));
    let mut out = String::new();
    let mut k: usize = i;
    while k < j
        invariant
            n == text.len(),
            text == filename@,
            i <= k <= j <= n,
            trimmed == text.subrange(i as int, j as int),
            out@ == trimmed.subrange(0, (k - i) as int).map_values(|c: char| sanitize_char(c)),
        decreases j - k,
    {
        let c = filename.get_char(k);
        let mapped = if !is_alphanumeric(c) && c != '-' {
            '-'
        } else {
            c
        };
        push_char(&mut out, mapped);
        assert(trimmed.subrange(0, (k + 1 - i) as int).map_values(|c: char| sanitize_char(c))
            =~= trimmed.subrange(0, (k - i) as int).map_values(|c: char| sanitize_char(c)).push(
            sanitize_char(c),
        ));
        k += 1;
    }
    assert(trimmed.subrange(0, (j - i) as int) =~= trimmed);
    proof {
        sanitized_names_hold_only_letters_digits_and_dashes(filename@);
    }
    out
}

// ---------------------------------------------------------------------------
// The entity
// ---------------------------------------------------------------------------

#[derive(Debug)]
pub struct GeneratedDocumentDownloadLink {
    pub document_id: DocumentId,
    pub link: String,
}

#[derive(Clone, Copy, Debug, PartialEq, Eq, Structural)]
pub enum DocumentStatus {
    New,
    Failed,
    Active,
    Archived,
    Deleted,
}

/// The kind of a document, such as `"loan_agreement"`.
#[derive(Debug)]
pub struct DocumentType {
    pub name: String,
}

#[derive(Debug)]
pub enum DocumentEvent {
    Initialized {
        id: DocumentId,
        document_type: DocumentType,
        reference_id: ReferenceId,
        sanitized_filename: String,
        original_filename: String,
        content_type: String,
        path_in_storage: String,
        storage_identifier: String,
    },
    FileUploaded,
    UploadFailed { error: String },
    DownloadLinkGenerated,
    Deleted,
    Archived,
}

/// The newest `Initialized` event, if any.
pub open spec fn last_initialized(events: Seq<DocumentEvent>) -> Option<DocumentEvent>
    decreases events.len(),
{
    if events.len() == 0 {
        None
    } else {
        match events.last() {
            DocumentEvent::Initialized { .. } => Some(events.last()),
            _ => last_initialized(events.drop_last()),
        }
    }
}

/// The status replaying `events` gives: that of the newest event which sets
/// one (every event but `DownloadLinkGenerated`).
pub open spec fn replayed_status(events: Seq<DocumentEvent>) -> Option<DocumentStatus>
    decreases events.len(),
{
    if events.len() == 0 {
        None
    } else {
        match events.last() {
            DocumentEvent::Initialized { .. } => Some(DocumentStatus::New),
            DocumentEvent::FileUploaded => Some(DocumentStatus::Active),
            DocumentEvent::UploadFailed { .. } => Some(DocumentStatus::Failed),
            DocumentEvent::Deleted => Some(DocumentStatus::Deleted),
            DocumentEvent::Archived => Some(DocumentStatus::Archived),
            DocumentEvent::DownloadLinkGenerated => replayed_status(events.drop_last()),
        }
    }
}

pub open spec fn has_event(events: Seq<DocumentEvent>, e: DocumentEvent) -> bool {
    exists|i: int| 0 <= i < events.len() && #[trigger] events[i] == e
}

pub struct Document {
    pub id: DocumentId,
    pub filename: String,
    pub content_type: String,
    pub path_in_storage: String,
    pub reference_id: ReferenceId,
    pub status: DocumentStatus,
    pub events: Vec<DocumentEvent>,
}

fn scan_uploaded(events: &Vec<DocumentEvent>) -> (b: bool)
    ensures
        b == has_event(events@, DocumentEvent::FileUploaded),
{
    let mut i: usize = 0;
    while i < events.len()
        invariant
            i <= events.len(),
            forall|j: int| 0 <= j < i ==> #[trigger] events@[j] != DocumentEvent::FileUploaded,
        decreases events.len() - i,
    {
        if let DocumentEvent::FileUploaded = &events[i] {
            return true;
        }
        i += 1;
    }
    false
}

fn scan_deleted(events: &Vec<DocumentEvent>) -> (b: bool)
    ensures
        b == has_event(events@, DocumentEvent::Deleted),
{
    let mut i: usize = 0;
    while i < events.len()
        invariant
            i <= events.len(),
            forall|j: int| 0 <= j < i ==> #[trigger] events@[j] != DocumentEvent::Deleted,
        decreases events.len() - i,
    {
        if let DocumentEvent::Deleted = &events[i] {
            return true;
        }
        i += 1;
    }
    false
}

fn scan_archived(events: &Vec<DocumentEvent>) -> (b: bool)
    ensures
        b == has_event(events@, DocumentEvent::Archived),
{
    let mut i: usize = 0;
    while i < events.len()
        invariant
            i <= events.len(),
            forall|j: int| 0 <= j < i ==> #[trigger] events@[j] != DocumentEvent::Archived,
        decreases events.len() - i,
    {
        if let DocumentEvent::Archived = &events[i] {
            return true;
        }
        i += 1;
    }
    false
}

proof fn lemma_push_keeps_initialized(events: Seq<DocumentEvent>, e: DocumentEvent)
    requires
        !(e is Initialized),
    ensures
        last_initialized(events.push(e)) == last_initialized(events),
        e is Deleted ==> replayed_status(events.push(e)) == Some(DocumentStatus::Deleted),
        e is Archived ==> replayed_status(events.push(e)) == Some(DocumentStatus::Archived),
        e is DownloadLinkGenerated ==> replayed_status(events.push(e)) == replayed_status(events),
{
    assert(events.push(e).drop_last() =~= events);
}

impl Document {
    /// Name, content type, storage path and reference come from the newest
    /// `Initialized` event; the status is the replayed one.
    pub open spec fn is_replay_of(&self, events: Seq<DocumentEvent>) -> bool {
        &&& match last_initialized(events) {
            Some(
                DocumentEvent::Initialized {
                    id,
                    sanitized_filename,
                    content_type,
                    path_in_storage,
                    reference_id,
                    ..
                },
            ) => {
                &&& self.id == id
                &&& self.filename@ == sanitized_filename@
                &&& self.content_type@ == content_type@
                &&& self.path_in_storage@ == path_in_storage@
                &&& self.reference_id == reference_id
            },
            _ => false,
        }
        &&& replayed_status(events) == Some(self.status)
    }

    pub open spec fn is_consistent(&self) -> bool {
        self.is_replay_of(self.events@)
    }

    /// Rebuilds a document from its events. Fails when no event initialised
    /// it.
    pub fn try_from_events(events: Vec<DocumentEvent>) -> (r: Result<Document, EntityError>)
        ensures
            r is Ok <==> last_initialized(events@) is Some,
            r matches Ok(d) ==> d.is_replay_of(events@) && d.events@ == events@,
    {
        let mut init: Option<(DocumentId, String, String, String, ReferenceId)> = None;
        let mut status: Option<DocumentStatus> = None;
        let n = events.len();
        let mut i: usize = 0;
        while i < n
            invariant
                n == events.len(),
                i <= n,
                init is Some <==> last_initialized(events@.take(i as int)) is Some,
                init matches Some(t) ==> (match last_initialized(events@.take(i as int)) {
                    Some(
                        DocumentEvent::Initialized {
                            id,
                            sanitized_filename,
                            content_type,
                            path_in_storage,
                            reference_id,
                            ..
                        },
                    ) => t.0 == id && t.1@ == sanitized_filename@ && t.2@ == content_type@ && t.3@
                        == path_in_storage@ && t.4 == reference_id,
                    _ => false,
                }),
                status == replayed_status(events@.take(i as int)),
                init is Some ==> status is Some,
            decreases n - i,
        {
            assert(events@.take(i + 1).drop_last() =~= events@.take(i as int));
            assert(events@.take(i + 1).last() == events@[i as int]);
            match &events[i] {
                DocumentEvent::Initialized {
                    id,
                    sanitized_filename,
                    content_type,
                    path_in_storage,
                    reference_id,
                    ..
                } => {
                    init = Some(
                        (
                            *id,
                            sanitized_filename.clone(),
                            content_type.clone(),
                            path_in_storage.clone(),
                            *reference_id,
                        ),
                    );
                    status = Some(DocumentStatus::New);
                },
                DocumentEvent::FileUploaded => {
                    status = Some(DocumentStatus::Active);
                },
                DocumentEvent::UploadFailed { .. } => {
                    status = Some(DocumentStatus::Failed);
                },
                DocumentEvent::DownloadLinkGenerated => {},
                DocumentEvent::Deleted => {
                    status = Some(DocumentStatus::Deleted);
                },
                DocumentEvent::Archived => {
                    status = Some(DocumentStatus::Archived);
                },
            }
            i += 1;
        }
        assert(events@.take(n as int) =~= events@);
        match init {
            Some(t) => {
                let (id, filename, content_type, path_in_storage, reference_id) = t;
                Ok(
                    Document {
                        id,
                        filename,
                        content_type,
                        path_in_storage,
                        reference_id,
                        status: status.unwrap(),
                        events,
                    },
                )
            },
            None => Err(EntityError::UninitializedField),
        }
    }

    /// Records the upload, unless an upload was ever recorded. The status
    /// field is left as it is (replaying the events makes it `Active`).
    pub fn upload_file(&mut self) -> (r: Idempotent<()>)
        ensures
            r is Ignored <==> has_event(old(self).events@, DocumentEvent::FileUploaded),
            r is Ignored ==> *final(self) == *old(self),
            r is Executed ==> final(self).events@ == old(self).events@.push(
                DocumentEvent::FileUploaded,
            ),
            final(self).status == old(self).status,
            final(self).path_in_storage == old(self).path_in_storage,
    {
        if scan_uploaded(&self.events) {
            return Idempotent::Ignored;
        }
        self.events.push(DocumentEvent::FileUploaded);
        Idempotent::Executed(())
    }

    /// Records a failed upload. The status field is left as it is
    /// (replaying the events makes it `Failed`).
    pub fn upload_failed(&mut self, error: String)
        ensures
            final(self).events@ == old(self).events@.push(DocumentEvent::UploadFailed { error }),
            final(self).status == old(self).status,
            final(self).path_in_storage == old(self).path_in_storage,
    {
        self.events.push(DocumentEvent::UploadFailed { error });
    }

    /// `"Document: "` followed by the document's id.
    pub fn to_string(&self) -> (s: String)
        ensures
            s@ == "Document: "@ + uuid_text(self.id.bits),
    {
        let s = tagged_id("Document: ", self.id, "");
        proof {
            reveal_strlit("");
        }
        assert("Document: "@ + uuid_text(self.id.bits) + ""@ =~= "Document: "@ + uuid_text(
            self.id.bits,
        ));
        s
    }

    pub fn storage_path(&self) -> (p: &str)
        ensures
            p@ == self.path_in_storage@,
    {
        self.path_in_storage.as_str()
    }

    /// Records that a download link was generated and returns the storage
    /// path to link to.
    pub fn download_link_generated(&mut self) -> (p: &str)
        ensures
            final(self).events@ == old(self).events@.push(DocumentEvent::DownloadLinkGenerated),
            p@ == old(self).path_in_storage@,
            final(self).path_in_storage == old(self).path_in_storage,
            final(self).status == old(self).status,
            old(self).is_consistent() ==> final(self).is_consistent(),
    {
        proof {
            lemma_push_keeps_initialized(self.events@, DocumentEvent::DownloadLinkGenerated);
        }
        self.events.push(DocumentEvent::DownloadLinkGenerated);
        self.path_in_storage.as_str()
    }

    pub fn path_for_removal(&self) -> (p: &str)
        ensures
            p@ == self.path_in_storage@,
    {
        self.path_in_storage.as_str()
    }

    /// Deletes the document, unless a deletion was ever recorded.
    pub fn delete(&mut self) -> (r: Idempotent<()>)
        ensures
            r is Ignored <==> has_event(old(self).events@, DocumentEvent::Deleted),
            r is Ignored ==> *final(self) == *old(self),
            r is Executed ==> final(self).events@ == old(self).events@.push(DocumentEvent::Deleted)
                && final(self).status == DocumentStatus::Deleted,
            final(self).path_in_storage == old(self).path_in_storage,
            old(self).is_consistent() ==> final(self).is_consistent(),
    {
        if scan_deleted(&self.events) {
            return Idempotent::Ignored;
        }
        proof {
            lemma_push_keeps_initialized(self.events@, DocumentEvent::Deleted);
        }
        self.events.push(DocumentEvent::Deleted);
        self.status = DocumentStatus::Deleted;
        Idempotent::Executed(())
    }

    /// Archives the document, unless archiving was ever recorded.
    pub fn archive(&mut self) -> (r: Idempotent<()>)
        ensures
            r is Ignored <==> has_event(old(self).events@, DocumentEvent::Archived),
            r is Ignored ==> *final(self) == *old(self),
            r is Executed ==> final(self).events@ == old(self).events@.push(
                DocumentEvent::Archived,
            ) && final(self).status == DocumentStatus::Archived,
            final(self).path_in_storage == old(self).path_in_storage,
            old(self).is_consistent() ==> final(self).is_consistent(),
    {
        if scan_archived(&self.events) {
            return Idempotent::Ignored;
        }
        proof {
            lemma_push_keeps_initialized(self.events@, DocumentEvent::Archived);
        }
        self.events.push(DocumentEvent::Archived);
        self.status = DocumentStatus::Archived;
        Idempotent::Executed(())
    }
}

/// Upload, deletion and archiving are each recorded at most once: once
/// recorded, a repeat is ignored.
pub proof fn document_commands_are_idempotent(events: Seq<DocumentEvent>)
    ensures
        has_event(events.push(DocumentEvent::FileUploaded), DocumentEvent::FileUploaded),
        has_event(events.push(DocumentEvent::Deleted), DocumentEvent::Deleted),
        has_event(events.push(DocumentEvent::Archived), DocumentEvent::Archived),
{
    let n = events.len() as int;
    assert(events.push(DocumentEvent::FileUploaded)[n] == DocumentEvent::FileUploaded);
    assert(events.push(DocumentEvent::Deleted)[n] == DocumentEvent::Deleted);
    assert(events.push(DocumentEvent::Archived)[n] == DocumentEvent::Archived);
}

/// The request that creates a document.
pub struct NewDocument {
    pub id: DocumentId,
    pub document_type: DocumentType,
    pub filename: String,
    pub sanitized_filename: String,
    pub content_type: String,
    pub path_in_storage: String,
    pub storage_identifier: String,
    pub reference_id: ReferenceId,
}

pub type NewDocumentBuilderError = BuilderError;

/// Collects the fields of a `NewDocument`; every field must be set. Setting
/// the file name also sets its sanitised form.
pub struct NewDocumentBuilder {
    pub id: Option<DocumentId>,
    pub document_type: Option<DocumentType>,
    pub filename: Option<String>,
    pub sanitized_filename: Option<String>,
    pub content_type: Option<String>,
    pub path_in_storage: Option<String>,
    pub storage_identifier: Option<String>,
    pub reference_id: Option<ReferenceId>,
}

impl NewDocument {
    pub fn builder() -> (b: NewDocumentBuilder)
        ensures
            b.id is None && b.document_type is None && b.filename is None
                && b.sanitized_filename is None && b.content_type is None
                && b.path_in_storage is None && b.storage_identifier is None
                && b.reference_id is None,
    {
        NewDocumentBuilder {
            id: None,
            document_type: None,
            filename: None,
            sanitized_filename: None,
            content_type: None,
            path_in_storage: None,
            storage_identifier: None,
            reference_id: None,
        }
    }

    /// The single `Initialized` event of a new document.
    pub fn into_events(self) -> (events: Vec<DocumentEvent>)
        ensures
            events@ == seq![
                DocumentEvent::Initialized {
                    id: self.id,
                    document_type: self.document_type,
                    reference_id: self.reference_id,
                    sanitized_filename: self.sanitized_filename,
                    original_filename: self.filename,
                    content_type: self.content_type,
                    path_in_storage: self.path_in_storage,
                    storage_identifier: self.storage_identifier,
                },
            ],
    {
        let mut v = Vec::new();
        v.push(
            DocumentEvent::Initialized {
                id: self.id,
                document_type: self.document_type,
                reference_id: self.reference_id,
                sanitized_filename: self.sanitized_filename,
                original_filename: self.filename,
                content_type: self.content_type,
                path_in_storage: self.path_in_storage,
                storage_identifier: self.storage_identifier,
            },
        );
        v
    }
}

impl NewDocumentBuilder {
    pub fn id(self, id: DocumentId) -> (b: Self)
        ensures
            b == (NewDocumentBuilder { id: Some(id), ..self }),
    {
        NewDocumentBuilder { id: Some(id), ..self }
    }

    pub fn document_type(self, document_type: DocumentType) -> (b: Self)
        ensures
            b == (NewDocumentBuilder { document_type: Some(document_type), ..self }),
    {
        NewDocumentBuilder { document_type: Some(document_type), ..self }
    }

    /// Sets the original file name and its sanitised form.
    pub fn filename(self, filename: String) -> (b: Self)
        ensures
            b.filename == Some(filename),
            b.sanitized_filename matches Some(s) && s@ == sanitized_filename(filename@),
            b.id == self.id && b.document_type == self.document_type && b.content_type
                == self.content_type && b.path_in_storage == self.path_in_storage
                && b.storage_identifier == self.storage_identifier && b.reference_id
                == self.reference_id,
    {
        let sanitized = sanitize_filename(filename.as_str());
        NewDocumentBuilder { filename: Some(filename), sanitized_filename: Some(sanitized), ..self }
    }

    pub fn content_type(self, content_type: String) -> (b: Self)
        ensures
            b == (NewDocumentBuilder { content_type: Some(content_type), ..self }),
    {
        NewDocumentBuilder { content_type: Some(content_type), ..self }
    }

    pub fn path_in_storage(self, path_in_storage: String) -> (b: Self)
        ensures
            b == (NewDocumentBuilder { path_in_storage: Some(path_in_storage), ..self }),
    {
        NewDocumentBuilder { path_in_storage: Some(path_in_storage), ..self }
    }

    pub fn storage_identifier(self, storage_identifier: String) -> (b: Self)
        ensures
            b == (NewDocumentBuilder { storage_identifier: Some(storage_identifier), ..self }),
    {
        NewDocumentBuilder { storage_identifier: Some(storage_identifier), ..self }
    }

    pub fn reference_id(self, reference_id: ReferenceId) -> (b: Self)
        ensures
            b == (NewDocumentBuilder { reference_id: Some(reference_id), ..self }),
    {
        NewDocumentBuilder { reference_id: Some(reference_id), ..self }
    }

    /// Builds the request; fails exactly when a field is unset.
    pub fn build(self) -> (r: Result<NewDocument, NewDocumentBuilderError>)
        ensures
            r is Ok <==> (self.id is Some && self.document_type is Some && self.filename is Some
                && self.sanitized_filename is Some && self.content_type is Some
                && self.path_in_storage is Some && self.storage_identifier is Some
                && self.reference_id is Some),
            r matches Err(e) ==> e is UninitializedField,
            r matches Ok(n) ==> n == (NewDocument {
                id: self.id->0,
                document_type: self.document_type->0,
                filename: self.filename->0,
                sanitized_filename: self.sanitized_filename->0,
                content_type: self.content_type->0,
                path_in_storage: self.path_in_storage->0,
                storage_identifier: self.storage_identifier->0,
                reference_id: self.reference_id->0,
            }),
    {
        match (
            self.id,
            self.document_type,
            self.filename,
            self.sanitized_filename,
            self.content_type,
            self.path_in_storage,
            self.storage_identifier,
            self.reference_id,
        ) {
            (
                Some(id),
                Some(document_type),
                Some(filename),
                Some(sanitized_filename),
                Some(content_type),
                Some(path_in_storage),
                Some(storage_identifier),
                Some(reference_id),
            ) => Ok(
                NewDocument {
                    id,
                    document_type,
                    filename,
                    sanitized_filename,
                    content_type,
                    path_in_storage,
                    storage_identifier,
                    reference_id,
                },
            ),
            _ => Err(BuilderError::UninitializedField("document field")),
        }
    }
}

/// A document rebuilt from the events of a new request (what `into_events`
/// gives) exists, is new, and has the request's id, sanitised file name,
/// content type, storage path and reference.
pub proof fn new_document_round_trip(request: NewDocument, document: Document)
    ensures
        ({
            let events = seq![
                DocumentEvent::Initialized {
                    id: request.id,
                    document_type: request.document_type,
                    reference_id: request.reference_id,
                    sanitized_filename: request.sanitized_filename,
                    original_filename: request.filename,
                    content_type: request.content_type,
                    path_in_storage: request.path_in_storage,
                    storage_identifier: request.storage_identifier,
                },
            ];
            &&& last_initialized(events) is Some
            &&& document.is_replay_of(events) ==> {
                &&& document.id == request.id
                &&& document.filename@ == request.sanitized_filename@
                &&& document.content_type@ == request.content_type@
                &&& document.path_in_storage@ == request.path_in_storage@
                &&& document.reference_id == request.reference_id
                &&& document.status == DocumentStatus::New
            }
        }),
{
}

} // verus!
