//! The upload record: identity, declared size, and the state machine carried
//! by every upload attempt.

use vstd::prelude::*;
use vstd::string::StringExecFns;
use vstd::string::StringSliceAdditionalSpecFns;

verus! {

/// Position of one upload in its lifecycle.
///
/// `Complete` and `Failed` are terminal: no ingestion may mutate a record
/// that carries them. `Broken` is terminal for the attempt but recoverable
/// through a resume. The offset carried by `Broken`, `Progress` and `Resume`
/// never exceeds the record's declared size.
#[derive(Copy, Clone, Debug, PartialEq, Eq, Structural)]
pub enum UploadState {
    UnInit,
    Init,
    Broken(usize),
    Progress(usize),
    Resume(usize),
    Complete,
    Failed,
}

impl UploadState {
    /// A terminal state admits no further ingestion.
    pub open spec fn is_terminal(self) -> bool {
        self is Complete || self is Failed
    }

    /// Whether this state admits no further ingestion.
    pub fn terminal(&self) -> (r: bool)
        ensures
            r == self.is_terminal(),
    {
        match self {
            UploadState::Complete => true,
            UploadState::Failed => true,
            _ => false,
        }
    }

    /// The byte offset a state carries, if any.
    pub open spec fn spec_offset(self) -> Option<usize> {
        match self {
            UploadState::Broken(n) => Some(n),
            UploadState::Progress(n) => Some(n),
            UploadState::Resume(n) => Some(n),
            _ => None,
        }
    }

    /// Every offset carried by the state stays within the declared size.
    pub open spec fn fits(self, declared: usize) -> bool {
        match self.spec_offset() {
            Some(n) => n <= declared,
            None => true,
        }
    }
}

/// The name that stands for the hyphenated text of a 128-bit identifier.
pub uninterp spec fn uuid_text(id: u128) -> Seq<char>;

/// The name that stands for what identifier text parses to, if any.
pub uninterp spec fn uuid_parsed(s: Seq<char>) -> Option<u128>;

/// Relies on `uuid::Uuid::as_hyphenated`: the hyphenated form is a function
/// of the 128-bit value alone and is always 36 characters long, and
/// `uuid::Uuid::parse_str` accepts it back as the same value.
#[verifier::external_body]
pub(crate) fn hyphenate_id(id: u128) -> (r: String)
    ensures
        r@ == uuid_text(id),
        r@.len() == 36,
        uuid_parsed(r@) == Some(id),
{
    uuid::Uuid::from_u128(id).as_hyphenated().to_string()
}

/// Relies on `uuid::Uuid::parse_str`: acceptance and the parsed value
/// depend on the characters alone.
#[verifier::external_body]
pub(crate) fn parse_uuid(s: &str) -> (r: Option<u128>)
    ensures
        r == uuid_parsed(s@),
{
    match uuid::Uuid::parse_str(s) {
        Ok(u) => Some(u.as_u128()),
        Err(_) => None,
    }
}

/// Relies on `uuid::Uuid::new_v4` for a freshly drawn random identifier;
/// nothing is promised of the value.
#[verifier::external_body]
pub(crate) fn fresh_id() -> u128 {
    uuid::Uuid::new_v4().as_u128()
}

/// One upload attempt: immutable identity plus the mutable state.
#[derive(Clone, Debug)]
pub struct FileObject {
    /// Base directory under which the backing file is written.
    pub path: String,
    /// Current position in the state machine.
    pub state: UploadState,
    /// Total byte count the client declared for this upload.
    pub file_size: usize,
    /// Client-supplied file name; the on-disk name is derived from `uuid`.
    pub name: String,
    /// Registry key and external handle, fixed at creation.
    pub uuid: u128,
    /// Optional client-asserted integrity token, stored unverified.
    pub hash: Vec<u8>,
}

impl FileObject {
    /// The record's internal invariant: its state offsets stay within the
    /// declared size.
    pub open spec fn wf(self) -> bool {
        self.state.fits(self.file_size)
    }

    /// Creates a record in `UnInit` for the given identity.
    pub fn new(path: &str, size: usize, name: &str, hash: Option<&str>, uuid: u128) -> (r: Self)
        ensures
            r.path@ == path@,
            r.state == UploadState::UnInit,
            r.file_size == size,
            r.name@ == name@,
            r.uuid == uuid,
            r.hash@ == (match hash {
                Some(h) => h.spec_bytes(),
                None => Seq::<u8>::empty(),
            }),
            r.wf(),
    {
        let vec_hash = match hash {
            Some(h) => h.as_bytes_vec(),
            None => Vec::new(),
        };
        FileObject {
            path: path.to_owned(),
            state: UploadState::UnInit,
            file_size: size,
            name: name.to_owned(),
            uuid,
            hash: vec_hash,
        }
    }

    /// Replaces the state; the caller keeps the offset invariant.
    pub fn set_state(&mut self, state: UploadState)
        requires
            state.fits(old(self).file_size),
        ensures
            *final(self) == (FileObject { state, ..*old(self) }),
            final(self).wf(),
    {
        self.state = state;
    }

    /// Reads the current state.
    pub fn get_state(&self) -> (r: UploadState)
        ensures
            r == self.state,
    {
        self.state
    }

    /// The registry key of this record.
    pub fn get_uuid(&self) -> (r: u128)
        ensures
            r == self.uuid,
    {
        self.uuid
    }

    /// The path of the backing file: the destination directory joined with
    /// the hyphenated identifier, never with the client-supplied name.
    pub fn output_file_path(&self) -> (r: String)
        ensures
            r@ == self.path@ + "/"@ + uuid_text(self.uuid),
    {
        let mut p = self.path.clone();
        p.append("/");
        let id_text = hyphenate_id(self.uuid);
        p.append(id_text.as_str());
        p
    }
}

} // verus!
