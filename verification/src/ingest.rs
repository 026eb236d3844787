//! The stream ingester: consumes the chunks of an upload, writes them in
//! receipt order into the backing store, counts bytes, and drives the
//! record's state transitions. Exact equality with the declared size is
//! the only path to `Complete`; the moment the running total exceeds it
//! the record moves to `Broken`, and a short delivery moves it to
//! `Broken` with the true received count.

use vstd::prelude::*;
use crate::errors::err_invalid;
use crate::errors::err_mismatch;
use crate::errors::err_not_found;
use crate::errors::is_field_mismatch;
use crate::errors::is_invalid_field;
use crate::errors::ErrorStates;
use crate::errors::FragmentError;
use crate::file::FileObject;
use crate::file::UploadState;
use crate::registry::registry_map;
use crate::registry::registry_wf;
use crate::registry::JobRegistry;

verus! {

/// The bytes of a chunk sequence, in receipt order.
pub open spec fn chunks_flat(chunks: Seq<Seq<u8>>) -> Seq<u8>
    decreases chunks.len(),
{
    if chunks.len() == 0 {
        Seq::empty()
    } else {
        chunks_flat(chunks.drop_last()) + chunks.last()
    }
}

/// Extending a chunk prefix by one chunk appends exactly that chunk's
/// bytes.
pub proof fn lemma_chunks_flat_take_step(chunks: Seq<Seq<u8>>, i: int)
    requires
        0 <= i < chunks.len(),
    ensures
        chunks_flat(chunks.take(i + 1)) == chunks_flat(chunks.take(i)) + chunks[i],
{
    assert(chunks.take(i + 1).drop_last() =~= chunks.take(i));
    assert(chunks.take(i + 1).last() == chunks[i]);
}

/// The state an ingestion run ends in: exact equality completes, a short
/// total breaks at the received count, an excess breaks at the declared
/// boundary.
pub open spec fn ingest_outcome(declared: int, start: int, total: int) -> UploadState {
    if start + total == declared {
        UploadState::Complete
    } else if start + total < declared {
        UploadState::Broken((start + total) as usize)
    } else {
        UploadState::Broken(declared as usize)
    }
}

/// `Complete` is reached exactly when the combined total equals the
/// declared size: never on a short delivery and never on an excess.
pub proof fn lemma_exact_match_only(declared: int, start: int, total: int)
    ensures
        (ingest_outcome(declared, start, total) is Complete) <==> (start + total == declared),
{
}

/// The running total after offering a chunk of `n` bytes: an accepted
/// chunk advances it, a rejected one leaves it.
pub open spec fn next_written(written: int, declared: int, n: int) -> int {
    if written + n <= declared {
        written + n
    } else {
        written
    }
}

/// The byte offset published while ingesting never decreases, so repeated
/// status reads of one running upload observe monotonically non-decreasing
/// progress.
pub proof fn lemma_progress_monotonic(written: int, declared: int, n: int)
    requires
        0 <= n,
    ensures
        next_written(written, declared, n) >= written,
{
}

/// One upload's ingestion in progress: the declared size and the running
/// byte total (counted from the very beginning of the file, so a resumed
/// run starts at its offset, not at zero).
pub struct IngestSession {
    /// The record's declared total.
    pub declared: usize,
    /// Bytes of the file accounted for so far.
    pub written: usize,
}

impl IngestSession {
    /// The running total never exceeds the declared size.
    pub open spec fn wf(self) -> bool {
        self.written <= self.declared
    }

    /// Opens an ingestion run against the record under `id`, publishing
    /// `Resume(start)` for a resumed run and `Progress(start)` for a fresh
    /// one. Fails without touching anything when the record is unknown,
    /// terminal, or the offset lies beyond the declared size.
    pub fn begin_ingest(reg: &mut JobRegistry, id: u128, start: usize, resuming: bool) -> (r:
        Result<IngestSession, FragmentError>)
        ensures
            !registry_map(*old(reg)).contains_key(id) ==> (r matches Err(e)
                && e.error_state is JobNotFound && registry_map(*final(reg)) == registry_map(
                *old(reg),
            )),
            registry_map(*old(reg)).contains_key(id) && registry_map(
                *old(reg),
            )[id].state.is_terminal() ==> (r matches Err(e) && is_invalid_field(
                e.error_state,
                "uuid"@,
            ) && registry_map(*final(reg)) == registry_map(*old(reg))),
            registry_map(*old(reg)).contains_key(id) && !registry_map(
                *old(reg),
            )[id].state.is_terminal() && start > registry_map(*old(reg))[id].file_size ==> (
            r matches Err(e) && is_invalid_field(e.error_state, "Content-Pointer"@)
                && registry_map(*final(reg)) == registry_map(*old(reg))),
            registry_map(*old(reg)).contains_key(id) && !registry_map(
                *old(reg),
            )[id].state.is_terminal() && start <= registry_map(*old(reg))[id].file_size ==> (
            r matches Ok(s) && s.declared == registry_map(*old(reg))[id].file_size && s.written
                == start && s.wf() && registry_map(*final(reg)) == registry_map(*old(reg)).insert(
                id,
                (FileObject {
                    state: (if resuming {
                        UploadState::Resume(start)
                    } else {
                        UploadState::Progress(start)
                    }),
                    ..registry_map(*old(reg))[id]
                }),
            )),
    {
        let rec = match reg.get_record(id) {
            None => {
                return Err(err_not_found());
            },
            Some(rec) => rec,
        };
        if rec.state.terminal() {
            return Err(err_invalid("uuid"));
        }
        if start > rec.file_size {
            return Err(err_invalid("Content-Pointer"));
        }
        let marker = if resuming {
            UploadState::Resume(start)
        } else {
            UploadState::Progress(start)
        };
        let _ = reg.set_state_of(id, marker);
        Ok(IngestSession { declared: rec.file_size, written: start })
    }

    /// Accounts one received chunk of `n` bytes. While the combined total
    /// stays within the declared size the record shows live progress;
    /// the moment it would exceed it, the record breaks at the declared
    /// boundary and the mismatch is raised. The published offset never
    /// decreases.
    pub fn on_chunk(&mut self, reg: &mut JobRegistry, id: u128, n: usize) -> (r: Result<
        (),
        FragmentError,
    >)
        requires
            old(self).wf(),
            registry_map(*old(reg)).contains_key(id),
            registry_map(*old(reg))[id].file_size == old(self).declared,
        ensures
            final(self).declared == old(self).declared,
            final(self).written == next_written(old(self).written as int, old(self).declared as int, n as int),
            final(self).written >= old(self).written,
            final(self).wf(),
            old(self).written + n <= old(self).declared ==> (r is Ok && final(self).written == old(
                self,
            ).written + n && registry_map(*final(reg)) == registry_map(*old(reg)).insert(
                id,
                (FileObject {
                    state: UploadState::Progress(((old(self).written + n) as usize)),
                    ..registry_map(*old(reg))[id]
                }),
            )),
            old(self).written + n > old(self).declared ==> (r matches Err(e) && is_field_mismatch(
                e.error_state,
                "Content-Length"@,
            ) && final(self).written == old(self).written && registry_map(*final(reg))
                == registry_map(*old(reg)).insert(
                id,
                (FileObject {
                    state: UploadState::Broken(old(self).declared),
                    ..registry_map(*old(reg))[id]
                }),
            )),
    {
        let room = self.declared - self.written;
        if n <= room {
            self.written = self.written + n;
            let _ = reg.set_state_of(id, UploadState::Progress(self.written));
            Ok(())
        } else {
            let _ = reg.set_state_of(id, UploadState::Broken(self.declared));
            Err(err_mismatch("Content-Length"))
        }
    }

    /// Closes the run at the end of the stream: exact equality with the
    /// declared size completes the record; anything short breaks it at the
    /// true received count and raises the mismatch.
    pub fn on_end(self, reg: &mut JobRegistry, id: u128) -> (r: Result<(), FragmentError>)
        requires
            self.wf(),
            registry_map(*old(reg)).contains_key(id),
            registry_map(*old(reg))[id].file_size == self.declared,
        ensures
            self.written == self.declared ==> (r is Ok && registry_map(*final(reg))
                == registry_map(*old(reg)).insert(
                id,
                (FileObject { state: UploadState::Complete, ..registry_map(*old(reg))[id] }),
            )),
            self.written < self.declared ==> (r matches Err(e) && is_field_mismatch(
                e.error_state,
                "Content-Length"@,
            ) && registry_map(*final(reg)) == registry_map(*old(reg)).insert(
                id,
                (FileObject {
                    state: UploadState::Broken(self.written),
                    ..registry_map(*old(reg))[id]
                }),
            )),
    {
        if self.written == self.declared {
            let _ = reg.set_state_of(id, UploadState::Complete);
            Ok(())
        } else {
            let _ = reg.set_state_of(id, UploadState::Broken(self.written));
            Err(err_mismatch("Content-Length"))
        }
    }

    /// Records a transport failure mid-transfer: the record breaks at the
    /// bytes written so far, ready for a later resume; the partial file is
    /// left in place.
    pub fn on_stream_error(self, reg: &mut JobRegistry, id: u128)
        requires
            self.wf(),
            registry_map(*old(reg)).contains_key(id),
            registry_map(*old(reg))[id].file_size == self.declared,
        ensures
            registry_map(*final(reg)) == registry_map(*old(reg)).insert(
                id,
                (FileObject {
                    state: UploadState::Broken(self.written),
                    ..registry_map(*old(reg))[id]
                }),
            ),
    {
        let _ = reg.set_state_of(id, UploadState::Broken(self.written));
    }

    /// Records a storage failure: the record fails terminally and no
    /// resume is permitted from it.
    pub fn on_io_error(self, reg: &mut JobRegistry, id: u128)
        requires
            registry_map(*old(reg)).contains_key(id),
        ensures
            registry_map(*final(reg)) == registry_map(*old(reg)).insert(
                id,
                (FileObject { state: UploadState::Failed, ..registry_map(*old(reg))[id] }),
            ),
    {
        let _ = reg.set_state_of(id, UploadState::Failed);
    }
}

/// The bytes of a chunk prefix never outnumber the bytes of the whole
/// sequence.
pub proof fn lemma_chunks_flat_take_le(chunks: Seq<Seq<u8>>, j: int)
    requires
        0 <= j <= chunks.len(),
    ensures
        chunks_flat(chunks.take(j)).len() <= chunks_flat(chunks).len(),
    decreases chunks.len(),
{
    if j == chunks.len() {
        assert(chunks.take(j) =~= chunks);
    } else {
        assert(chunks.take(j) =~= chunks.drop_last().take(j));
        lemma_chunks_flat_take_le(chunks.drop_last(), j);
    }
}

/// Inserting a well-formed record under its own identifier preserves the
/// registry invariant.
pub proof fn lemma_registry_wf_insert(m: Map<u128, FileObject>, id: u128, rec: FileObject)
    requires
        registry_wf(m),
        rec.wf(),
        rec.uuid == id,
    ensures
        registry_wf(m.insert(id, rec)),
{
}

/// Whether a record, its state offsets, and the keys around it satisfy
/// what ingestion relies on: the record exists, is not terminal, and the
/// offset lies within both the declared size and the bytes already held.
pub open spec fn ingest_ready(m: Map<u128, FileObject>, id: u128, start: int, f0: Seq<u8>) -> bool {
    &&& m.contains_key(id)
    &&& !m[id].state.is_terminal()
    &&& start <= m[id].file_size
    &&& start <= f0.len()
}

/// What one ingestion run leaves behind, for every input: `m`/`m2` are the
/// registry contents before and after, `f0`/`f2` the backing bytes before
/// and after, `chunks` what the stream delivered, and `r` the outcome.
pub open spec fn streamer_post(
    m: Map<u128, FileObject>,
    m2: Map<u128, FileObject>,
    id: u128,
    start: int,
    f0: Seq<u8>,
    f2: Seq<u8>,
    chunks: Seq<Seq<u8>>,
    r: Result<(), FragmentError>,
) -> bool {
    let total = chunks_flat(chunks).len() as int;
    &&& (!m.contains_key(id) ==> (r matches Err(e) && e.error_state is JobNotFound && m2 == m && f2
        == f0))
    &&& (m.contains_key(id) && m[id].state.is_terminal() ==> (r matches Err(e) && is_invalid_field(
        e.error_state,
        "uuid"@,
    ) && m2 == m && f2 == f0))
    &&& (m.contains_key(id) && !m[id].state.is_terminal() && (start > m[id].file_size || start
        > f0.len()) ==> (r matches Err(e) && is_invalid_field(e.error_state, "Content-Pointer"@)
        && m2 == m && f2 == f0))
    &&& (ingest_ready(m, id, start, f0) ==> {
        let d = m[id].file_size as int;
        &&& m2 == m.insert(id, (FileObject { state: ingest_outcome(d, start, total), ..m[id] }))
        &&& (start + total == d ==> r is Ok && f2 == f0.take(start) + chunks_flat(chunks))
        &&& (start + total < d ==> (r matches Err(e) && is_field_mismatch(
            e.error_state,
            "Content-Length"@,
        )) && f2 == f0.take(start) + chunks_flat(chunks))
        &&& (start + total > d ==> (r matches Err(e) && is_field_mismatch(
            e.error_state,
            "Content-Length"@,
        )) && f0.take(start).is_prefix_of(f2) && f2.len() <= d && (exists|j: int|
            0 <= j <= chunks.len() && f2 == f0.take(start) + chunks_flat(
                #[trigger] chunks.take(j),
            )))
    })
}

/// Consumes the delivered chunks of one upload: seeks the backing store to
/// `start`, appends every chunk in receipt order, publishes live progress
/// into the registry, and closes the record by the exact-match rule. The
/// record moves to `Complete` exactly when `start` plus the delivered
/// bytes equals its declared size; a short delivery leaves
/// `Broken(received)` and an excess leaves `Broken(declared)`, both with a
/// length mismatch raised. On a rejected request nothing is touched.
#[verifier::loop_isolation(false)]
pub fn streamer_writer(
    reg: &mut JobRegistry,
    id: u128,
    file: &mut Vec<u8>,
    chunks: &Vec<Vec<u8>>,
    start: usize,
    resuming: bool,
) -> (r: Result<(), FragmentError>)
    ensures
        streamer_post(
            registry_map(*old(reg)),
            registry_map(*final(reg)),
            id,
            start as int,
            old(file)@,
            final(file)@,
            chunks.deep_view(),
            r,
        ),
        registry_wf(registry_map(*old(reg))) ==> registry_wf(registry_map(*final(reg))),
    {
    let ghost m0 = registry_map(*reg);
    let ghost f0 = file@;
    let ghost cv = chunks.deep_view();
    let rec = match reg.get_record(id) {
        None => {
            return Err(err_not_found());
        },
        Some(rec) => rec,
    };
    if rec.state.terminal() {
        return Err(err_invalid("uuid"));
    }
    if start > rec.file_size || start > file.len() {
        return Err(err_invalid("Content-Pointer"));
    }
    let ghost d = m0[id].file_size as int;
    let mut session = match IngestSession::begin_ingest(reg, id, start, resuming) {
        Ok(s) => s,
        Err(e) => {
            return Err(e);
        },
    };
    file.truncate(start);
    proof {
        assert(cv.take(0) =~= Seq::<Seq<u8>>::empty());
        assert(f0.take(start as int) + chunks_flat(cv.take(0)) =~= f0.take(start as int));
    }
    let n = chunks.len();
    for i in 0..n
        invariant
            n == chunks@.len(),
            n == cv.len(),
            cv == chunks.deep_view(),
            m0.contains_key(id),
            ingest_ready(m0, id, start as int, f0),
            d == m0[id].file_size as int,
            session.declared == m0[id].file_size,
            session.wf(),
            start <= session.written,
            session.written == start + chunks_flat(cv.take(i as int)).len(),
            file@ == f0.take(start as int) + chunks_flat(cv.take(i as int)),
            registry_map(*reg).contains_key(id),
            registry_map(*reg)[id] == (FileObject {
                state: registry_map(*reg)[id].state,
                ..m0[id]
            }),
            registry_map(*reg) == m0.insert(id, registry_map(*reg)[id]),
    {
        let chunk_len = chunks[i].len();
        proof {
            assert(cv[i as int] =~= chunks@[i as int]@);
        }
        match session.on_chunk(reg, id, chunk_len) {
            Ok(()) => {
                append_bytes(file, &chunks[i]);
                proof {
                    lemma_chunks_flat_take_step(cv, i as int);
                    assert(registry_map(*reg) =~= m0.insert(id, registry_map(*reg)[id]));
                }
            },
            Err(e) => {
                proof {
                    lemma_chunks_flat_take_step(cv, i as int);
                    lemma_chunks_flat_take_le(cv, i + 1);
                    assert(start + chunks_flat(cv).len() > d);
                    assert(registry_map(*reg) =~= m0.insert(
                        id,
                        (FileObject { state: ingest_outcome(d, start as int, chunks_flat(cv).len() as int), ..m0[id] }),
                    ));
                    assert(f0.take(start as int).is_prefix_of(file@));
                    assert(0 <= i as int <= cv.len() && file@ == f0.take(start as int)
                        + chunks_flat(cv.take(i as int)));
                    if registry_wf(m0) {
                        lemma_registry_wf_insert(
                            m0,
                            id,
                            (FileObject { state: ingest_outcome(d, start as int, chunks_flat(cv).len() as int), ..m0[id] }),
                        );
                    }
                }
                return Err(e);
            },
        }
    }
    proof {
        assert(cv.take(n as int) =~= cv);
    }
    let result = session.on_end(reg, id);
    proof {
        assert(registry_map(*reg) =~= m0.insert(
            id,
            (FileObject { state: ingest_outcome(d, start as int, chunks_flat(cv).len() as int), ..m0[id] }),
        ));
        if registry_wf(m0) {
            lemma_registry_wf_insert(
                m0,
                id,
                (FileObject { state: ingest_outcome(d, start as int, chunks_flat(cv).len() as int), ..m0[id] }),
            );
        }
    }
    result
}

/// Whether a resume request fits the recorded upload: the record is not
/// terminal, the pointer lies strictly inside the declared size, the
/// remaining length is positive, and pointer plus remaining length equals
/// the declared size.
pub open spec fn resume_valid(rec: FileObject, content_length: u64, content_pointer: u64) -> bool {
    &&& !rec.state.is_terminal()
    &&& (content_pointer as int) < (rec.file_size as int)
    &&& content_length > 0
    &&& content_pointer > 0
    &&& (content_pointer as int) + (content_length as int) == (rec.file_size as int)
}

/// Which error a rejected resume request carries: the first offending
/// aspect, in the order the checks run, names the field.
pub open spec fn resume_rejection(
    rec: FileObject,
    content_length: u64,
    content_pointer: u64,
    e: ErrorStates,
) -> bool {
    &&& (rec.state.is_terminal() ==> is_invalid_field(e, "uuid"@))
    &&& (!rec.state.is_terminal() && (content_pointer as int) >= (rec.file_size as int)
        ==> is_invalid_field(e, "content_pointer"@))
    &&& (!rec.state.is_terminal() && (content_pointer as int) < (rec.file_size as int)
        && content_length == 0 ==> is_invalid_field(e, "Content-Length"@))
    &&& (!rec.state.is_terminal() && (content_pointer as int) < (rec.file_size as int)
        && content_length > 0 && content_pointer == 0 ==> is_invalid_field(e, "Content-Pointer"@))
    &&& (!rec.state.is_terminal() && (content_pointer as int) < (rec.file_size as int)
        && content_length > 0 && content_pointer > 0 && (content_pointer as int) + (
    content_length as int) != (rec.file_size as int) ==> is_field_mismatch(e, "Content-Length"@))
}

/// Validates a resume request against the recorded state, before any file
/// is touched: succeeds exactly on a fitting request, and names the first
/// offending field otherwise.
pub fn validate_header_entries(rec: &FileObject, content_length: u64, content_pointer: u64) -> (r:
    Result<(), FragmentError>)
    ensures
        r is Ok <==> resume_valid(*rec, content_length, content_pointer),
        r matches Err(e) ==> resume_rejection(*rec, content_length, content_pointer, e.error_state),
{
    if rec.state.terminal() {
        return Err(err_invalid("uuid"));
    }
    if content_pointer >= rec.file_size as u64 {
        return Err(err_invalid("content_pointer"));
    }
    if content_length == 0 {
        return Err(err_invalid("Content-Length"));
    }
    if content_pointer == 0 {
        return Err(err_invalid("Content-Pointer"));
    }
    if content_length != rec.file_size as u64 - content_pointer {
        return Err(err_mismatch("Content-Length"));
    }
    Ok(())
}

/// A valid resume that then delivers exactly the declared remaining bytes
/// always ends in `Complete`: the combined total equals the declared size.
pub proof fn lemma_resume_completes(
    rec: FileObject,
    content_length: u64,
    content_pointer: u64,
    total: int,
)
    requires
        resume_valid(rec, content_length, content_pointer),
        total == content_length as int,
    ensures
        ingest_outcome(rec.file_size as int, content_pointer as int, total) is Complete,
{
}

/// Whether the failure branch leaves an artifact the caller owns deleting:
/// only a terminally failed record's partial file is worthless, while a
/// broken record's partial file is kept for a resume.
pub fn discard_partial(state: &UploadState) -> (r: bool)
    ensures
        r == (state is Failed),
{
    match state {
        UploadState::Failed => true,
        _ => false,
    }
}

/// Appends the bytes of `src` to `dst` in order.
fn append_bytes(dst: &mut Vec<u8>, src: &Vec<u8>)
    ensures
        final(dst)@ == old(dst)@ + src@,
{
    let n = src.len();
    proof {
        assert(old(dst)@ + src@.take(0) =~= old(dst)@);
    }
    for i in 0..n
        invariant
            n == src@.len(),
            dst@ == old(dst)@ + src@.take(i as int),
    {
        dst.push(src[i]);
        proof {
            assert(old(dst)@ + src@.take(i + 1) =~= (old(dst)@ + src@.take(i as int)).push(
                src@[i as int],
            ));
        }
    }
    proof {
        assert(src@.take(n as int) =~= src@);
    }
}

} // verus!
