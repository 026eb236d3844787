//! The request cores: body and header validation, scheduling of a new
//! upload through admission control, ingestion entry points, resume, and
//! status projection. The transport boundary hands these functions plain
//! values and turns their results into responses.

use vstd::prelude::*;
use vstd::string::StringSliceAdditionalSpecFns;
use vstd::utf8::encode_utf8;
use crate::admission::AdmissionDecision;
use crate::admission::DenialReason;
use crate::errors::err_invalid;
use crate::errors::err_missing;
use crate::errors::err_not_found;
use crate::errors::is_field_mismatch;
use crate::errors::is_invalid_field;
use crate::errors::is_missing_field;
use crate::errors::FragmentError;
use crate::file::fresh_id;
use crate::file::hyphenate_id;
use crate::file::parse_uuid;
use crate::file::uuid_parsed;
use crate::file::uuid_text;
use crate::file::FileObject;
use crate::file::UploadState;
use crate::ingest::lemma_registry_wf_insert;
use crate::ingest::resume_rejection;
use crate::ingest::resume_valid;
use crate::ingest::streamer_post;
use crate::ingest::streamer_writer;
use crate::ingest::validate_header_entries;
use crate::registry::registry_map;
use crate::registry::registry_wf;
use crate::registry::JobRegistry;

verus! {

/// Whether a byte is an ASCII decimal digit.
pub open spec fn is_digit_byte(b: u8) -> bool {
    48 <= b <= 57
}

/// Whether a byte is an ASCII letter or digit.
pub open spec fn is_alnum_byte(b: u8) -> bool {
    (48 <= b <= 57) || (65 <= b <= 90) || (97 <= b <= 122)
}

/// Whether every byte is an ASCII decimal digit.
pub open spec fn all_digits(s: Seq<u8>) -> bool {
    forall|i: int| 0 <= i < s.len() ==> is_digit_byte(#[trigger] s[i])
}

/// Whether every byte is an ASCII letter or digit.
pub open spec fn all_alnum(s: Seq<u8>) -> bool {
    forall|i: int| 0 <= i < s.len() ==> is_alnum_byte(#[trigger] s[i])
}

/// The number the digit bytes spell in base ten.
pub open spec fn digits_value(s: Seq<u8>) -> int
    decreases s.len(),
{
    if s.len() == 0 {
        0
    } else {
        digits_value(s.drop_last()) * 10 + (s.last() - 48)
    }
}

proof fn lemma_digits_nonneg(s: Seq<u8>)
    requires
        all_digits(s),
    ensures
        digits_value(s) >= 0,
    decreases s.len(),
{
    if s.len() > 0 {
        assert(all_digits(s.drop_last()));
        lemma_digits_nonneg(s.drop_last());
    }
}

proof fn lemma_digits_take_le(s: Seq<u8>, j: int)
    requires
        all_digits(s),
        0 <= j <= s.len(),
    ensures
        digits_value(s.take(j)) <= digits_value(s),
    decreases s.len(),
{
    if j == s.len() {
        assert(s.take(j) =~= s);
    } else {
        assert(s.take(j) =~= s.drop_last().take(j));
        assert(all_digits(s.drop_last()));
        lemma_digits_take_le(s.drop_last(), j);
        lemma_digits_nonneg(s.drop_last());
    }
}

/// Checks that the text holds only ASCII letters and digits.
fn check_all_alnum(s: &str) -> (r: bool)
    ensures
        r == all_alnum(encode_utf8(s@)),
{
    let b = s.as_bytes();
    let n = b.len();
    for i in 0..n
        invariant
            n == b@.len(),
            b@ == encode_utf8(s@),
            forall|j: int| 0 <= j < i ==> is_alnum_byte(#[trigger] b@[j]),
    {
        let c = b[i];
        let ok = (48 <= c && c <= 57) || (65 <= c && c <= 90) || (97 <= c && c <= 122);
        if !ok {
            return false;
        }
    }
    true
}

/// Checks that the text holds only ASCII decimal digits.
fn check_all_digits(s: &str) -> (r: bool)
    ensures
        r == all_digits(encode_utf8(s@)),
{
    let b = s.as_bytes();
    let n = b.len();
    for i in 0..n
        invariant
            n == b@.len(),
            b@ == encode_utf8(s@),
            forall|j: int| 0 <= j < i ==> is_digit_byte(#[trigger] b@[j]),
    {
        let c = b[i];
        if c < 48 || c > 57 {
            return false;
        }
    }
    true
}

/// Reads an unsigned decimal number: succeeds exactly on nonempty
/// all-digit text whose value fits, and returns that value.
pub fn parse_u64(s: &str) -> (r: Option<u64>)
    ensures
        r is Some <==> (encode_utf8(s@).len() > 0 && all_digits(encode_utf8(s@)) && digits_value(
            encode_utf8(s@),
        ) <= u64::MAX as int),
        r matches Some(v) ==> v as int == digits_value(encode_utf8(s@)),
{
    let b = s.as_bytes();
    let n = b.len();
    if n == 0 {
        return None;
    }
    let mut acc: u64 = 0;
    proof {
        assert(b@.take(0) =~= Seq::<u8>::empty());
    }
    for i in 0..n
        invariant
            n == b@.len(),
            b@ == encode_utf8(s@),
            all_digits(b@.take(i as int)),
            acc as int == digits_value(b@.take(i as int)),
    {
        let c = b[i];
        if c < 48 || c > 57 {
            assert(!is_digit_byte(b@[i as int]));
            return None;
        }
        let d = (c - 48) as u64;
        let grown = match acc.checked_mul(10) {
            Some(x) => x,
            None => {
                proof {
                    assert(b@.take(i + 1).drop_last() =~= b@.take(i as int));
                    if all_digits(b@) {
                        lemma_digits_take_le(b@, i + 1);
                    }
                }
                return None;
            },
        };
        let total = match grown.checked_add(d) {
            Some(y) => y,
            None => {
                proof {
                    assert(b@.take(i + 1).drop_last() =~= b@.take(i as int));
                    if all_digits(b@) {
                        lemma_digits_take_le(b@, i + 1);
                    }
                }
                return None;
            },
        };
        acc = total;
        proof {
            assert(b@.take(i + 1).drop_last() =~= b@.take(i as int));
            assert(b@.take(i + 1).last() == b@[i as int]);
        }
    }
    proof {
        assert(b@.take(n as int) =~= b@);
    }
    Some(acc)
}

/// Rejects an empty header value; the error always names the conventional
/// `FileName` field, whichever header was empty.
pub fn validate_headers(header: &str) -> (r: Result<(), FragmentError>)
    ensures
        r is Ok <==> header@.len() > 0,
        header@.len() == 0 ==> (r matches Err(e) && is_missing_field(e.error_state, "FileName"@)),
{
    if header.is_empty() {
        return Err(err_missing("FileName"));
    }
    Ok(())
}

/// Extracts the pre-check body: the client-asserted content hash and the
/// declared length. The hash must be alphanumeric and the length a decimal
/// number that fits.
pub fn process_body(file_hash: Option<String>, length: Option<String>) -> (r: Result<
    (String, u64),
    FragmentError,
>)
    ensures
        (file_hash is None || length is None) ==> (r matches Err(e) && is_missing_field(
            e.error_state,
            "FilHash or Length"@,
        )),
        file_hash matches Some(h) && length matches Some(l) && !(all_alnum(encode_utf8(h@))
            && all_digits(encode_utf8(l@))) ==> (r matches Err(e) && is_invalid_field(
            e.error_state,
            "FilHash or Length"@,
        )),
        file_hash matches Some(h) && length matches Some(l) && all_alnum(encode_utf8(h@))
            && all_digits(encode_utf8(l@)) && !(encode_utf8(l@).len() > 0 && digits_value(
            encode_utf8(l@),
        ) <= u64::MAX as int) ==> (r matches Err(e) && is_invalid_field(e.error_state, "Length"@)),
        file_hash is Some && length is Some && all_alnum(encode_utf8(file_hash->0@)) && all_digits(
            encode_utf8(length->0@),
        ) && encode_utf8(length->0@).len() > 0 && digits_value(encode_utf8(length->0@))
            <= u64::MAX as int ==> (r matches Ok(p) && p.0@ == file_hash->0@ && p.1 as int
            == digits_value(encode_utf8(length->0@))),
{
    let (hash_s, len_s) = match (file_hash, length) {
        (Some(h), Some(l)) => (h, l),
        _ => {
            return Err(err_missing("FilHash or Length"));
        },
    };
    let cond1 = !check_all_alnum(hash_s.as_str());
    let cond2 = !check_all_digits(len_s.as_str());
    if cond1 || cond2 {
        return Err(err_invalid("FilHash or Length"));
    }
    let parsed = match parse_u64(len_s.as_str()) {
        Some(v) => v,
        None => {
            return Err(err_invalid("Length"));
        },
    };
    Ok((hash_s, parsed))
}

/// The reply to a scheduling pre-check.
#[derive(Clone, Debug)]
pub enum ScheduleResponse {
    /// The upload was admitted and registered under the given identifier.
    Approved {
        /// The registry key of the fresh record.
        id: u128,
        /// The identifier's text form, handed back to the client.
        uuid: String,
    },
    /// The upload was not admitted; nothing was created.
    Denied {
        /// The structured reason for the caller to relay.
        reason: DenialReason,
    },
}

/// Admits and registers a new upload, or refuses it before anything is
/// created: a denial or a rejected body leaves the registry untouched,
/// and an admitted upload appears as a fresh `UnInit` record under a
/// freshly drawn identifier.
pub fn schedule_upload_process(
    reg: &mut JobRegistry,
    decision: AdmissionDecision,
    file_hash: Option<String>,
    length: Option<String>,
    destination: &str,
) -> (r: Result<ScheduleResponse, FragmentError>)
    ensures
        decision is Denied ==> (r matches Ok(resp) && resp is Denied && resp->Denied_reason
            == decision->Denied_0 && registry_map(*final(reg)) == registry_map(*old(reg))),
        decision is Approved && (file_hash is None || length is None) ==> (r matches Err(e)
            && is_missing_field(e.error_state, "FilHash or Length"@) && registry_map(*final(reg))
            == registry_map(*old(reg))),
        decision is Approved && file_hash is Some && length is Some && !(all_alnum(
            encode_utf8(file_hash->0@),
        ) && all_digits(encode_utf8(length->0@))) ==> (r matches Err(e) && is_invalid_field(
            e.error_state,
            "FilHash or Length"@,
        ) && registry_map(*final(reg)) == registry_map(*old(reg))),
        decision is Approved && file_hash is Some && length is Some && all_alnum(
            encode_utf8(file_hash->0@),
        ) && all_digits(encode_utf8(length->0@)) && !(encode_utf8(length->0@).len() > 0
            && digits_value(encode_utf8(length->0@)) <= usize::MAX as int) ==> (r matches Err(e)
            && is_invalid_field(e.error_state, "Length"@) && registry_map(*final(reg))
            == registry_map(*old(reg))),
        decision is Approved && file_hash is Some && length is Some && all_alnum(
            encode_utf8(file_hash->0@),
        ) && all_digits(encode_utf8(length->0@)) && encode_utf8(length->0@).len() > 0
            && digits_value(encode_utf8(length->0@)) <= usize::MAX as int ==> ((r matches Ok(resp)
            && resp matches ScheduleResponse::Approved { id, uuid } && uuid@ == uuid_text(id)
            && uuid_parsed(uuid@) == Some(id) && !registry_map(*old(reg)).contains_key(id)
            && registry_map(*final(reg)) == registry_map(*old(reg)).insert(
            id,
            registry_map(*final(reg))[id],
        ) && registry_map(*final(reg))[id].state == UploadState::UnInit && registry_map(
            *final(reg),
        )[id].file_size as int == digits_value(encode_utf8(length->0@)) && registry_map(
            *final(reg),
        )[id].path@ == destination@ && registry_map(*final(reg))[id].name@ == file_hash->0@
            && registry_map(*final(reg))[id].hash@ == encode_utf8(file_hash->0@) && registry_map(
            *final(reg),
        )[id].uuid == id) || (r matches Err(e) && is_invalid_field(e.error_state, "uuid"@)
            && registry_map(*final(reg)) == registry_map(*old(reg)))),
        decision is Approved && file_hash is Some && length is Some && all_alnum(
            encode_utf8(file_hash->0@),
        ) && all_digits(encode_utf8(length->0@)) && encode_utf8(length->0@).len() > 0
            && digits_value(encode_utf8(length->0@)) <= usize::MAX as int && registry_map(
            *old(reg),
        ).dom() =~= Set::empty() ==> r is Ok,
        registry_wf(registry_map(*old(reg))) ==> registry_wf(registry_map(*final(reg))),
{
    match decision {
        AdmissionDecision::Denied(reason) => {
            return Ok(ScheduleResponse::Denied { reason });
        },
        AdmissionDecision::Approved => {},
    }
    let (hash_s, len_u64) = match process_body(file_hash, length) {
        Ok(p) => p,
        Err(e) => {
            return Err(e);
        },
    };
    if len_u64 > usize::MAX as u64 {
        return Err(err_invalid("Length"));
    }
    let file_size = len_u64 as usize;
    let id = fresh_id();
    let uuid_str = hyphenate_id(id);
    let rec = FileObject::new(destination, file_size, hash_s.as_str(), Some(hash_s.as_str()), id);
    let ghost m0 = registry_map(*reg);
    let inserted = reg.insert_if_absent(id, rec);
    if !inserted {
        return Err(err_invalid("uuid"));
    }
    proof {
        if registry_wf(m0) {
            lemma_registry_wf_insert(m0, id, rec);
        }
    }
    Ok(ScheduleResponse::Approved { id, uuid: uuid_str })
}

/// A result stripped to success or failure, for relating an entry point's
/// outcome to the ingestion run behind it.
pub open spec fn as_unit_result(r: Result<UploadState, FragmentError>) -> Result<
    (),
    FragmentError,
> {
    match r {
        Ok(_) => Ok(()),
        Err(e) => Err(e),
    }
}

/// Receives the body of a scheduled upload from the very beginning:
/// validates the request headers, finds the record under the carried
/// identifier, and ingests the delivered chunks from offset zero under
/// the exact-match rule. Succeeds exactly when the delivery completes the
/// record.
pub fn init_upload_process(
    reg: &mut JobRegistry,
    file: &mut Vec<u8>,
    chunks: &Vec<Vec<u8>>,
    file_name: Option<String>,
    file_size: Option<String>,
    uuid: Option<String>,
) -> (r: Result<UploadState, FragmentError>)
    ensures
        file_name is None ==> (r matches Err(e) && is_missing_field(e.error_state, "FileName"@)
            && registry_map(*final(reg)) == registry_map(*old(reg)) && final(file)@ == old(file)@),
        file_name is Some && file_size is None ==> (r matches Err(e) && is_missing_field(
            e.error_state,
            "Content-Length"@,
        ) && registry_map(*final(reg)) == registry_map(*old(reg)) && final(file)@ == old(file)@),
        file_name is Some && file_size is Some && uuid is None ==> (r matches Err(e)
            && is_missing_field(e.error_state, "uuid"@) && registry_map(*final(reg))
            == registry_map(*old(reg)) && final(file)@ == old(file)@),
        file_name is Some && file_size is Some && uuid is Some && (file_name->0@.len() == 0
            || file_size->0@.len() == 0 || uuid->0@.len() == 0) ==> (r matches Err(e)
            && is_missing_field(e.error_state, "FileName"@) && registry_map(*final(reg))
            == registry_map(*old(reg)) && final(file)@ == old(file)@),
        file_name is Some && file_size is Some && uuid is Some && file_name->0@.len() > 0
            && file_size->0@.len() > 0 && uuid->0@.len() > 0 && !(encode_utf8(
            file_size->0@,
        ).len() > 0 && all_digits(encode_utf8(file_size->0@)) && digits_value(
            encode_utf8(file_size->0@),
        ) <= u64::MAX as int) ==> (r matches Err(e) && is_invalid_field(
            e.error_state,
            "Content-Length"@,
        ) && registry_map(*final(reg)) == registry_map(*old(reg)) && final(file)@ == old(file)@),
        file_name is Some && file_size is Some && uuid is Some && file_name->0@.len() > 0
            && file_size->0@.len() > 0 && uuid->0@.len() > 0 && encode_utf8(file_size->0@).len()
            > 0 && all_digits(encode_utf8(file_size->0@)) && digits_value(
            encode_utf8(file_size->0@),
        ) <= u64::MAX as int && uuid_parsed(uuid->0@) is None ==> (r matches Err(e)
            && is_invalid_field(e.error_state, "uuid"@) && registry_map(*final(reg))
            == registry_map(*old(reg)) && final(file)@ == old(file)@),
        file_name is Some && file_size is Some && uuid is Some && file_name->0@.len() > 0
            && file_size->0@.len() > 0 && uuid->0@.len() > 0 && encode_utf8(file_size->0@).len()
            > 0 && all_digits(encode_utf8(file_size->0@)) && digits_value(
            encode_utf8(file_size->0@),
        ) <= u64::MAX as int && uuid_parsed(uuid->0@) is Some ==> (streamer_post(
            registry_map(*old(reg)),
            registry_map(*final(reg)),
            uuid_parsed(uuid->0@)->0,
            0,
            old(file)@,
            final(file)@,
            chunks.deep_view(),
            as_unit_result(r),
        ) && (r matches Ok(st) ==> st == UploadState::Complete)),
        registry_wf(registry_map(*old(reg))) ==> registry_wf(registry_map(*final(reg))),
{
    let name_s = match file_name {
        Some(s) => s,
        None => {
            return Err(err_missing("FileName"));
        },
    };
    let size_s = match file_size {
        Some(s) => s,
        None => {
            return Err(err_missing("Content-Length"));
        },
    };
    let uuid_s = match uuid {
        Some(s) => s,
        None => {
            return Err(err_missing("uuid"));
        },
    };
    match validate_headers(name_s.as_str()) {
        Ok(()) => {},
        Err(e) => {
            return Err(e);
        },
    }
    match validate_headers(size_s.as_str()) {
        Ok(()) => {},
        Err(e) => {
            return Err(e);
        },
    }
    match validate_headers(uuid_s.as_str()) {
        Ok(()) => {},
        Err(e) => {
            return Err(e);
        },
    }
    if parse_u64(size_s.as_str()).is_none() {
        return Err(err_invalid("Content-Length"));
    }
    let id = match parse_uuid(uuid_s.as_str()) {
        Some(id) => id,
        None => {
            return Err(err_invalid("uuid"));
        },
    };
    match streamer_writer(reg, id, file, chunks, 0, false) {
        Ok(()) => {
            match reg.get(id) {
                Some(st) => Ok(st),
                None => Err(err_not_found()),
            }
        },
        Err(e) => Err(e),
    }
}

/// Resumes an interrupted upload: validates the request against the
/// recorded declared size and state before any file is touched, then
/// repositions to the carried pointer and ingests the remaining chunks,
/// so the exact-match rule applies to the combined total.
pub fn resume_upload(
    reg: &mut JobRegistry,
    file: &mut Vec<u8>,
    chunks: &Vec<Vec<u8>>,
    uuid: Option<String>,
    content_length: Option<String>,
    content_pointer: Option<String>,
) -> (r: Result<UploadState, FragmentError>)
    ensures
        uuid is None ==> (r matches Err(e) && is_missing_field(e.error_state, "uuid"@)
            && registry_map(*final(reg)) == registry_map(*old(reg)) && final(file)@ == old(file)@),
        uuid is Some && content_length is None ==> (r matches Err(e) && is_missing_field(
            e.error_state,
            "Content-Length"@,
        ) && registry_map(*final(reg)) == registry_map(*old(reg)) && final(file)@ == old(file)@),
        uuid is Some && content_length is Some && content_pointer is None ==> (r matches Err(e)
            && is_missing_field(e.error_state, "Content-Pointer"@) && registry_map(*final(reg))
            == registry_map(*old(reg)) && final(file)@ == old(file)@),
        uuid is Some && content_length is Some && content_pointer is Some && (uuid->0@.len() == 0
            || content_length->0@.len() == 0 || content_pointer->0@.len() == 0) ==> (r matches Err(
            e,
        ) && is_missing_field(e.error_state, "FileName"@) && registry_map(*final(reg))
            == registry_map(*old(reg)) && final(file)@ == old(file)@),
        resume_fields_nonempty(uuid, content_length, content_pointer) && !parseable_u64(
            content_pointer->0@,
        ) ==> (r matches Err(e) && is_invalid_field(e.error_state, "FileSize"@) && registry_map(
            *final(reg),
        ) == registry_map(*old(reg)) && final(file)@ == old(file)@),
        resume_fields_nonempty(uuid, content_length, content_pointer) && parseable_u64(
            content_pointer->0@,
        ) && !parseable_u64(content_length->0@) ==> (r matches Err(e) && is_invalid_field(
            e.error_state,
            "FileSize"@,
        ) && registry_map(*final(reg)) == registry_map(*old(reg)) && final(file)@ == old(file)@),
        resume_fields_nonempty(uuid, content_length, content_pointer) && parseable_u64(
            content_pointer->0@,
        ) && parseable_u64(content_length->0@) && uuid_parsed(uuid->0@) is None ==> (
        r matches Err(e) && is_invalid_field(e.error_state, "uuid"@) && registry_map(*final(reg))
            == registry_map(*old(reg)) && final(file)@ == old(file)@),
        resume_parsed(uuid, content_length, content_pointer) && !registry_map(
            *old(reg),
        ).contains_key(uuid_parsed(uuid->0@)->0) ==> (r matches Err(e)
            && e.error_state is JobNotFound && registry_map(*final(reg)) == registry_map(
            *old(reg),
        ) && final(file)@ == old(file)@),
        resume_parsed(uuid, content_length, content_pointer) && registry_map(
            *old(reg),
        ).contains_key(uuid_parsed(uuid->0@)->0) && !resume_valid(
            registry_map(*old(reg))[uuid_parsed(uuid->0@)->0],
            (digits_value(encode_utf8(content_length->0@)) as u64),
            (digits_value(encode_utf8(content_pointer->0@)) as u64),
        ) ==> (r matches Err(e) && resume_rejection(
            registry_map(*old(reg))[uuid_parsed(uuid->0@)->0],
            (digits_value(encode_utf8(content_length->0@)) as u64),
            (digits_value(encode_utf8(content_pointer->0@)) as u64),
            e.error_state,
        ) && registry_map(*final(reg)) == registry_map(*old(reg)) && final(file)@ == old(file)@),
        resume_parsed(uuid, content_length, content_pointer) && registry_map(
            *old(reg),
        ).contains_key(uuid_parsed(uuid->0@)->0) && resume_valid(
            registry_map(*old(reg))[uuid_parsed(uuid->0@)->0],
            (digits_value(encode_utf8(content_length->0@)) as u64),
            (digits_value(encode_utf8(content_pointer->0@)) as u64),
        ) ==> (streamer_post(
            registry_map(*old(reg)),
            registry_map(*final(reg)),
            uuid_parsed(uuid->0@)->0,
            digits_value(encode_utf8(content_pointer->0@)),
            old(file)@,
            final(file)@,
            chunks.deep_view(),
            as_unit_result(r),
        ) && (r matches Ok(st) ==> st == UploadState::Complete)),
        registry_wf(registry_map(*old(reg))) ==> registry_wf(registry_map(*final(reg))),
{
    let uuid_s = match uuid {
        Some(s) => s,
        None => {
            return Err(err_missing("uuid"));
        },
    };
    let len_s = match content_length {
        Some(s) => s,
        None => {
            return Err(err_missing("Content-Length"));
        },
    };
    let ptr_s = match content_pointer {
        Some(s) => s,
        None => {
            return Err(err_missing("Content-Pointer"));
        },
    };
    match validate_headers(uuid_s.as_str()) {
        Ok(()) => {},
        Err(e) => {
            return Err(e);
        },
    }
    match validate_headers(len_s.as_str()) {
        Ok(()) => {},
        Err(e) => {
            return Err(e);
        },
    }
    match validate_headers(ptr_s.as_str()) {
        Ok(()) => {},
        Err(e) => {
            return Err(e);
        },
    }
    let ptr_u64 = match parse_u64(ptr_s.as_str()) {
        Some(v) => v,
        None => {
            return Err(err_invalid("FileSize"));
        },
    };
    let len_u64 = match parse_u64(len_s.as_str()) {
        Some(v) => v,
        None => {
            return Err(err_invalid("FileSize"));
        },
    };
    let id = match parse_uuid(uuid_s.as_str()) {
        Some(id) => id,
        None => {
            return Err(err_invalid("uuid"));
        },
    };
    let rec = match reg.get_record(id) {
        Some(rec) => rec,
        None => {
            return Err(err_not_found());
        },
    };
    match validate_header_entries(&rec, len_u64, ptr_u64) {
        Ok(()) => {},
        Err(e) => {
            return Err(e);
        },
    }
    let ptr = ptr_u64 as usize;
    match streamer_writer(reg, id, file, chunks, ptr, true) {
        Ok(()) => {
            match reg.get(id) {
                Some(st) => Ok(st),
                None => Err(err_not_found()),
            }
        },
        Err(e) => Err(e),
    }
}

/// All three resume request fields are present and non-empty.
pub open spec fn resume_fields_nonempty(
    uuid: Option<String>,
    content_length: Option<String>,
    content_pointer: Option<String>,
) -> bool {
    &&& uuid is Some
    &&& content_length is Some
    &&& content_pointer is Some
    &&& uuid->0@.len() > 0
    &&& content_length->0@.len() > 0
    &&& content_pointer->0@.len() > 0
}

/// All three resume request fields are present, non-empty, numeric where
/// demanded, and the identifier parses.
pub open spec fn resume_parsed(
    uuid: Option<String>,
    content_length: Option<String>,
    content_pointer: Option<String>,
) -> bool {
    &&& resume_fields_nonempty(uuid, content_length, content_pointer)
    &&& parseable_u64(content_pointer->0@)
    &&& parseable_u64(content_length->0@)
    &&& uuid_parsed(uuid->0@) is Some
}

/// Whether text spells an unsigned decimal number that fits.
pub open spec fn parseable_u64(s: Seq<char>) -> bool {
    &&& encode_utf8(s).len() > 0
    &&& all_digits(encode_utf8(s))
    &&& digits_value(encode_utf8(s)) <= u64::MAX as int
}

/// Projects the current state of the upload under the given identifier:
/// an unknown identifier reads as `UnInit`, never as an error, since
/// polling an expired or never-created identifier is an expected pattern.
pub fn task_progress(reg: &JobRegistry, uuid: Option<String>) -> (r: Result<
    UploadState,
    FragmentError,
>)
    ensures
        uuid is None ==> (r matches Err(e) && is_missing_field(e.error_state, "uuid"@)),
        uuid matches Some(u) && uuid_parsed(u@) is None ==> (r matches Err(e) && is_invalid_field(
            e.error_state,
            "uuid"@,
        )),
        uuid is Some && uuid_parsed(uuid->0@) is Some ==> (r matches Ok(st) && st == (
        if registry_map(*reg).contains_key(uuid_parsed(uuid->0@)->0) {
            registry_map(*reg)[uuid_parsed(uuid->0@)->0].state
        } else {
            UploadState::UnInit
        })),
{
    let u = match uuid {
        Some(u) => u,
        None => {
            return Err(err_missing("uuid"));
        },
    };
    let id = match parse_uuid(u.as_str()) {
        Some(id) => id,
        None => {
            return Err(err_invalid("uuid"));
        },
    };
    match reg.get(id) {
        Some(st) => Ok(st),
        None => Ok(UploadState::UnInit),
    }
}

} // verus!
