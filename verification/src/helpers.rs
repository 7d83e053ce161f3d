//! Task identifiers as text.

use vstd::prelude::*;
use crate::outside::{
    base64url_decode,
    base64url_decoding,
    base64url_encode,
    base64url_encoding,
    is_base64url_char,
};
use crate::types::{task_id_decoding, CodecError, TaskId};

verus! {

/// Why a text is not a task identifier.
#[derive(Debug)]
pub enum TaskIdParseError {
    /// The text is not unpadded base64url.
    Base64(base64::DecodeError),
    /// The text stands for bytes that are not a task identifier.
    Codec(CodecError),
}

/// The bytes of the task identifier that a text stands for, if it stands for
/// one: the text is unpadded base64url of exactly 32 bytes.
pub open spec fn task_id_of_text(text: Seq<char>) -> Option<Seq<u8>> {
    match base64url_decoding(text) {
        Some(bytes) => match task_id_decoding(bytes) {
            Ok(id) => Some(id),
            Err(_) => None,
        },
        None => None,
    }
}

/// Writes a task identifier as unpadded base64url: 43 characters of the
/// URL-safe alphabet. Reading the text gives the identifier back.
pub fn task_id_to_string(task_id: TaskId) -> (text: String)
    ensures
        text@ == base64url_encoding(task_id@),
        task_id_of_text(text@) == Some(task_id@),
        text@.len() == 43,
        forall|i: int| 0 <= i < text@.len() ==> is_base64url_char(#[trigger] text@[i]),
{
    let bytes = task_id.get_encoded();
    base64url_encode(bytes.as_slice())
}

/// Reads a task identifier from unpadded base64url.
pub fn task_id_from_string(task_id_base64: String) -> (parsed: Result<TaskId, TaskIdParseError>)
    ensures
        match parsed {
            Ok(id) => task_id_of_text(task_id_base64@) == Some(id@),
            Err(TaskIdParseError::Base64(_)) => base64url_decoding(task_id_base64@) is None,
            Err(TaskIdParseError::Codec(e)) => {
                &&& base64url_decoding(task_id_base64@) matches Some(bytes)
                &&& task_id_decoding(bytes) == Err::<Seq<u8>, CodecError>(e)
            },
        },
{
    match base64url_decode(task_id_base64.as_str()) {
        Err(e) => Err(TaskIdParseError::Base64(e)),
        Ok(bytes) => match TaskId::get_decoded(bytes.as_slice()) {
            Ok(id) => Ok(id),
            Err(e) => Err(TaskIdParseError::Codec(e)),
        },
    }
}

} // verus!
