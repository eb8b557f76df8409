use vstd::prelude::*;
use vstd::string::StringSliceAdditionalSpecFns;

use crate::error::UploadError;
use crate::offset::{decimal_value, is_offset_text, parse_offset};
use crate::protocol::{plan_chunk, ChunkPlan};
use crate::segment::{check_file_name, check_room_name, is_safe_segment, is_valid_file_name};

verus! {

/// A room and a file name that may address an upload target.
pub open spec fn is_valid_key(room: Seq<char>, name: Seq<char>) -> bool {
    is_safe_segment(room) && is_valid_file_name(name)
}

/// Checks the room and file name of a request before they are joined to the
/// storage root.
pub fn check_key(room: &str, name: &str) -> (r: Result<(), UploadError>)
    ensures
        r is Ok <==> is_valid_key(room@, name@),
        r is Err ==> r == Err::<(), UploadError>(UploadError::InvalidInput),
{
    check_room_name(room)?;
    check_file_name(name)
}

/// Decides how to apply a chunk request addressed by room, file name and the
/// offset's text: it is accepted exactly when the names are valid and the
/// offset is well-formed, and the plan then follows from the offset.
pub fn prepare_chunk(room: &str, name: &str, offset: &str) -> (r: Result<ChunkPlan, UploadError>)
    ensures
        match r {
            Ok(p) => {
                &&& is_valid_key(room@, name@)
                &&& is_offset_text(offset.spec_bytes())
                &&& p.seek == decimal_value(offset.spec_bytes())
                &&& p.truncate == (p.seek == 0)
                &&& p.create_marker == (p.seek == 0)
            },
            Err(e) => {
                &&& !(is_valid_key(room@, name@) && is_offset_text(offset.spec_bytes()))
                &&& e == UploadError::InvalidInput
            },
        },
{
    check_key(room, name)?;
    let at = parse_offset(offset)?;
    Ok(plan_chunk(at))
}

} // verus!
