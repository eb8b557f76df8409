use vstd::prelude::*;

use crate::error::UploadError;

verus! {

/// The longest room or file name accepted, in characters.
pub const MAX_SEGMENT_CHARS: usize = 255;

/// Characters that would let a name reach outside its directory, or that no
/// file name may hold.
pub open spec fn is_forbidden_char(c: char) -> bool {
    c == '/' || c == '\\' || c == '\0'
}

/// A name that can be joined to a directory as a single path component:
/// not empty, not overlong, not `.` or `..`, and without separators.
pub open spec fn is_safe_segment(s: Seq<char>) -> bool {
    &&& 0 < s.len() <= MAX_SEGMENT_CHARS
    &&& s != seq!['.']
    &&& s != seq!['.', '.']
    &&& forall|i: int| 0 <= i < s.len() ==> !is_forbidden_char(#[trigger] s[i])
}

/// The suffix that turns a target's name into its session marker's name.
pub open spec fn marker_suffix() -> Seq<char> {
    seq!['.', 'u', 'p', 'l', 'o', 'a', 'd', 'i', 'n', 'g']
}

/// Whether `s` ends with the marker suffix.
pub open spec fn ends_with_marker_suffix(s: Seq<char>) -> bool {
    s.len() >= marker_suffix().len() && s.subrange(
        s.len() - marker_suffix().len(),
        s.len() as int,
    ) == marker_suffix()
}

/// A name an upload target may have: a safe segment that cannot be taken
/// for a session marker.
pub open spec fn is_valid_file_name(s: Seq<char>) -> bool {
    is_safe_segment(s) && !ends_with_marker_suffix(s)
}

/// The name of the session marker of the target named `name`.
pub open spec fn marker_of(name: Seq<char>) -> Seq<char> {
    name + marker_suffix()
}

/// Accepts a room name exactly when it is a safe path segment.
pub fn check_room_name(room: &str) -> (r: Result<(), UploadError>)
    ensures
        r is Ok <==> is_safe_segment(room@),
        r is Err ==> r == Err::<(), UploadError>(UploadError::InvalidInput),
{
    if is_safe(room) {
        Ok(())
    } else {
        Err(UploadError::InvalidInput)
    }
}

/// Accepts a file name exactly when it is a safe path segment that does not
/// end with the marker suffix.
pub fn check_file_name(name: &str) -> (r: Result<(), UploadError>)
    ensures
        r is Ok <==> is_valid_file_name(name@),
        r is Err ==> r == Err::<(), UploadError>(UploadError::InvalidInput),
{
    if is_safe(name) && !has_marker_suffix(name) {
        Ok(())
    } else {
        Err(UploadError::InvalidInput)
    }
}

fn is_safe(s: &str) -> (r: bool)
    ensures
        r == is_safe_segment(s@),
{
    let n = s.unicode_len();
    if n == 0 || n > MAX_SEGMENT_CHARS {
        return false;
    }
    let mut i: usize = 0;
    while i < n
        invariant
            n == s@.len(),
            i <= n,
            forall|k: int| 0 <= k < i ==> !is_forbidden_char(#[trigger] s@[k]),
        decreases n - i,
    {
        let c = s.get_char(i);
        if c == '/' || c == '\\' || c == '\0' {
            return false;
        }
        i = i + 1;
    }
    if n == 1 && s.get_char(0) == '.' {
        assert(s@ =~= seq!['.']);
        return false;
    }
    if n == 2 && s.get_char(0) == '.' && s.get_char(1) == '.' {
        assert(s@ =~= seq!['.', '.']);
        return false;
    }
    assert(s@ != seq!['.']) by {
        if n == 1 {
            assert(s@[0] != seq!['.'][0]);
        }
    }
    assert(s@ != seq!['.', '.']) by {
        if n == 2 {
            assert(s@[0] != '.' || s@[1] != '.');
        }
    }
    true
}

fn has_marker_suffix(s: &str) -> (r: bool)
    ensures
        r == ends_with_marker_suffix(s@),
{
    let suffix = ".uploading";
    proof {
        reveal_strlit(".uploading");
    }
    assert(suffix@ =~= marker_suffix());
    let n = s.unicode_len();
    let m = suffix.unicode_len();
    if n < m {
        return false;
    }
    let start = n - m;
    let mut k: usize = 0;
    while k < m
        invariant
            n == s@.len(),
            m == suffix@.len(),
            suffix@ == marker_suffix(),
            start == n - m,
            k <= m,
            forall|j: int| 0 <= j < k ==> s@[start + j] == #[trigger] suffix@[j],
        decreases m - k,
    {
        if s.get_char(start + k) != suffix.get_char(k) {
            assert(s@.subrange(start as int, n as int)[k as int] != marker_suffix()[k as int]);
            return false;
        }
        k = k + 1;
    }
    assert(s@.subrange(start as int, n as int) =~= marker_suffix());
    true
}

/// The name of the session marker of the target named `name`: the name
/// followed by `.uploading`.
pub fn marker_name(name: &str) -> (r: String)
    ensures
        r@ == marker_of(name@),
{
    let suffix = ".uploading";
    proof {
        reveal_strlit(".uploading");
    }
    assert(suffix@ =~= marker_suffix());
    String::from_str(name).concat(suffix)
}

/// A session marker never has a valid file name, so it can never be taken
/// for, or overwrite, an upload target; and distinct targets have distinct
/// markers.
pub proof fn lemma_markers_apart(a: Seq<char>, b: Seq<char>)
    ensures
        !is_valid_file_name(marker_of(a)),
        marker_of(a) == marker_of(b) ==> a == b,
{
    let ma = marker_of(a);
    assert(ma.subrange(ma.len() - marker_suffix().len(), ma.len() as int) =~= marker_suffix());
    if marker_of(a) == marker_of(b) {
        assert(a =~= marker_of(a).subrange(0, a.len() as int));
        assert(b =~= marker_of(b).subrange(0, b.len() as int));
    }
}

} // verus!
