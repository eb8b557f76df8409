use vstd::prelude::*;
use vstd::string::StringSliceAdditionalSpecFns;

use crate::error::UploadError;

verus! {

/// An ASCII decimal digit.
pub open spec fn is_digit_byte(b: u8) -> bool {
    48 <= b <= 57
}

/// The number that a string of decimal digits denotes.
pub open spec fn decimal_value(s: Seq<u8>) -> nat
    decreases s.len(),
{
    if s.len() == 0 {
        0
    } else {
        decimal_value(s.drop_last()) * 10 + (s.last() - 48) as nat
    }
}

/// Text that is a well-formed offset: one or more decimal digits, denoting
/// a number that fits in 64 bits.
pub open spec fn is_offset_text(s: Seq<u8>) -> bool {
    &&& s.len() > 0
    &&& forall|i: int| 0 <= i < s.len() ==> is_digit_byte(#[trigger] s[i])
    &&& decimal_value(s) <= u64::MAX
}

proof fn lemma_value_grows(s: Seq<u8>, i: int)
    requires
        0 <= i <= s.len(),
        forall|k: int| 0 <= k < s.len() ==> is_digit_byte(#[trigger] s[k]),
    ensures
        decimal_value(s.take(i)) <= decimal_value(s),
    decreases s.len() - i,
{
    if i < s.len() {
        lemma_value_grows(s, i + 1);
        assert(s.take(i + 1).drop_last() =~= s.take(i));
    } else {
        assert(s.take(i) =~= s);
    }
}

/// Reads the offset of a chunk from its decimal text. Anything but one or
/// more ASCII digits denoting a 64-bit number is rejected as `InvalidInput`.
pub fn parse_offset(text: &str) -> (r: Result<u64, UploadError>)
    ensures
        match r {
            Ok(v) => is_offset_text(text.spec_bytes()) && v == decimal_value(text.spec_bytes()),
            Err(e) => !is_offset_text(text.spec_bytes()) && e == UploadError::InvalidInput,
        },
{
    let b = text.as_bytes();
    let ghost s = text.spec_bytes();
    let n = b.len();
    if n == 0 {
        return Err(UploadError::InvalidInput);
    }
    let mut acc: u64 = 0;
    let mut i: usize = 0;
    while i < n
        invariant
            b@ == s,
            s == text.spec_bytes(),
            n == s.len(),
            i <= n,
            acc == decimal_value(s.take(i as int)),
            forall|k: int| 0 <= k < i ==> is_digit_byte(#[trigger] s[k]),
        decreases n - i,
    {
        let c = b[i];
        if c < 48 || c > 57 {
            assert(!is_digit_byte(s[i as int]));
            return Err(UploadError::InvalidInput);
        }
        let d = (c - 48) as u64;
        assert(s.take(i + 1).drop_last() =~= s.take(i as int));
        if acc > (u64::MAX - d) / 10 {
            proof {
                assert(acc * 10 + d > u64::MAX) by (nonlinear_arith)
                    requires
                        acc > (u64::MAX - d) / 10,
                        d <= 9,
                ;
                if forall|k: int| 0 <= k < s.len() ==> is_digit_byte(#[trigger] s[k]) {
                    lemma_value_grows(s, i + 1);
                    assert(decimal_value(s.take(i + 1)) == acc * 10 + d);
                }
            }
            return Err(UploadError::InvalidInput);
        }
        assert(acc * 10 + d <= u64::MAX) by (nonlinear_arith)
            requires
                acc <= (u64::MAX - d) / 10,
                d <= 9,
        ;
        acc = acc * 10 + d;
        i = i + 1;
    }
    assert(s.take(n as int) =~= s);
    Ok(acc)
}

} // verus!
