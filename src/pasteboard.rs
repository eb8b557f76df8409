use vstd::prelude::*;
use vstd::string::StringSliceAdditionalSpecFns;

verus! {

/// The MD5 digest of `data`, as 32 lowercase hexadecimal digits.
pub uninterp spec fn md5_hex(data: Seq<u8>) -> Seq<char>;

/// Relies on `md5::compute`, whose `Digest` formats through `Debug` as the
/// digest's lowercase hexadecimal text; the text depends on `data` alone.
#[verifier::external_body]
fn md5_text(data: &[u8]) -> (r: String)
    ensures
        r@ == md5_hex(data@),
{
    format!("{:?}", md5::compute(data))
}

/// The decimal digit character for `d`.
pub open spec fn digit_char(d: nat) -> char {
    if d == 0 {
        '0'
    } else if d == 1 {
        '1'
    } else if d == 2 {
        '2'
    } else if d == 3 {
        '3'
    } else if d == 4 {
        '4'
    } else if d == 5 {
        '5'
    } else if d == 6 {
        '6'
    } else if d == 7 {
        '7'
    } else if d == 8 {
        '8'
    } else {
        '9'
    }
}

/// The decimal text of `n`, without leading zeros.
pub open spec fn decimal_text(n: nat) -> Seq<char>
    decreases n,
{
    if n < 10 {
        seq![digit_char(n)]
    } else {
        decimal_text(n / 10).push(digit_char(n % 10))
    }
}

/// The name of a pasteboard entry: the time it was posted, in whole seconds
/// since the Unix epoch, an underscore, and the digest text of its content.
pub open spec fn entry_name(secs: nat, digest: Seq<char>) -> Seq<char> {
    decimal_text(secs) + seq!['_'] + digest
}

fn digit_str(d: u64) -> (r: &'static str)
    requires
        d < 10,
    ensures
        r@ == seq![digit_char(d as nat)],
{
    if d == 0 {
        proof {
            reveal_strlit("0");
        }
        "0"
    } else if d == 1 {
        proof {
            reveal_strlit("1");
        }
        "1"
    } else if d == 2 {
        proof {
            reveal_strlit("2");
        }
        "2"
    } else if d == 3 {
        proof {
            reveal_strlit("3");
        }
        "3"
    } else if d == 4 {
        proof {
            reveal_strlit("4");
        }
        "4"
    } else if d == 5 {
        proof {
            reveal_strlit("5");
        }
        "5"
    } else if d == 6 {
        proof {
            reveal_strlit("6");
        }
        "6"
    } else if d == 7 {
        proof {
            reveal_strlit("7");
        }
        "7"
    } else if d == 8 {
        proof {
            reveal_strlit("8");
        }
        "8"
    } else {
        proof {
            reveal_strlit("9");
        }
        "9"
    }
}

/// Writes `n` in decimal.
pub fn decimal_string(n: u64) -> (r: String)
    ensures
        r@ == decimal_text(n as nat),
    decreases n,
{
    if n < 10 {
        String::from_str(digit_str(n))
    } else {
        let head = decimal_string(n / 10);
        let r = head.concat(digit_str(n % 10));
        assert(r@ =~= decimal_text(n as nat));
        r
    }
}

/// The name of a pasteboard entry posted at `secs` whose content has the
/// digest text `digest`.
pub fn pasteboard_entry_name(secs: u64, digest: &str) -> (r: String)
    ensures
        r@ == entry_name(secs as nat, digest@),
{
    let sep = "_";
    proof {
        reveal_strlit("_");
    }
    let r = decimal_string(secs).concat(sep).concat(digest);
    assert(r@ =~= entry_name(secs as nat, digest@));
    r
}

/// The name under which a pasteboard entry with text `content`, posted at
/// `secs`, is stored: identical texts posted in the same second share it.
pub fn new_pasteboard_entry_name(secs: u64, content: &str) -> (r: String)
    ensures
        r@ == entry_name(secs as nat, md5_hex(content.spec_bytes())),
{
    let digest = md5_text(content.as_bytes());
    pasteboard_entry_name(secs, digest.as_str())
}

} // verus!
