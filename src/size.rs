//! Human-scaled byte counts.
use vstd::prelude::*;

verus! {

/// Above this many bytes a size is given in KiB.
pub const KIB_BYTES: u64 = 8192;

/// Above this many bytes a size is given in MiB.
pub const MIB_BYTES: u64 = 1049000;

/// Above this many bytes a size is given in GiB.
pub const GIB_BYTES: u64 = 8590000000;

/// Above this many bytes a size is given in TiB.
pub const TIB_BYTES: u64 = 1100000000000;

/// The decimal digit `d`, as a one-character sequence.
pub open spec fn digit(d: nat) -> Seq<char> {
    "0123456789"@.subrange(d as int, (d + 1) as int)
}

/// `n` written in decimal, without leading zeros.
pub open spec fn decimal(n: nat) -> Seq<char>
    decreases n,
{
    if n < 10 {
        digit(n)
    } else {
        decimal(n / 10) + digit(n % 10)
    }
}

/// The size of an entry of `n` bytes, in the largest unit whose threshold
/// `n` strictly exceeds, truncated to a whole number.
pub open spec fn size_text(n: u64) -> Seq<char> {
    if n > TIB_BYTES {
        decimal((n / TIB_BYTES) as nat) + " TiB"@
    } else if n > GIB_BYTES {
        decimal((n / GIB_BYTES) as nat) + " GiB"@
    } else if n > MIB_BYTES {
        decimal((n / MIB_BYTES) as nat) + " MiB"@
    } else if n > KIB_BYTES {
        decimal((n / KIB_BYTES) as nat) + " KiB"@
    } else {
        decimal(n as nat) + " B"@
    }
}

/// `n` in decimal.
pub fn decimal_string(n: u64) -> (r: String)
    ensures
        r@ == decimal(n as nat),
    decreases n,
{
    let d = (n % 10) as usize;
    proof {
        reveal_strlit("0123456789");
    }
    let digit_str = "0123456789".substring_char(d, d + 1);
    if n < 10 {
        String::from_str(digit_str)
    } else {
        let mut r = decimal_string(n / 10);
        r.append(digit_str);
        r
    }
}

/// The size of an entry of `len` bytes, e.g. `100 B`, `1 KiB`, `1 MiB`.
pub fn size_string(len: u64) -> (r: String)
    ensures
        r@ == size_text(len),
{
    let (count, unit) = if len > TIB_BYTES {
        (len / TIB_BYTES, " TiB")
    } else if len > GIB_BYTES {
        (len / GIB_BYTES, " GiB")
    } else if len > MIB_BYTES {
        (len / MIB_BYTES, " MiB")
    } else if len > KIB_BYTES {
        (len / KIB_BYTES, " KiB")
    } else {
        (len, " B")
    };
    let mut r = decimal_string(count);
    r.append(unit);
    r
}

} // verus!
