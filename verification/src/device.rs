//! A stable, anonymous per-install identifier: a stored one when it looks
//! valid, else a fresh random one rendered as lower-case hex.

use vstd::prelude::*;

use crate::text::{push_char, trim, trim_seq};

verus! {

/// Shortest stored identifier (in UTF-8 bytes, after trimming) that is reused.
pub const MIN_ID_BYTES: usize = 16;

/// Number of random bytes in a fresh identifier.
pub const ID_BYTES: usize = 16;

/// The lower-case hex digit for `n < 16`.
pub open spec fn hex_digit(n: nat) -> char {
    if n < 10 {
        ('0' as int + n) as char
    } else {
        ('a' as int + (n - 10)) as char
    }
}

/// Two lower-case hex digits per byte, most significant first (`{:02x}`).
pub open spec fn hex_of(bytes: Seq<u8>) -> Seq<char>
    decreases bytes.len(),
{
    if bytes.len() == 0 {
        Seq::empty()
    } else {
        hex_of(bytes.drop_last()).push(hex_digit(bytes.last() as nat / 16)).push(
            hex_digit(bytes.last() as nat % 16),
        )
    }
}

/// The low `k` bytes of `n`, least significant first (`to_le_bytes`).
pub open spec fn le_bytes(n: nat, k: nat) -> Seq<u8>
    decreases k,
{
    if k == 0 {
        Seq::empty()
    } else {
        seq![(n % 256) as u8] + le_bytes(n / 256, (k - 1) as nat)
    }
}

fn hex_char(n: u8) -> (r: char)
    requires
        n < 16,
    ensures
        r == hex_digit(n as nat),
{
    if n == 0 {
        '0'
    } else if n == 1 {
        '1'
    } else if n == 2 {
        '2'
    } else if n == 3 {
        '3'
    } else if n == 4 {
        '4'
    } else if n == 5 {
        '5'
    } else if n == 6 {
        '6'
    } else if n == 7 {
        '7'
    } else if n == 8 {
        '8'
    } else if n == 9 {
        '9'
    } else if n == 10 {
        'a'
    } else if n == 11 {
        'b'
    } else if n == 12 {
        'c'
    } else if n == 13 {
        'd'
    } else if n == 14 {
        'e'
    } else {
        'f'
    }
}

/// `bytes` as lower-case hex, two digits per byte.
pub fn random_hex(bytes: &[u8]) -> (r: String)
    ensures
        r@ == hex_of(bytes@),
{
    let mut out = String::new();
    let n = bytes.len();
    let mut i: usize = 0;
    while i < n
        invariant
            i <= n == bytes@.len(),
            out@ == hex_of(bytes@.take(i as int)),
        decreases n - i,
    {
        let b = bytes[i];
        assert(bytes@.take(i + 1).drop_last() =~= bytes@.take(i as int));
        push_char(&mut out, hex_char(b / 16));
        push_char(&mut out, hex_char(b % 16));
        i = i + 1;
    }
    assert(bytes@.take(n as int) =~= bytes@);
    out
}

/// The sixteen bytes of `nanos`, least significant first: the stand-in for
/// random bytes when the system source cannot be read.
pub fn time_bytes(nanos: u128) -> (r: Vec<u8>)
    ensures
        r@ == le_bytes(nanos as nat, ID_BYTES as nat),
{
    let mut out: Vec<u8> = Vec::new();
    let mut x = nanos;
    let mut i: usize = 0;
    assert(out@ + le_bytes(x as nat, ID_BYTES as nat) =~= le_bytes(nanos as nat, ID_BYTES as nat));
    while i < ID_BYTES
        invariant
            i <= ID_BYTES,
            out@.len() == i,
            out@ + le_bytes(x as nat, (ID_BYTES - i) as nat) == le_bytes(nanos as nat, ID_BYTES as nat),
        decreases ID_BYTES - i,
    {
        let ghost before = out@;
        let low = (x % 256) as u8;
        out.push(low);
        assert(le_bytes(x as nat, (ID_BYTES - i) as nat) == seq![low] + le_bytes(
            (x / 256) as nat,
            (ID_BYTES - i - 1) as nat,
        ));
        assert(before + (seq![low] + le_bytes((x / 256) as nat, (ID_BYTES - i - 1) as nat))
            =~= out@ + le_bytes((x / 256) as nat, (ID_BYTES - i - 1) as nat));
        x = x / 256;
        i = i + 1;
    }
    assert(out@ + le_bytes(x as nat, 0) =~= out@);
    out
}

/// The length in bytes of the UTF-8 encoding of `s`, as `str::len` reports it.
pub open spec fn utf8_len(s: Seq<char>) -> usize {
    vstd::utf8::encode_utf8(s).len() as usize
}

/// The stored identifier to keep using: the stored text, trimmed, when that is
/// at least `MIN_ID_BYTES` bytes long. Otherwise there is none, and a fresh
/// identifier is to be made and stored.
pub fn id(stored: Option<&str>) -> (r: Option<String>)
    ensures
        match stored {
            Some(s) => if utf8_len(trim_seq(s@)) >= MIN_ID_BYTES {
                r matches Some(x) && x@ == trim_seq(s@)
            } else {
                r is None
            },
            None => r is None,
        },
{
    match stored {
        Some(s) => {
            let trimmed = trim(s);
            let view = trimmed.as_str();
            if view.len() >= MIN_ID_BYTES {
                Some(trimmed)
            } else {
                None
            }
        },
        None => None,
    }
}

/// A fresh identifier is two hex digits per byte, so sixteen random bytes give
/// thirty-two characters, every one of them `0`-`9` or `a`-`f`.
pub proof fn lemma_hex_shape(bytes: Seq<u8>)
    ensures
        hex_of(bytes).len() == 2 * bytes.len(),
        forall|i: int|
            0 <= i < hex_of(bytes).len() ==> {
                let c = #[trigger] hex_of(bytes)[i];
                ('0' <= c && c <= '9') || ('a' <= c && c <= 'f')
            },
    decreases bytes.len(),
{
    if bytes.len() > 0 {
        lemma_hex_shape(bytes.drop_last());
        let b = bytes.last() as nat;
        assert(b / 16 < 16 && b % 16 < 16);
    }
}

} // verus!
