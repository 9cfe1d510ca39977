//! Content hashing for derived dedup keys: repeated identical errors get the
//! same key, so they collapse inside the dedup window.

use vstd::prelude::*;

verus! {

/// What the SHA-256 digest of the UTF-8 bytes of a string is; stated only
/// through the trusted digest call below.
pub uninterp spec fn sha256_of(s: Seq<char>) -> Seq<u8>;

/// Relies on sha2's `Sha256`: the digest depends on the input bytes
/// alone, and is always thirty-two bytes, the algorithm's fixed output
/// size.
#[verifier::external_body]
fn sha256_digest(s: &str) -> (r: Vec<u8>)
    ensures
        r@ == sha256_of(s@),
        r@.len() == 32,
{
    let mut hasher = <sha2::Sha256 as sha2::Digest>::new();
    sha2::Digest::update(&mut hasher, s.as_bytes());
    sha2::Digest::finalize(hasher).to_vec()
}

/// The lower-case hex digit for a value below sixteen.
pub open spec fn spec_hex_digit(n: u8) -> char
    recommends
        n < 16,
{
    if n < 10 {
        ((n + 48) as char)
    } else {
        ((n + 87) as char)
    }
}

/// The lower-case hex encoding of a byte string, two digits per byte.
pub open spec fn spec_hex_of(bytes: Seq<u8>) -> Seq<char>
    decreases bytes.len(),
{
    if bytes.len() == 0 {
        Seq::empty()
    } else {
        seq![spec_hex_digit(bytes[0] / 16), spec_hex_digit(bytes[0] % 16)] + spec_hex_of(
            bytes.drop_first(),
        )
    }
}

/// The hex digit for `n`, as a one-character string slice.
fn hex_digit_str(n: u8) -> (r: &'static str)
    requires
        n < 16,
    ensures
        r@ == seq![spec_hex_digit(n)],
{
    proof {
        reveal_strlit("0");
        reveal_strlit("1");
        reveal_strlit("2");
        reveal_strlit("3");
        reveal_strlit("4");
        reveal_strlit("5");
        reveal_strlit("6");
        reveal_strlit("7");
        reveal_strlit("8");
        reveal_strlit("9");
        reveal_strlit("a");
        reveal_strlit("b");
        reveal_strlit("c");
        reveal_strlit("d");
        reveal_strlit("e");
        reveal_strlit("f");
    }
    match n {
        0 => "0",
        1 => "1",
        2 => "2",
        3 => "3",
        4 => "4",
        5 => "5",
        6 => "6",
        7 => "7",
        8 => "8",
        9 => "9",
        10 => "a",
        11 => "b",
        12 => "c",
        13 => "d",
        14 => "e",
        _ => {
            proof {
                assert(n == 15);
            }
            "f"
        },
    }
}

/// Extending the encoded prefix by one byte appends that byte's two digits.
proof fn lemma_hex_of_step(bytes: Seq<u8>, i: int)
    requires
        0 <= i < bytes.len(),
    ensures
        spec_hex_of(bytes.take(i + 1)) == spec_hex_of(bytes.take(i)) + seq![
            spec_hex_digit(bytes[i] / 16),
            spec_hex_digit(bytes[i] % 16),
        ],
    decreases i,
{
    let a = bytes.take(i + 1);
    let b = bytes.take(i);
    if i == 0 {
        assert(a.drop_first() =~= Seq::<u8>::empty());
        assert(b =~= Seq::<u8>::empty());
        assert(spec_hex_of(a) == seq![
            spec_hex_digit(bytes[0] / 16),
            spec_hex_digit(bytes[0] % 16),
        ] + spec_hex_of(a.drop_first()));
        assert(spec_hex_of(a) =~= spec_hex_of(b) + seq![
            spec_hex_digit(bytes[0] / 16),
            spec_hex_digit(bytes[0] % 16),
        ]);
    } else {
        lemma_hex_of_step(bytes.drop_first(), i - 1);
        assert(a.drop_first() =~= bytes.drop_first().take(i));
        assert(b.drop_first() =~= bytes.drop_first().take(i - 1));
        assert(bytes.drop_first()[i - 1] == bytes[i]);
        assert(spec_hex_of(a) == seq![
            spec_hex_digit(bytes[0] / 16),
            spec_hex_digit(bytes[0] % 16),
        ] + spec_hex_of(a.drop_first()));
        assert(spec_hex_of(b) == seq![
            spec_hex_digit(bytes[0] / 16),
            spec_hex_digit(bytes[0] % 16),
        ] + spec_hex_of(b.drop_first()));
        assert(spec_hex_of(a) =~= spec_hex_of(b) + seq![
            spec_hex_digit(bytes[i] / 16),
            spec_hex_digit(bytes[i] % 16),
        ]);
    }
}

/// The hex encoding is two digits per byte.
pub proof fn lemma_hex_of_len(bytes: Seq<u8>)
    ensures
        spec_hex_of(bytes).len() == 2 * bytes.len(),
    decreases bytes.len(),
{
    if bytes.len() > 0 {
        lemma_hex_of_len(bytes.drop_first());
    }
}

/// The lower-case hex SHA-256 of a string: the derived dedup key for
/// content-addressed deduplication, always sixty-four characters.
pub fn sha256_hex(s: &str) -> (r: String)
    ensures
        r@ == spec_hex_of(sha256_of(s@)),
        r@.len() == 64,
{
    let digest = sha256_digest(s);
    let mut out = String::new();
    let n = digest.len();
    let mut i: usize = 0;
    proof {
        assert(digest@.take(0) =~= Seq::<u8>::empty());
    }
    while i < n
        invariant
            n == digest@.len(),
            i <= n,
            out@ == spec_hex_of(digest@.take(i as int)),
        decreases n - i,
    {
        let b = digest[i];
        let hi = b / 16;
        let lo = b % 16;
        out.append(hex_digit_str(hi));
        out.append(hex_digit_str(lo));
        proof {
            lemma_hex_of_step(digest@, i as int);
        }
        i = i + 1;
    }
    proof {
        assert(digest@.take(n as int) =~= digest@);
        lemma_hex_of_len(digest@);
    }
    out
}

} // verus!
