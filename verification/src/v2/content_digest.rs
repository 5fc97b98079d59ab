//! Content digests: `<algorithm>:<hex>` identifiers naming a blob by the
//! hash of its content, with parsing, printing and verification.

use vstd::prelude::*;
use crate::errors::Error;
use crate::strutil;
use crate::strutil::has_prefix;
use sha2::Digest;

verus! {

/// Name for what `sha2::Sha256` returns: a function of the input alone.
pub uninterp spec fn sha256_of(b: Seq<u8>) -> Seq<u8>;

/// Name for what `sha2::Sha512` returns: a function of the input alone.
pub uninterp spec fn sha512_of(b: Seq<u8>) -> Seq<u8>;

/// Relies on `sha2::Sha256::digest`: a 32-byte digest of the input bytes alone.
#[verifier::external_body]
fn sha256(b: &[u8]) -> (r: Vec<u8>)
    ensures
        r@ == sha256_of(b@),
        r@.len() == 32,
{
    sha2::Sha256::digest(b).to_vec()
}

/// Relies on `sha2::Sha512::digest`: a 64-byte digest of the input bytes alone.
#[verifier::external_body]
fn sha512(b: &[u8]) -> (r: Vec<u8>)
    ensures
        r@ == sha512_of(b@),
        r@.len() == 64,
{
    sha2::Sha512::digest(b).to_vec()
}

/// The lower-case hexadecimal digit for a value below sixteen.
pub open spec fn hex_char(n: u8) -> char {
    if n == 0 {
        '0'
    } else if n == 1 {
        '1'
    } else if n == 2 {
        '2'
    } else if n == 3 {
        '3'
    } else if n == 4 {
        '4'
    } else if n == 5 {
        '5'
    } else if n == 6 {
        '6'
    } else if n == 7 {
        '7'
    } else if n == 8 {
        '8'
    } else if n == 9 {
        '9'
    } else if n == 10 {
        'a'
    } else if n == 11 {
        'b'
    } else if n == 12 {
        'c'
    } else if n == 13 {
        'd'
    } else if n == 14 {
        'e'
    } else {
        'f'
    }
}

/// The lower-case hexadecimal rendering of a byte sequence.
pub open spec fn hex_seq(b: Seq<u8>) -> Seq<char>
    decreases b.len(),
{
    if b.len() == 0 {
        Seq::empty()
    } else {
        hex_seq(b.drop_last()).push(hex_char((b.last() / 16) as u8)).push(
            hex_char((b.last() % 16) as u8),
        )
    }
}

/// Whether `c` is a lower-case hexadecimal digit.
pub open spec fn is_hex_digit(c: char) -> bool {
    ('0' <= c && c <= '9') || ('a' <= c && c <= 'f')
}

/// Whether `h` is lower-case hexadecimal of length `n`.
pub open spec fn valid_hex(h: Seq<char>, n: nat) -> bool {
    h.len() == n && (forall|i: int| 0 <= i < h.len() ==> is_hex_digit(h[i]))
}

fn hex_char_of(n: u8) -> (c: char)
    requires
        n < 16,
    ensures
        c == hex_char(n),
{
    match n {
        0 => '0',
        1 => '1',
        2 => '2',
        3 => '3',
        4 => '4',
        5 => '5',
        6 => '6',
        7 => '7',
        8 => '8',
        9 => '9',
        10 => 'a',
        11 => 'b',
        12 => 'c',
        13 => 'd',
        14 => 'e',
        _ => 'f',
    }
}

/// The lower-case hexadecimal rendering of a byte vector.
pub fn hex_string(b: &Vec<u8>) -> (r: String)
    ensures
        r@ == hex_seq(b@),
{
    let mut r = String::new();
    let mut i: usize = 0;
    while i < b.len()
        invariant
            i <= b@.len(),
            r@ == hex_seq(b@.take(i as int)),
        decreases b@.len() - i,
    {
        let hi = b[i] / 16;
        let lo = b[i] % 16;
        strutil::string_push(&mut r, hex_char_of(hi));
        strutil::string_push(&mut r, hex_char_of(lo));
        proof {
            assert(b@.take(i + 1).drop_last() =~= b@.take(i as int));
            assert(b@.take(i + 1).last() == b@[i as int]);
        }
        i = i + 1;
    }
    proof {
        assert(b@.take(b@.len() as int) =~= b@);
    }
    r
}

/// Hex renderings have twice the length of the input and hold hex digits only.
pub proof fn lemma_hex_seq_valid(b: Seq<u8>)
    ensures
        valid_hex(hex_seq(b), 2 * b.len()),
    decreases b.len(),
{
    if b.len() > 0 {
        lemma_hex_seq_valid(b.drop_last());
    }
}

/// A recognized digest algorithm.
#[derive(Debug, Clone, Copy, PartialEq, Eq)]
pub enum DigestAlgorithm {
    Sha256,
    Sha512,
}

/// The identifier of an algorithm, as it appears before the colon.
pub open spec fn algo_name(a: DigestAlgorithm) -> Seq<char> {
    match a {
        DigestAlgorithm::Sha256 => "sha256"@,
        DigestAlgorithm::Sha512 => "sha512"@,
    }
}

/// The hex length the algorithm demands.
pub open spec fn algo_hex_len(a: DigestAlgorithm) -> nat {
    match a {
        DigestAlgorithm::Sha256 => 64,
        DigestAlgorithm::Sha512 => 128,
    }
}

/// The parse of a digest string: its algorithm and hex part, where the
/// string has the shape `<algorithm>:<hex>` with a recognized algorithm
/// and lower-case hex of the right length.
pub open spec fn spec_parse_digest(s: Seq<char>) -> Option<(DigestAlgorithm, Seq<char>)> {
    if has_prefix(s, "sha256:"@) && valid_hex(s.skip(7), 64) {
        Some((DigestAlgorithm::Sha256, s.skip(7)))
    } else if has_prefix(s, "sha512:"@) && valid_hex(s.skip(7), 128) {
        Some((DigestAlgorithm::Sha512, s.skip(7)))
    } else {
        None
    }
}

/// The string a digest prints as.
pub open spec fn spec_digest_string(a: DigestAlgorithm, h: Seq<char>) -> Seq<char> {
    algo_name(a) + seq![':'] + h
}

/// The hex a byte buffer hashes to under an algorithm.
pub open spec fn spec_computed_hex(a: DigestAlgorithm, b: Seq<u8>) -> Seq<char> {
    match a {
        DigestAlgorithm::Sha256 => hex_seq(sha256_of(b)),
        DigestAlgorithm::Sha512 => hex_seq(sha512_of(b)),
    }
}

/// A parsed `<algorithm>:<hex>` content digest.
#[derive(Debug, Clone, PartialEq, Eq)]
pub struct ContentDigest {
    pub algorithm: DigestAlgorithm,
    pub hex: String,
}

impl ContentDigest {
    /// The stored hex is lower-case and of the algorithm's length.
    pub open spec fn wf(&self) -> bool {
        valid_hex(self.hex@, algo_hex_len(self.algorithm))
    }

    /// The digest a byte buffer would have under this digest's algorithm
    /// equals the stored hex.
    pub open spec fn matches(&self, b: Seq<u8>) -> bool {
        match self.algorithm {
            DigestAlgorithm::Sha256 => self.hex@ == hex_seq(sha256_of(b)),
            DigestAlgorithm::Sha512 => self.hex@ == hex_seq(sha512_of(b)),
        }
    }

    /// Parse an `<algorithm>:<hex>` string.
    #[verifier::loop_isolation(false)]
    pub fn try_new(d: &str) -> (r: Result<ContentDigest, Error>)
        ensures
            match r {
                Ok(cd) => {
                    &&& cd.wf()
                    &&& spec_parse_digest(d@) == Some((cd.algorithm, cd.hex@))
                },
                Err(e) => spec_parse_digest(d@) is None && e is MalformedResponse,
            },
    {
        let is256 = strutil::starts_with(d, "sha256:");
        let is512 = strutil::starts_with(d, "sha512:");
        if !is256 && !is512 {
            return Err(Error::MalformedResponse(String::from_str("unknown digest algorithm")));
        }
        proof {
            reveal_strlit("sha256:");
            reveal_strlit("sha512:");
            assert(d@.len() >= 7);
            if is256 && has_prefix(d@, "sha512:"@) {
                assert(d@.subrange(0, 7)[3] == "sha512:"@[3]);
                assert(d@.subrange(0, 7)[3] == "sha256:"@[3]);
                assert(false);
            }
        }
        let dlen = d.unicode_len();
        let hex = d.substring_char(7, dlen);
        assert(hex@ =~= d@.skip(7));
        let hexlen = dlen - 7;
        let want: usize = if is256 {
            64
        } else {
            128
        };
        if hexlen != want {
            return Err(Error::MalformedResponse(String::from_str("malformed digest string")));
        }
        let mut i: usize = 0;
        while i < hexlen
            invariant
                hexlen == hex@.len(),
                i <= hexlen,
                forall|j: int| 0 <= j < i ==> is_hex_digit(hex@[j]),
            decreases hexlen - i,
        {
            let c = hex.get_char(i);
            let ok = ('0' <= c && c <= '9') || ('a' <= c && c <= 'f');
            if !ok {
                return Err(Error::MalformedResponse(String::from_str("malformed digest string")));
            }
            i = i + 1;
        }
        let algorithm = if is256 {
            DigestAlgorithm::Sha256
        } else {
            DigestAlgorithm::Sha512
        };
        Ok(ContentDigest { algorithm, hex: hex.to_owned() })
    }

    /// The digest of a byte buffer, under sha256.
    pub fn of(b: &[u8]) -> (r: ContentDigest)
        ensures
            r.wf(),
            r.algorithm == DigestAlgorithm::Sha256,
            r.hex@ == hex_seq(sha256_of(b@)),
    {
        let computed = sha256(b);
        let hex = hex_string(&computed);
        proof {
            lemma_hex_seq_valid(sha256_of(b@));
        }
        ContentDigest { algorithm: DigestAlgorithm::Sha256, hex }
    }

    /// Print as `<algorithm>:<hex>`.
    pub fn to_string(&self) -> (r: String)
        ensures
            r@ == spec_digest_string(self.algorithm, self.hex@),
    {
        let mut r = match self.algorithm {
            DigestAlgorithm::Sha256 => String::from_str("sha256"),
            DigestAlgorithm::Sha512 => String::from_str("sha512"),
        };
        strutil::string_push(&mut r, ':');
        proof {
            assert(algo_name(self.algorithm).push(':') =~= algo_name(self.algorithm) + seq![':']);
        }
        let r = r.concat(self.hex.as_str());
        r
    }

    /// Recompute the digest of `b` and compare it with the stored hex.
    /// A mismatch error carries the expected and the actual hex.
    pub fn try_verify(&self, b: &[u8]) -> (r: Result<(), Error>)
        ensures
            r is Ok <==> self.matches(b@),
            r matches Err(e) ==> e matches Error::DigestMismatch(exp, act) && exp@ == self.hex@
                && act@ == spec_computed_hex(self.algorithm, b@),
    {
        let computed = match self.algorithm {
            DigestAlgorithm::Sha256 => sha256(b),
            DigestAlgorithm::Sha512 => sha512(b),
        };
        let actual = hex_string(&computed);
        if strutil::str_eq(actual.as_str(), self.hex.as_str()) {
            Ok(())
        } else {
            Err(Error::DigestMismatch(self.hex.clone(), actual))
        }
    }
}

/// Round trip, one direction: a string that parses prints back to itself.
pub proof fn lemma_digest_round_trip(d: Seq<char>, a: DigestAlgorithm, h: Seq<char>)
    requires
        spec_parse_digest(d) == Some((a, h)),
    ensures
        spec_digest_string(a, h) == d,
{
    reveal_strlit("sha256:");
    reveal_strlit("sha512:");
    reveal_strlit("sha256");
    reveal_strlit("sha512");
    if has_prefix(d, "sha256:"@) && valid_hex(d.skip(7), 64) {
        assert forall|i: int| 0 <= i < 7 implies d[i] == "sha256:"@[i] by {
            assert(d.subrange(0, 7)[i] == d[i]);
        }
        assert(spec_digest_string(a, h) =~= d);
    } else {
        assert forall|i: int| 0 <= i < 7 implies d[i] == "sha512:"@[i] by {
            assert(d.subrange(0, 7)[i] == d[i]);
        }
        assert(spec_digest_string(a, h) =~= d);
    }
}

/// Round trip, other direction: a printed well-formed digest parses back
/// to the same algorithm and hex.
pub proof fn lemma_digest_print_parse(a: DigestAlgorithm, h: Seq<char>)
    requires
        valid_hex(h, algo_hex_len(a)),
    ensures
        spec_parse_digest(spec_digest_string(a, h)) == Some((a, h)),
{
    reveal_strlit("sha256:");
    reveal_strlit("sha512:");
    reveal_strlit("sha256");
    reveal_strlit("sha512");
    let s = spec_digest_string(a, h);
    match a {
        DigestAlgorithm::Sha256 => {
            assert(s.subrange(0, 7) =~= "sha256:"@);
            assert(s.skip(7) =~= h);
            assert(!has_prefix(s, "sha512:"@)) by {
                if has_prefix(s, "sha512:"@) {
                    assert(s.subrange(0, 7)[3] == "sha512:"@[3]);
                }
            }
        },
        DigestAlgorithm::Sha512 => {
            assert(s.subrange(0, 7) =~= "sha512:"@);
            assert(s.skip(7) =~= h);
            assert(!has_prefix(s, "sha256:"@)) by {
                if has_prefix(s, "sha256:"@) {
                    assert(s.subrange(0, 7)[3] == "sha256:"@[3]);
                }
            }
        },
    }
}

/// A buffer always verifies against its own digest.
pub proof fn lemma_own_digest_matches(cd: ContentDigest, b: Seq<u8>)
    requires
        cd.algorithm == DigestAlgorithm::Sha256,
        cd.hex@ == hex_seq(sha256_of(b)),
    ensures
        cd.matches(b),
{
}

proof fn lemma_hex_char_injective(m: u8, n: u8)
    requires
        m < 16,
        n < 16,
        hex_char(m) == hex_char(n),
    ensures
        m == n,
{
}

/// Hex renderings are injective: equal renderings come from equal bytes.
pub proof fn lemma_hex_seq_injective(a: Seq<u8>, b: Seq<u8>)
    requires
        hex_seq(a) == hex_seq(b),
    ensures
        a == b,
    decreases a.len(),
{
    lemma_hex_seq_valid(a);
    lemma_hex_seq_valid(b);
    if a.len() == 0 {
        assert(a =~= b);
    } else {
        let xa = a.last();
        let xb = b.last();
        assert(hex_seq(a).last() == hex_char((xa % 16) as u8));
        assert(hex_seq(b).last() == hex_char((xb % 16) as u8));
        lemma_hex_char_injective((xa % 16) as u8, (xb % 16) as u8);
        assert(hex_seq(a).drop_last() =~= hex_seq(a.drop_last()).push(hex_char((xa / 16) as u8)));
        assert(hex_seq(b).drop_last() =~= hex_seq(b.drop_last()).push(hex_char((xb / 16) as u8)));
        assert(hex_seq(a.drop_last()).push(hex_char((xa / 16) as u8)).last() == hex_char(
            (xa / 16) as u8,
        ));
        lemma_hex_char_injective((xa / 16) as u8, (xb / 16) as u8);
        assert(xa == xb);
        assert(hex_seq(a.drop_last()) =~= hex_seq(a.drop_last()).push(
            hex_char((xa / 16) as u8),
        ).drop_last());
        assert(hex_seq(a.drop_last()) == hex_seq(b.drop_last()));
        lemma_hex_seq_injective(a.drop_last(), b.drop_last());
        assert(a.len() == b.len());
        assert forall|i: int| 0 <= i < a.len() implies a[i] == b[i] by {
            if i < a.len() - 1 {
                assert(a.drop_last()[i] == a[i]);
                assert(b.drop_last()[i] == b[i]);
            }
        }
        assert(a =~= b);
    }
}

/// The other half of the self-verification law, under the premise that
/// the digests of the two buffers differ (which nothing here may assume
/// of the hash itself): a buffer extended by one byte does not verify
/// against the digest of the original.
pub proof fn lemma_appended_byte_mismatch(cd: ContentDigest, b: Seq<u8>, x: u8)
    requires
        cd.algorithm == DigestAlgorithm::Sha256,
        cd.hex@ == hex_seq(sha256_of(b)),
        sha256_of(b.push(x)) != sha256_of(b),
    ensures
        !cd.matches(b.push(x)),
{
    if cd.matches(b.push(x)) {
        lemma_hex_seq_injective(sha256_of(b), sha256_of(b.push(x)));
    }
}

} // verus!
