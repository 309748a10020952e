use vstd::prelude::*;
use vstd::string::StrSliceExecFns;
use vstd::string::StringSliceAdditionalSpecFns;

verus! {

/// A host C-runtime toolchain flavor, such as MSVC or GNU.
#[derive(Debug, Clone, Copy, PartialEq, Eq, PartialOrd, Ord, Structural)]
#[non_exhaustive]
pub enum Toolchain {
    Msvc,
    Gnu,
    Musl,
}

/// ASCII-only case folding of one byte: the uppercase ASCII letters map to
/// their lowercase counterparts, every other byte passes through unchanged.
pub open spec fn lower_byte(b: u8) -> u8 {
    if 65 <= b && b <= 90 {
        (b + 32) as u8
    } else {
        b
    }
}

/// ASCII-only case folding of a byte string.
pub open spec fn lower_bytes(s: Seq<u8>) -> Seq<u8> {
    s.map_values(|b: u8| lower_byte(b))
}

/// The keyword identifying the MSVC toolchain, as the lowercase bytes of "msvc".
pub open spec fn keyword_msvc() -> Seq<u8> {
    seq![109u8, 115u8, 118u8, 99u8]
}

/// The keyword identifying the GNU toolchain, as the lowercase bytes of "gnu".
pub open spec fn keyword_gnu() -> Seq<u8> {
    seq![103u8, 110u8, 117u8]
}

/// The keyword identifying the MUSL toolchain, as the lowercase bytes of "musl".
pub open spec fn keyword_musl() -> Seq<u8> {
    seq![109u8, 117u8, 115u8, 108u8]
}

/// Whether `k` occurs as a contiguous substring of `s`.
pub open spec fn contains_sub(s: Seq<u8>, k: Seq<u8>) -> bool {
    exists|i: int|
        0 <= i && i + k.len() <= s.len() && #[trigger] s.subrange(i, i + k.len() as int) == k
}

/// What `Toolchain::detect` answers for an input with the given UTF-8 bytes:
/// the input is ASCII case folded and the keyword sets are searched in the
/// fixed order MSVC, then GNU, then MUSL; the first match wins.
pub open spec fn detect_spec(s: Seq<u8>) -> Option<Toolchain> {
    let l = lower_bytes(s);
    if contains_sub(l, keyword_msvc()) {
        Some(Toolchain::Msvc)
    } else if contains_sub(l, keyword_gnu()) {
        Some(Toolchain::Gnu)
    } else if contains_sub(l, keyword_musl()) {
        Some(Toolchain::Musl)
    } else {
        None
    }
}

fn keyword_msvc_bytes() -> (r: Vec<u8>)
    ensures
        r@ == keyword_msvc(),
{
    let mut v: Vec<u8> = Vec::new();
    v.push(109);
    v.push(115);
    v.push(118);
    v.push(99);
    proof {
        assert(v@ =~= keyword_msvc());
    }
    v
}

fn keyword_gnu_bytes() -> (r: Vec<u8>)
    ensures
        r@ == keyword_gnu(),
{
    let mut v: Vec<u8> = Vec::new();
    v.push(103);
    v.push(110);
    v.push(117);
    proof {
        assert(v@ =~= keyword_gnu());
    }
    v
}

fn keyword_musl_bytes() -> (r: Vec<u8>)
    ensures
        r@ == keyword_musl(),
{
    let mut v: Vec<u8> = Vec::new();
    v.push(109);
    v.push(117);
    v.push(115);
    v.push(108);
    proof {
        assert(v@ =~= keyword_musl());
    }
    v
}

fn lower_ascii(bytes: &Vec<u8>) -> (r: Vec<u8>)
    ensures
        r@ == lower_bytes(bytes@),
{
    let mut out: Vec<u8> = Vec::new();
    let mut i: usize = 0;
    while i < bytes.len()
        invariant
            i <= bytes@.len(),
            out@ == lower_bytes(bytes@.subrange(0, i as int)),
        decreases bytes@.len() - i,
    {
        let b = bytes[i];
        if 65 <= b && b <= 90 {
            out.push(b + 32);
        } else {
            out.push(b);
        }
        i = i + 1;
        proof {
            assert(out@ =~= lower_bytes(bytes@.subrange(0, i as int)));
        }
    }
    proof {
        assert(bytes@.subrange(0, bytes@.len() as int) =~= bytes@);
    }
    out
}

fn contains_bytes(hay: &Vec<u8>, needle: &Vec<u8>) -> (r: bool)
    ensures
        r == contains_sub(hay@, needle@),
{
    let n = needle.len();
    let h = hay.len();
    if n > h {
        return false;
    }
    if n == 0 {
        proof {
            assert(hay@.subrange(0, 0 + needle@.len() as int) =~= needle@);
            assert(contains_sub(hay@, needle@));
        }
        return true;
    }
    let mut i: usize = 0;
    while i <= h - n
        invariant
            1 <= n <= h,
            h == hay@.len(),
            n == needle@.len(),
            i <= h - n + 1,
            forall|j: int| 0 <= j < i ==> #[trigger] hay@.subrange(j, j + n as int) != needle@,
        decreases h - n - i + 1,
    {
        let mut j: usize = 0;
        let mut mismatch = false;
        while j < n
            invariant
                n <= h,
                h == hay@.len(),
                n == needle@.len(),
                i + n <= h,
                j <= n,
                !mismatch ==> forall|k: int| 0 <= k < j ==> hay@[i + k] == needle@[k],
                mismatch ==> hay@.subrange(i as int, i + n as int) != needle@,
            decreases n - j,
        {
            if hay[i + j] != needle[j] {
                proof {
                    assert(hay@.subrange(i as int, i + n as int)[j as int] == hay@[i + j]);
                }
                mismatch = true;
                j = n;
            } else {
                j = j + 1;
            }
        }
        if !mismatch {
            proof {
                assert(hay@.subrange(i as int, i + n as int) =~= needle@);
            }
            return true;
        }
        i = i + 1;
    }
    proof {
        assert forall|k: int| !(0 <= k && k + needle@.len() <= hay@.len()
            && #[trigger] hay@.subrange(k, k + needle@.len() as int) == needle@) by {
            if 0 <= k && k + needle@.len() <= hay@.len() {
                assert(k < i);
            }
        }
    }
    false
}

impl Toolchain {
    /// The toolchain of the current host system. Host detection is an open
    /// hook with no mechanism chosen yet, so this always answers `None`.
    pub fn current() -> (r: Option<Toolchain>)
        ensures
            r is None,
    {
        None
    }

    /// Detect a toolchain by searching for known keywords in the given
    /// string, after ASCII case folding, trying MSVC first, then GNU,
    /// then MUSL. Answers `None` when no keyword occurs.
    pub fn detect(search_string: &str) -> (r: Option<Toolchain>)
        ensures
            r == detect_spec(search_string.spec_bytes()),
    {
        let bytes = search_string.as_bytes_vec();
        let lowered = lower_ascii(&bytes);
        if contains_bytes(&lowered, &keyword_msvc_bytes()) {
            Some(Toolchain::Msvc)
        } else if contains_bytes(&lowered, &keyword_gnu_bytes()) {
            Some(Toolchain::Gnu)
        } else if contains_bytes(&lowered, &keyword_musl_bytes()) {
            Some(Toolchain::Musl)
        } else {
            None
        }
    }
}

/// ASCII case folding is idempotent: folding an already folded byte string
/// changes nothing.
pub proof fn lemma_lower_bytes_idempotent(s: Seq<u8>)
    ensures
        lower_bytes(lower_bytes(s)) == lower_bytes(s),
{
    assert(lower_bytes(lower_bytes(s)) =~= lower_bytes(s));
}

/// Law: detection is insensitive to ASCII case, i.e. an input and its ASCII
/// case folded form always classify to the same toolchain.
pub proof fn lemma_detect_ascii_case_insensitive(s: Seq<u8>)
    ensures
        detect_spec(lower_bytes(s)) == detect_spec(s),
{
    lemma_lower_bytes_idempotent(s);
}

/// Law: when several keyword sets match, MSVC takes precedence over GNU,
/// which takes precedence over MUSL; no match at all answers `None`.
pub proof fn lemma_detect_precedence(s: Seq<u8>)
    ensures
        contains_sub(lower_bytes(s), keyword_msvc()) ==> detect_spec(s) == Some(Toolchain::Msvc),
        !contains_sub(lower_bytes(s), keyword_msvc()) && contains_sub(lower_bytes(s), keyword_gnu())
            ==> detect_spec(s) == Some(Toolchain::Gnu),
        !contains_sub(lower_bytes(s), keyword_msvc()) && !contains_sub(lower_bytes(s), keyword_gnu())
            && contains_sub(lower_bytes(s), keyword_musl()) ==> detect_spec(s) == Some(
            Toolchain::Musl,
        ),
        !contains_sub(lower_bytes(s), keyword_msvc()) && !contains_sub(lower_bytes(s), keyword_gnu())
            && !contains_sub(lower_bytes(s), keyword_musl()) ==> detect_spec(s) is None,
{
}

} // verus!
