//! Pure helpers for the render-context negotiation: deciding whether a
//! required extension occurs in the platform's space-separated extension
//! list, and packing a queried major/minor version pair into one code.

use vstd::prelude::*;
use vstd::string::StrSliceExecFns;

verus! {

/// The characters `i..j` of `s` form one token of the space-separated list:
/// they contain no space, and each side is a space or an end of `s`.
pub open spec fn spec_token_at(s: Seq<char>, i: int, j: int) -> bool {
    &&& 0 <= i <= j <= s.len()
    &&& (i == 0 || s[i - 1] == ' ')
    &&& (j == s.len() || s[j] == ' ')
    &&& forall|k: int| i <= k < j ==> s[k] != ' '
}

/// Some token of the space-separated list `s` is exactly `w`.
pub open spec fn spec_has_token(s: Seq<char>, w: Seq<char>) -> bool {
    exists|i: int, j: int| spec_token_at(s, i, j) && s.subrange(i, j) == w
}

/// Whether the characters `start..end` of `s` are exactly `w`.
fn segment_matches(s: &str, start: usize, end: usize, w: &str) -> (r: bool)
    requires
        start <= end <= s@.len(),
    ensures
        r == (s@.subrange(start as int, end as int) == w@),
{
    let n = w.unicode_len();
    if end - start != n {
        proof {
            assert(s@.subrange(start as int, end as int).len() == end - start);
        }
        return false;
    }
    let mut k: usize = 0;
    while k < n
        invariant
            start <= end <= s@.len(),
            end - start == n,
            n == w@.len(),
            k <= n,
            forall|t: int| 0 <= t < k ==> s@[start + t] == w@[t],
        decreases n - k,
    {
        if s.get_char(start + k) != w.get_char(k) {
            proof {
                assert(s@.subrange(start as int, end as int)[k as int] == s@[start + k]);
            }
            return false;
        }
        k = k + 1;
    }
    proof {
        assert(s@.subrange(start as int, end as int) =~= w@);
    }
    true
}

/// Any token of `s` that ends at `j` begins at `start`, provided `start` is
/// itself a token start and `start..j` holds no space.
proof fn lemma_token_start_unique(s: Seq<char>, start: int, j: int, a: int)
    requires
        0 <= start <= j <= s.len(),
        start == 0 || s[start - 1] == ' ',
        forall|k: int| start <= k < j ==> s[k] != ' ',
        spec_token_at(s, a, j),
    ensures
        a == start,
{
    if a < start {
        assert(s[start - 1] == ' ');
        assert(a <= start - 1 < j);
    } else if a > start {
        assert(s[a - 1] == ' ');
        assert(start <= a - 1 < j);
    }
}

/// Whether `ext_name` occurs as one of the space-separated tokens of the
/// extension list `glx_exts`. The context negotiation refuses to proceed
/// when a required extension is absent from the platform's list.
pub fn check_glx_extension(glx_exts: &str, ext_name: &str) -> (r: bool)
    ensures
        r == spec_has_token(glx_exts@, ext_name@),
{
    let n = glx_exts.unicode_len();
    let mut start: usize = 0;
    let mut i: usize = 0;
    while i < n
        invariant
            start <= i <= n,
            n == glx_exts@.len(),
            start == 0 || glx_exts@[start - 1] == ' ',
            forall|k: int| start <= k < i ==> glx_exts@[k] != ' ',
            forall|a: int, b: int|
                spec_token_at(glx_exts@, a, b) && b < i ==> glx_exts@.subrange(a, b) != ext_name@,
        decreases n - i,
    {
        if glx_exts.get_char(i) == ' ' {
            if segment_matches(glx_exts, start, i, ext_name) {
                proof {
                    assert(spec_token_at(glx_exts@, start as int, i as int) && glx_exts@.subrange(
                        start as int,
                        i as int,
                    ) == ext_name@);
                }
                return true;
            }
            proof {
                assert forall|a: int, b: int|
                    spec_token_at(glx_exts@, a, b) && b < i + 1 implies glx_exts@.subrange(a, b)
                    != ext_name@ by {
                    if b == i {
                        lemma_token_start_unique(glx_exts@, start as int, i as int, a);
                    }
                }
            }
            start = i + 1;
        }
        i = i + 1;
    }
    if segment_matches(glx_exts, start, n, ext_name) {
        proof {
            assert(spec_token_at(glx_exts@, start as int, n as int) && glx_exts@.subrange(
                start as int,
                n as int,
            ) == ext_name@);
        }
        true
    } else {
        proof {
            assert forall|a: int, b: int|
                spec_token_at(glx_exts@, a, b) implies glx_exts@.subrange(a, b) != ext_name@ by {
                if b == n {
                    lemma_token_start_unique(glx_exts@, start as int, n as int, a);
                }
            }
        }
        false
    }
}

/// Packs a queried version pair into one code: ten times the major version
/// plus the minor version, as the context negotiation compares it.
pub fn glx_version_code(major: i32, minor: i32) -> (code: i32)
    requires
        i32::MIN <= major * 10 <= i32::MAX,
        i32::MIN <= major * 10 + minor <= i32::MAX,
    ensures
        code == major * 10 + minor,
{
    major * 10 + minor
}

} // verus!
