//! Process-wide settings: the origin base URL and the cache TTL.
//!
//! The caller reads the raw override values (if any) from its environment
//! and hands them in as plain strings; building the final settings, with
//! defaulting and numeric parsing, is verified here.

use vstd::prelude::*;
use vstd::string::StrSliceExecFns;

verus! {

/// Default cache TTL in milliseconds (six hours).
pub const DEFAULT_LOCAL_CACHE_TTL_MS: u64 = 21600000;

/// The origin base URL used when no override is supplied.
pub open spec fn spec_default_image_host_base_url() -> Seq<char> {
    "https://raw.githubusercontent.com/Poke-cord/images/main/"@
}

/// The origin base URL used when no override is supplied.
pub fn default_image_host_base_url() -> (r: String)
    ensures
        r@ == spec_default_image_host_base_url(),
{
    "https://raw.githubusercontent.com/Poke-cord/images/main/".to_owned()
}

/// An ASCII decimal digit.
pub open spec fn is_ascii_digit_char(c: char) -> bool {
    48 <= (c as u32) && (c as u32) <= 57
}

/// Every character of `s` is an ASCII decimal digit.
pub open spec fn spec_all_digits(s: Seq<char>) -> bool {
    forall|i: int| 0 <= i < s.len() ==> is_ascii_digit_char(#[trigger] s[i])
}

/// Value of a digit string read as a base-10 number.
pub open spec fn spec_digits_value(s: Seq<char>) -> int
    decreases s.len(),
{
    if s.len() == 0 {
        0
    } else {
        spec_digits_value(s.drop_last()) * 10 + ((s.last() as u32) - 48)
    }
}

/// What `str::parse::<u64>` accepts: an optional leading `+`, then one or
/// more ASCII digits whose value fits in a `u64`.
pub open spec fn spec_parse_u64(s: Seq<char>) -> Option<u64> {
    let digits = if s.len() > 0 && s[0] == '+' {
        s.subrange(1, s.len() as int)
    } else {
        s
    };
    if digits.len() > 0 && spec_all_digits(digits) && spec_digits_value(digits) <= u64::MAX {
        Some(spec_digits_value(digits) as u64)
    } else {
        None
    }
}

proof fn lemma_digits_value_nonneg(s: Seq<char>)
    requires
        spec_all_digits(s),
    ensures
        spec_digits_value(s) >= 0,
    decreases s.len(),
{
    if s.len() > 0 {
        assert(spec_all_digits(s.drop_last()));
        lemma_digits_value_nonneg(s.drop_last());
    }
}

proof fn lemma_digits_value_prefix_le(s: Seq<char>, j: int)
    requires
        spec_all_digits(s),
        0 <= j <= s.len(),
    ensures
        spec_digits_value(s.take(j)) <= spec_digits_value(s),
    decreases s.len() - j,
{
    if j < s.len() {
        assert(s.take(j + 1).drop_last() =~= s.take(j));
        assert(s.take(j + 1).last() == s[j]);
        assert(spec_all_digits(s.take(j)));
        lemma_digits_value_nonneg(s.take(j));
        lemma_digits_value_prefix_le(s, j + 1);
    } else {
        assert(s.take(j) =~= s);
    }
}

/// Parse a decimal `u64` exactly as `str::parse::<u64>` does: `None` on an
/// empty string, a non-digit character, or a value that does not fit.
pub fn parse_u64(s: &str) -> (r: Option<u64>)
    ensures
        r == spec_parse_u64(s@),
{
    let n = s.unicode_len();
    let start: usize = if n > 0 && s.get_char(0) == '+' {
        1
    } else {
        0
    };
    let ghost digits: Seq<char> = if start == 1 {
        s@.subrange(1, s@.len() as int)
    } else {
        s@
    };
    if n == start {
        return None;
    }
    let mut val: u64 = 0;
    let mut i: usize = start;
    while i < n
        invariant
            start <= i <= n,
            n == s@.len(),
            start == 0 || start == 1,
            start == 1 ==> s@.len() > 0 && s@[0] == '+',
            start == 0 ==> !(s@.len() > 0 && s@[0] == '+'),
            n > start,
            digits == (if start == 1 {
                s@.subrange(1, s@.len() as int)
            } else {
                s@
            }),
            spec_all_digits(digits.take(i - start)),
            val == spec_digits_value(digits.take(i - start)),
        decreases n - i,
    {
        let c = s.get_char(i);
        let u = c as u32;
        let ghost k: int = i - start;
        proof {
            assert(digits[k] == s@[i as int]);
        }
        if u < 48 || u > 57 {
            proof {
                assert(!is_ascii_digit_char(digits[k]));
            }
            return None;
        }
        let d: u64 = (u - 48) as u64;
        let ghost prefix = digits.take(k);
        let ghost prefix1 = digits.take(k + 1);
        proof {
            assert(prefix1.drop_last() =~= prefix);
            assert(prefix1.last() == digits[k]);
            assert(spec_all_digits(prefix1));
            assert(spec_digits_value(prefix1) == val * 10 + d);
        }
        let next = match val.checked_mul(10) {
            Some(v10) => v10.checked_add(d),
            None => None,
        };
        match next {
            Some(v) => {
                val = v;
            },
            None => {
                proof {
                    assert(spec_digits_value(prefix1) > u64::MAX);
                    if spec_all_digits(digits) {
                        lemma_digits_value_prefix_le(digits, k + 1);
                        assert(spec_digits_value(digits) > u64::MAX);
                    }
                }
                return None;
            },
        }
        i = i + 1;
    }
    proof {
        assert(digits.take(n - start) =~= digits);
    }
    Some(val)
}

/// The configuration the pipeline runs under: where to fetch images from,
/// and how long a cached file stays fresh.
#[derive(Clone, Debug)]
pub struct Settings {
    image_host_base_url: String,
    local_cache_ttl_ms: u64,
}

impl Settings {
    /// The configured origin base URL.
    pub closed spec fn spec_base_url(self) -> Seq<char> {
        self.image_host_base_url@
    }

    /// The configured TTL in milliseconds.
    pub closed spec fn spec_ttl_ms(self) -> u64 {
        self.local_cache_ttl_ms
    }

    /// Build settings from optional override values, as the caller read them
    /// from its environment: a missing base URL falls back to the default,
    /// and a missing or unparsable TTL falls back to the default TTL.
    pub fn from_values(base_url: Option<String>, ttl_ms_text: Option<String>) -> (s: Settings)
        ensures
            (match base_url {
                Some(u) => s.spec_base_url() == u@,
                None => s.spec_base_url() == spec_default_image_host_base_url(),
            }),
            (match ttl_ms_text {
                Some(t) => (match spec_parse_u64(t@) {
                    Some(v) => s.spec_ttl_ms() == v,
                    None => s.spec_ttl_ms() == DEFAULT_LOCAL_CACHE_TTL_MS,
                }),
                None => s.spec_ttl_ms() == DEFAULT_LOCAL_CACHE_TTL_MS,
            }),
    {
        let image_host_base_url = match base_url {
            Some(u) => u,
            None => default_image_host_base_url(),
        };
        let local_cache_ttl_ms = match ttl_ms_text {
            Some(t) => match parse_u64(t.as_str()) {
                Some(v) => v,
                None => DEFAULT_LOCAL_CACHE_TTL_MS,
            },
            None => DEFAULT_LOCAL_CACHE_TTL_MS,
        };
        Settings { image_host_base_url, local_cache_ttl_ms }
    }

    /// The configured origin base URL.
    pub fn image_host_base_url(&self) -> (r: &str)
        ensures
            r@ == self.spec_base_url(),
    {
        self.image_host_base_url.as_str()
    }

    /// The configured cache TTL, in milliseconds.
    pub fn local_cache_ttl(&self) -> (r: u64)
        ensures
            r == self.spec_ttl_ms(),
    {
        self.local_cache_ttl_ms
    }
}

} // verus!
