//! Whether the libobs version string that the loaded library reports is one this crate
//! was built for: a `major.minor.patch` string whose major number is the expected one.
use vstd::prelude::*;
use crate::text::{decimal, digit_char};

verus! {

/// The number a non-empty run of ASCII digits stands for.
pub open spec fn digits_value(s: Seq<char>) -> nat
    decreases s.len(),
{
    if s.len() == 0 {
        0
    } else {
        digits_value(s.drop_last()) * 10 + ((s.last() as nat) - ('0' as nat)) as nat
    }
}

/// Every character is an ASCII digit.
pub open spec fn all_digits(s: Seq<char>) -> bool {
    forall|i: int| 0 <= i < s.len() ==> '0' <= #[trigger] s[i] <= '9'
}

/// What parsing `s` as a `u64` gives: an optional `+`, then at least one ASCII digit and
/// nothing else, for a number that fits in 64 bits.
pub open spec fn parse_u64(s: Seq<char>) -> Option<u64> {
    let digits = if s.len() > 0 && s[0] == '+' {
        s.drop_first()
    } else {
        s
    };
    if digits.len() == 0 || !all_digits(digits) || digits_value(digits) > u64::MAX {
        None
    } else {
        Some(digits_value(digits) as u64)
    }
}

/// The number of `.` characters in `s`.
pub open spec fn dot_count(s: Seq<char>) -> nat
    decreases s.len(),
{
    if s.len() == 0 {
        0
    } else {
        dot_count(s.drop_last()) + if s.last() == '.' {
            1nat
        } else {
            0nat
        }
    }
}

/// The text before the first `.` of `s` (all of `s` where it has none).
pub open spec fn before_first_dot(s: Seq<char>) -> Seq<char>
    decreases s.len(),
{
    if s.len() == 0 {
        s
    } else {
        let head = before_first_dot(s.drop_last());
        if head.len() < s.len() - 1 || s.last() == '.' {
            head
        } else {
            s
        }
    }
}

/// A version string is compatible when it splits at `.` into exactly three parts and the
/// first part parses as the expected major version.
pub open spec fn version_compatible(version: Seq<char>, expected_major: u64) -> bool {
    dot_count(version) == 2 && parse_u64(before_first_dot(version)) == Some(expected_major)
}

proof fn lemma_before_first_dot_prefix(s: Seq<char>)
    ensures
        before_first_dot(s).len() <= s.len(),
        before_first_dot(s) =~= s.subrange(0, before_first_dot(s).len() as int),
        forall|i: int| 0 <= i < before_first_dot(s).len() ==> s[i] != '.',
        before_first_dot(s).len() < s.len() ==> s[before_first_dot(s).len() as int] == '.',
    decreases s.len(),
{
    if s.len() > 0 {
        let t = s.drop_last();
        lemma_before_first_dot_prefix(t);
        assert forall|i: int| 0 <= i < t.len() implies t[i] == s[i] by {}
    }
}

/// Parses `s` as `u64::from_str` does: an optional `+`, then one or more ASCII digits for a
/// number that fits in 64 bits.
pub fn parse_u64_decimal(s: &str) -> (r: Option<u64>)
    ensures
        r == parse_u64(s@),
{
    let n = s.unicode_len();
    let mut i: usize = 0;
    if n > 0 && s.get_char(0) == '+' {
        i = 1;
    }
    let start = i;
    let ghost digits = s@.subrange(start as int, n as int);
    proof {
        if n > 0 && s@[0] == '+' {
            assert(digits =~= s@.drop_first());
        } else {
            assert(digits =~= s@);
        }
    }
    if start == n {
        return None;
    }
    let mut value: u64 = 0;
    let mut overflow = false;
    while i < n
        invariant
            n == s@.len(),
            start <= i <= n,
            start < n,
            digits == s@.subrange(start as int, n as int),
            digits == (if s@.len() > 0 && s@[0] == '+' {
                s@.drop_first()
            } else {
                s@
            }),
            all_digits(s@.subrange(start as int, i as int)),
            !overflow ==> value == digits_value(s@.subrange(start as int, i as int)),
            overflow ==> digits_value(s@.subrange(start as int, i as int)) > u64::MAX,
        decreases n - i,
    {
        let c = s.get_char(i);
        if c < '0' || c > '9' {
            proof {
                assert(digits[i - start] == c);
            }
            return None;
        }
        let ghost prev = s@.subrange(start as int, i as int);
        let ghost next = s@.subrange(start as int, i + 1);
        proof {
            assert(next.drop_last() =~= prev);
            assert(next.last() == c);
            assert forall|k: int| 0 <= k < next.len() implies '0' <= #[trigger] next[k] <= '9' by {
                if k < prev.len() {
                    assert(next[k] == prev[k]);
                }
            }
        }
        let d = (c as u32 - '0' as u32) as u64;
        if !overflow {
            if value > (u64::MAX - d) / 10 {
                overflow = true;
                proof {
                    assert(digits_value(next) == value * 10 + d);
                    assert(value * 10 + d > u64::MAX) by (nonlinear_arith)
                        requires
                            value > (u64::MAX - d) / 10,
                            d <= 9,
                    ;
                }
            } else {
                proof {
                    assert(value * 10 + d <= u64::MAX) by (nonlinear_arith)
                        requires
                            value <= (u64::MAX - d) / 10,
                            d <= 9,
                    ;
                }
                value = value * 10 + d;
            }
        } else {
            proof {
                assert(digits_value(next) >= digits_value(prev) * 10);
                assert(digits_value(prev) * 10 >= digits_value(prev)) by (nonlinear_arith);
            }
        }
        i = i + 1;
    }
    if overflow {
        None
    } else {
        Some(value)
    }
}

/// Whether version string `version` (`None` where libobs reports none) is
/// `major.minor.patch` with major number `expected_major`.
pub fn version_is_compatible(version: Option<&str>, expected_major: u64) -> (r: bool)
    ensures
        r == match version {
            Some(v) => version_compatible(v@, expected_major),
            None => false,
        },
        r <==> (version is Some && dot_count(version->0@) == 2 && parse_u64(
            before_first_dot(version->0@),
        ) == Some(expected_major)),
{
    let v = match version {
        Some(v) => v,
        None => return false,
    };
    let n = v.unicode_len();
    let mut dots: usize = 0;
    let mut first_dot: usize = n;
    let mut i: usize = 0;
    while i < n
        invariant
            n == v@.len(),
            i <= n,
            dots == dot_count(v@.subrange(0, i as int)),
            dots <= i,
            first_dot == if before_first_dot(v@.subrange(0, i as int)).len() < i {
                before_first_dot(v@.subrange(0, i as int)).len()
            } else {
                n as nat
            },
        decreases n - i,
    {
        let c = v.get_char(i);
        let ghost prev = v@.subrange(0, i as int);
        let ghost next = v@.subrange(0, i + 1);
        proof {
            assert(next.drop_last() =~= prev);
            lemma_before_first_dot_prefix(prev);
        }
        if c == '.' {
            dots = dots + 1;
            if first_dot == n {
                first_dot = i;
            }
        }
        i = i + 1;
    }
    proof {
        assert(v@.subrange(0, n as int) =~= v@);
        lemma_before_first_dot_prefix(v@);
    }
    if dots != 2 {
        return false;
    }
    let head = v.substring_char(0, first_dot);
    proof {
        assert(head@ =~= before_first_dot(v@));
    }
    match parse_u64_decimal(head) {
        Some(major) => major == expected_major,
        None => false,
    }
}

/// A version string is compatible with at most one major version: the one its text before
/// the first `.` parses to.
pub proof fn law_one_major_per_version(v: Seq<char>, m1: u64, m2: u64)
    ensures
        version_compatible(v, m1) && version_compatible(v, m2) ==> m1 == m2,
        version_compatible(v, m1) ==> parse_u64(before_first_dot(v)) == Some(m1),
{
}

proof fn lemma_digit_char(d: nat)
    requires
        d < 10,
    ensures
        '0' <= digit_char(d) <= '9',
        (digit_char(d) as nat) - ('0' as nat) == d,
        digit_char(d) != '.',
        digit_char(d) != '+',
{
    let ds = seq!['0', '1', '2', '3', '4', '5', '6', '7', '8', '9'];
    assert(digit_char(d) == ds[d as int]);
}

proof fn lemma_decimal_digits(n: nat)
    ensures
        decimal(n).len() > 0,
        all_digits(decimal(n)),
        digits_value(decimal(n)) == n,
        dot_count(decimal(n)) == 0,
        decimal(n)[0] != '+',
        forall|i: int| 0 <= i < decimal(n).len() ==> (#[trigger] decimal(n)[i]) != '.',
    decreases n,
{
    if n < 10 {
        lemma_digit_char(n);
        let s = decimal(n);
        assert(s.drop_last() =~= Seq::<char>::empty());
        assert(dot_count(s.drop_last()) == 0);
        assert(digits_value(s.drop_last()) == 0);
    } else {
        lemma_decimal_digits(n / 10);
        lemma_digit_char(n % 10);
        let t = decimal(n / 10);
        let s = decimal(n);
        assert(s == t.push(digit_char(n % 10)));
        assert(s.drop_last() =~= t);
        assert forall|i: int| 0 <= i < s.len() implies '0' <= #[trigger] s[i] <= '9' by {
            if i < t.len() {
                assert(s[i] == t[i]);
            }
        }
        assert forall|i: int| 0 <= i < s.len() implies (#[trigger] s[i]) != '.' by {
            if i < t.len() {
                assert(s[i] == t[i]);
            }
        }
        assert(s[0] == t[0]);
        assert(digits_value(s) == digits_value(t) * 10 + (n % 10));
        assert((n / 10) * 10 + n % 10 == n) by (nonlinear_arith);
    }
}

proof fn lemma_dot_count_concat(a: Seq<char>, b: Seq<char>)
    ensures
        dot_count(a + b) == dot_count(a) + dot_count(b),
    decreases b.len(),
{
    if b.len() > 0 {
        lemma_dot_count_concat(a, b.drop_last());
        assert((a + b).drop_last() =~= a + b.drop_last());
        assert((a + b).last() == b.last());
    } else {
        assert(a + b =~= a);
    }
}

proof fn lemma_before_first_dot_concat(a: Seq<char>, b: Seq<char>)
    requires
        forall|i: int| 0 <= i < a.len() ==> a[i] != '.',
        b.len() > 0,
        b[0] == '.',
    ensures
        before_first_dot(a + b) == a,
    decreases b.len(),
{
    lemma_before_first_dot_prefix(a + b);
    let h = before_first_dot(a + b);
    let s = a + b;
    if h.len() < a.len() {
        assert(s[h.len() as int] == a[h.len() as int]);
    } else if h.len() > a.len() {
        assert(s[a.len() as int] == b[0]);
    }
    assert(h =~= s.subrange(0, a.len() as int));
    assert(h =~= a);
}

/// A version written `major.minor.patch` in decimal is compatible exactly with its own
/// major number.
pub proof fn law_written_version_matches_its_major(major: u64, minor: nat, patch: nat, m: u64)
    ensures
        version_compatible(decimal(major as nat) + "."@ + decimal(minor) + "."@ + decimal(patch), m)
            <==> m == major,
{
    reveal_strlit(".");
    let dot: Seq<char> = "."@;
    let a = decimal(major as nat);
    let v = a + dot + decimal(minor) + dot + decimal(patch);
    lemma_decimal_digits(major as nat);
    lemma_decimal_digits(minor);
    lemma_decimal_digits(patch);
    assert(dot_count(dot) == 1) by {
        assert(dot.len() == 1 && dot[0] == '.');
        assert(dot.drop_last() =~= Seq::<char>::empty());
        assert(dot_count(Seq::<char>::empty()) == 0);
    }
    lemma_dot_count_concat(a, dot);
    lemma_dot_count_concat(a + dot, decimal(minor));
    lemma_dot_count_concat(a + dot + decimal(minor), dot);
    lemma_dot_count_concat(a + dot + decimal(minor) + dot, decimal(patch));
    assert(dot_count(v) == 2);
    let rest = dot + decimal(minor) + dot + decimal(patch);
    assert(v =~= a + rest);
    assert(rest[0] == '.');
    lemma_before_first_dot_concat(a, rest);
    assert(before_first_dot(v) == a);
    assert(parse_u64(a) == Some(major));
}

} // verus!
