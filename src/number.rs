//! Decimal text read into integers: plain integers and fixed-point thousandths.
use vstd::prelude::*;

verus! {

/// Digit runs are read exactly below this value; larger runs are held at it.
pub const DIGITS_CAP: u64 = 1_000_000_000_000_000;

/// Whole units a fixed-point value may reach, exclusive.
pub const MAX_UNITS: u64 = 1_000_000_000_000;

pub open spec fn is_digit(c: char) -> bool {
    '0' <= c && c <= '9'
}

pub open spec fn digit_value(c: char) -> int {
    (c as u32) as int - 48
}

pub open spec fn all_digits(s: Seq<char>) -> bool {
    forall|i: int| 0 <= i < s.len() ==> is_digit(#[trigger] s[i])
}

/// The number that a run of decimal digits denotes.
pub open spec fn digits_value(s: Seq<char>) -> int
    decreases s.len(),
{
    if s.len() == 0 {
        0
    } else {
        digits_value(s.drop_last()) * 10 + digit_value(s.last())
    }
}

/// The integer that text denotes: an optional sign, then at least one digit.
pub open spec fn int_value(s: Seq<char>) -> Option<int> {
    let signed = s.len() >= 1 && (s[0] == '-' || s[0] == '+');
    let body = if signed { s.skip(1) } else { s };
    if body.len() >= 1 && all_digits(body) {
        if s[0] == '-' {
            Some(-digits_value(body))
        } else {
            Some(digits_value(body))
        }
    } else {
        None
    }
}

/// The thousandths that the digits after a decimal point give, further digits dropped.
pub open spec fn frac_milli(f: Seq<char>) -> int {
    if f.len() >= 3 {
        digits_value(f.take(3))
    } else if f.len() == 2 {
        digits_value(f) * 10
    } else {
        digits_value(f) * 100
    }
}

/// `k` splits unsigned decimal text into whole digits, a point, and fraction digits.
pub open spec fn point_at(b: Seq<char>, k: int) -> bool {
    1 <= k && k + 1 < b.len() && all_digits(b.take(k)) && b[k] == '.' && all_digits(b.skip(k + 1))
}

/// Thousandths of unsigned decimal text (`ddd` or `ddd.ddd`), when it is below `MAX_UNITS` units.
pub open spec fn unsigned_milli(b: Seq<char>) -> Option<int> {
    if b.len() >= 1 && all_digits(b) {
        if digits_value(b) < MAX_UNITS {
            Some(digits_value(b) * 1000)
        } else {
            None
        }
    } else if exists|k: int| point_at(b, k) {
        let k = choose|k: int| point_at(b, k);
        if digits_value(b.take(k)) < MAX_UNITS {
            Some(digits_value(b.take(k)) * 1000 + frac_milli(b.skip(k + 1)))
        } else {
            None
        }
    } else {
        None
    }
}

/// Thousandths of decimal text with an optional leading minus, truncated toward zero.
pub open spec fn milli_value(s: Seq<char>) -> Option<int> {
    if s.len() >= 1 && s[0] == '-' {
        match unsigned_milli(s.skip(1)) {
            Some(v) => Some(-v),
            None => None,
        }
    } else {
        unsigned_milli(s)
    }
}

pub proof fn lemma_digits_nonneg(s: Seq<char>)
    requires
        all_digits(s),
    ensures
        digits_value(s) >= 0,
    decreases s.len(),
{
    if s.len() > 0 {
        assert(all_digits(s.drop_last())) by {
            assert forall|i: int| 0 <= i < s.drop_last().len() implies is_digit(
                #[trigger] s.drop_last()[i],
            ) by {
                assert(s.drop_last()[i] == s[i]);
            }
        }
        lemma_digits_nonneg(s.drop_last());
        assert(is_digit(s[s.len() - 1]));
    }
}

proof fn lemma_point_unique(b: Seq<char>, k1: int, k2: int)
    requires
        point_at(b, k1),
        point_at(b, k2),
    ensures
        k1 == k2,
{
    if k1 < k2 {
        assert(b.take(k2)[k1] == b[k1]);
    } else if k2 < k1 {
        assert(b.take(k1)[k2] == b[k2]);
    }
}

/// Reads the digits `s[from..to]`; `None` when one of them is not a digit.
fn digits_capped(s: &str, from: usize, to: usize) -> (r: Option<u64>)
    requires
        from <= to <= s@.len(),
    ensures
        match r {
            Some(v) => all_digits(s@.subrange(from as int, to as int)) && v == (if digits_value(
                s@.subrange(from as int, to as int),
            ) < DIGITS_CAP {
                digits_value(s@.subrange(from as int, to as int))
            } else {
                DIGITS_CAP as int
            }),
            None => !all_digits(s@.subrange(from as int, to as int)),
        },
{
    let mut acc: u64 = 0;
    let mut i: usize = from;
    while i < to
        invariant
            from <= i <= to,
            to <= s@.len(),
            all_digits(s@.subrange(from as int, i as int)),
            acc == (if digits_value(s@.subrange(from as int, i as int)) < DIGITS_CAP {
                digits_value(s@.subrange(from as int, i as int))
            } else {
                DIGITS_CAP as int
            }),
        decreases to - i,
    {
        let c = s.get_char(i);
        if !('0' <= c && c <= '9') {
            assert(s@.subrange(from as int, to as int)[i - from] == c);
            return None;
        }
        let ghost pre = s@.subrange(from as int, i as int);
        let ghost next = s@.subrange(from as int, i as int + 1);
        proof {
            assert(next.drop_last() =~= pre);
            assert(next.last() == c);
            lemma_digits_nonneg(pre);
            assert(all_digits(next)) by {
                assert forall|j: int| 0 <= j < next.len() implies is_digit(#[trigger] next[j]) by {
                    if j < pre.len() {
                        assert(next[j] == pre[j]);
                    }
                }
            }
        }
        let d: u64 = (c as u32 - 48) as u64;
        if acc < DIGITS_CAP {
            let n = acc * 10 + d;
            if n < DIGITS_CAP {
                acc = n;
            } else {
                acc = DIGITS_CAP;
            }
        } else {
            proof {
                assert(digits_value(pre) * 10 + d >= DIGITS_CAP) by (nonlinear_arith)
                    requires
                        digits_value(pre) >= DIGITS_CAP,
                        d >= 0,
                ;
            }
        }
        i = i + 1;
    }
    Some(acc)
}

/// Reads a decimal `i32`: an optional `+` or `-`, then digits; `None` otherwise
/// or when the value does not fit.
pub fn parse_i32(s: &str) -> (r: Option<i32>)
    ensures
        r == (match int_value(s@) {
            Some(v) => if i32::MIN <= v && v <= i32::MAX {
                Some(v as i32)
            } else {
                None
            },
            None => None,
        }),
{
    let n = s.unicode_len();
    if n == 0 {
        return None;
    }
    let c0 = s.get_char(0);
    let st: usize = if c0 == '-' || c0 == '+' {
        1
    } else {
        0
    };
    if st >= n {
        return None;
    }
    proof {
        assert(s@.subrange(st as int, n as int) =~= (if st == 1 {
            s@.skip(1)
        } else {
            s@
        }));
    }
    match digits_capped(s, st, n) {
        None => None,
        Some(v) => {
            if c0 == '-' {
                if v <= 2147483648 {
                    Some((0 - (v as i64)) as i32)
                } else {
                    None
                }
            } else {
                if v <= 2147483647 {
                    Some(v as i32)
                } else {
                    None
                }
            }
        },
    }
}

/// Reads decimal text (`-`? digits, then `.` and digits optionally) into
/// thousandths, truncating further fraction digits toward zero.
#[verifier::rlimit(60)]
pub fn parse_milli(s: &str) -> (r: Option<i64>)
    ensures
        match r {
            Some(x) => milli_value(s@) == Some(x as int) && -1_000_000_000_000_000 < x
                < 1_000_000_000_000_000,
            None => milli_value(s@) is None,
        },
{
    let n = s.unicode_len();
    let neg = n >= 1 && s.get_char(0) == '-';
    let st: usize = if neg {
        1
    } else {
        0
    };
    let ghost b = if neg {
        s@.skip(1)
    } else {
        s@
    };
    let mut k: usize = st;
    let mut stop = false;
    while k < n && !stop
        invariant
            st <= k <= n,
            n == s@.len(),
            forall|j: int| st <= j < k ==> is_digit(#[trigger] s@[j]),
            stop ==> k < n && !is_digit(s@[k as int]),
        decreases n - k + (if stop { 0int } else { 1int }),
    {
        let c = s.get_char(k);
        if '0' <= c && c <= '9' {
            k = k + 1;
        } else {
            stop = true;
        }
    }
    proof {
        assert(b =~= s@.subrange(st as int, n as int));
        assert(b.take(k - st) =~= s@.subrange(st as int, k as int));
        assert(all_digits(b.take(k - st))) by {
            assert forall|j: int| 0 <= j < b.take(k - st).len() implies is_digit(
                #[trigger] b.take(k - st)[j],
            ) by {
                assert(b.take(k - st)[j] == s@[st + j]);
            }
        }
    }
    let whole: u64;
    let frac: u64;
    if k == n {
        if k == st {
            return None;
        }
        proof {
            assert(b.take(k - st) =~= b);
        }
        match digits_capped(s, st, n) {
            None => {
                return None;
            },
            Some(v) => {
                whole = v;
            },
        }
        frac = 0;
    } else {
        let c = s.get_char(k);
        proof {
            assert(b[k - st] == s@[k as int]);
            assert(!all_digits(b));
            assert forall|k2: int| point_at(b, k2) implies k2 == k - st by {
                if point_at(b, k2) {
                    if k2 < k - st {
                        assert(is_digit(b[k2]));
                    } else if k2 > k - st {
                        assert(b.take(k2)[k - st] == b[k - st]);
                    }
                }
            }
        }
        if c != '.' || k == st || k + 1 >= n {
            return None;
        }
        let ghost kk: int = k - st;
        proof {
            assert(b.skip(kk + 1) =~= s@.subrange(k as int + 1, n as int));
        }
        match digits_capped(s, k + 1, n) {
            None => {
                return None;
            },
            Some(_) => {},
        }
        proof {
            assert(point_at(b, kk));
            let kc = choose|k2: int| point_at(b, k2);
            lemma_point_unique(b, kc, kk);
        }
        match digits_capped(s, st, k) {
            None => {
                return None;
            },
            Some(v) => {
                whole = v;
            },
        }
        let fend: usize = if n - (k + 1) >= 3 {
            k + 4
        } else {
            n
        };
        let f3 = digits_capped(s, k + 1, fend);
        let ghost fs = b.skip(kk + 1);
        proof {
            assert(s@.subrange(k as int + 1, fend as int) =~= (if fs.len() >= 3 {
                fs.take(3)
            } else {
                fs
            }));
            assert(all_digits(s@.subrange(k as int + 1, fend as int))) by {
                assert forall|j: int| 0 <= j < fend - (k + 1) implies is_digit(
                    #[trigger] s@.subrange(k as int + 1, fend as int)[j],
                ) by {
                    assert(s@.subrange(k as int + 1, fend as int)[j] == fs[j]);
                }
            }
            lemma_digits_len_bound(s@.subrange(k as int + 1, fend as int));
        }
        let f = match f3 {
            Some(f) => f,
            None => 0,
        };
        if n - (k + 1) >= 3 {
            frac = f;
        } else if n - (k + 1) == 2 {
            frac = f * 10;
        } else {
            frac = f * 100;
        }
    }
    if whole >= MAX_UNITS {
        return None;
    }
    let v: i64 = (whole * 1000 + frac) as i64;
    if neg {
        Some(0 - v)
    } else {
        Some(v)
    }
}

/// A run of at most three digits is below a thousand.
proof fn lemma_digits_len_bound(s: Seq<char>)
    requires
        all_digits(s),
        s.len() <= 3,
    ensures
        0 <= digits_value(s) < 1000,
        s.len() <= 2 ==> digits_value(s) < 100,
        s.len() <= 1 ==> digits_value(s) < 10,
    decreases s.len(),
{
    lemma_digits_nonneg(s);
    if s.len() > 0 {
        assert(all_digits(s.drop_last())) by {
            assert forall|i: int| 0 <= i < s.drop_last().len() implies is_digit(
                #[trigger] s.drop_last()[i],
            ) by {
                assert(s.drop_last()[i] == s[i]);
            }
        }
        lemma_digits_len_bound(s.drop_last());
        assert(is_digit(s[s.len() - 1]));
    }
}

} // verus!
