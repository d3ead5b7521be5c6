//! Reading the gross amount the payment gateway reports, a decimal text such
//! as `10000.00`, as whole currency units.

use vstd::prelude::*;
use vstd::string::StrSliceExecFns;

verus! {

pub open spec fn is_digit(c: char) -> bool {
    '0' <= c && c <= '9'
}

pub open spec fn all_digits(s: Seq<char>) -> bool {
    forall|j: int| 0 <= j < s.len() ==> is_digit(#[trigger] s[j])
}

/// Value of a run of decimal digits.
pub open spec fn digits_value(s: Seq<char>) -> nat
    decreases s.len(),
{
    if s.len() == 0 {
        0
    } else {
        digits_value(s.drop_last()) * 10 + (s.last() as nat - '0' as nat) as nat
    }
}

/// `s` reads as `k` digits, optionally followed by a point and more digits.
pub open spec fn amount_split(s: Seq<char>, k: int) -> bool {
    &&& 0 < k <= s.len()
    &&& all_digits(s.take(k))
    &&& (k == s.len() || (s[k] == '.' && all_digits(s.skip(k + 1))))
}

/// The whole units of a decimal amount text; `None` when the text is not of
/// the form `digits` or `digits.digits`, or its whole part exceeds `u64`.
/// The fractional digits are not counted.
pub open spec fn amount_of_text(s: Seq<char>) -> Option<u64> {
    if exists|k: int| amount_split(s, k) {
        let k = choose|k: int| amount_split(s, k);
        if digits_value(s.take(k)) <= u64::MAX {
            Some(digits_value(s.take(k)) as u64)
        } else {
            None
        }
    } else {
        None
    }
}

/// A text has at most one split point: where its leading digits end.
pub proof fn lemma_split_at(s: Seq<char>, i: int)
    requires
        0 <= i <= s.len(),
        all_digits(s.take(i)),
        i == s.len() || !is_digit(s[i]),
    ensures
        forall|k: int| amount_split(s, k) ==> k == i,
{
    assert forall|k: int| amount_split(s, k) implies k == i by {
        if k < i {
            assert(s.take(i)[k] == s[k]);
        } else if k > i {
            assert(s.take(k)[i] == s[i]);
        }
    }
}

/// Reads a gross amount text as whole currency units.
pub fn parse_amount(s: &str) -> (r: Option<u64>)
    ensures
        r == amount_of_text(s@),
{
    let n = s.unicode_len();
    let mut i: usize = 0;
    let mut value: u64 = 0;
    let mut overflow = false;
    while i < n
        invariant
            n == s@.len(),
            i <= n,
            all_digits(s@.take(i as int)),
            !overflow ==> value as nat == digits_value(s@.take(i as int)),
            overflow ==> digits_value(s@.take(i as int)) > u64::MAX,
        ensures
            i == n || !is_digit(s@[i as int]),
        decreases n - i,
    {
        let c = s.get_char(i);
        if !('0' <= c && c <= '9') {
            break;
        }
        let d = (c as u32 - '0' as u32) as u64;
        proof {
            assert(s@.take(i as int + 1).drop_last() =~= s@.take(i as int));
            assert(s@.take(i as int + 1).last() == c);
            assert forall|j: int| 0 <= j < i + 1 implies is_digit(#[trigger] s@.take(i as int + 1)[j]) by {
                if j < i {
                    assert(s@.take(i as int + 1)[j] == s@.take(i as int)[j]);
                }
            }
        }
        if overflow || value > (u64::MAX - d) / 10 {
            overflow = true;
        } else {
            value = value * 10 + d;
        }
        i += 1;
    }
    proof {
        lemma_split_at(s@, i as int);
    }
    if i == 0 || overflow {
        return None;
    }
    if i < n {
        if s.get_char(i) != '.' {
            return None;
        }
        let mut j: usize = i + 1;
        while j < n
            invariant
                n == s@.len(),
                i < j <= n,
                forall|k: int| amount_split(s@, k) ==> k == i,
                forall|k: int| i + 1 <= k < j ==> is_digit(#[trigger] s@[k]),
            decreases n - j,
        {
            let c = s.get_char(j);
            if !('0' <= c && c <= '9') {
                proof {
                    assert(s@.skip(i as int + 1)[j - i - 1] == c);
                    assert(!amount_split(s@, i as int));
                }
                return None;
            }
            j += 1;
        }
        proof {
            assert forall|k: int| 0 <= k < s@.skip(i as int + 1).len()
                implies is_digit(#[trigger] s@.skip(i as int + 1)[k]) by {
                assert(s@.skip(i as int + 1)[k] == s@[k + i + 1]);
            }
            assert(amount_split(s@, i as int));
        }
    } else {
        proof {
            assert(amount_split(s@, i as int));
        }
    }
    Some(value)
}

/// Whole units a transaction was settled for; zero while the gateway has not
/// reported a readable amount.
pub open spec fn settled_amount(gross: Option<String>) -> nat {
    match gross {
        Some(g) => match amount_of_text(g@) {
            Some(x) => x as nat,
            None => 0,
        },
        None => 0,
    }
}

/// The settled amount of a transaction's gross amount text.
pub fn settled_units(gross: &Option<String>) -> (r: u64)
    ensures
        r as nat == settled_amount(*gross),
{
    match gross {
        Some(g) => match parse_amount(g.as_str()) {
            Some(x) => x,
            None => 0,
        },
        None => 0,
    }
}

} // verus!
