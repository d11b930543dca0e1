use vstd::prelude::*;

verus! {

/// Whether `c` is one of the ASCII digits.
pub open spec fn is_digit(c: char) -> bool {
    '0' <= c && c <= '9'
}

/// The value of the digit `c`.
pub open spec fn digit_value(c: char) -> nat {
    (c as u32 - '0' as u32) as nat
}

/// The number that a string of decimal digits denotes.
pub open spec fn count_value(s: Seq<char>) -> nat
    decreases s.len(),
{
    if s.len() == 0 {
        0
    } else {
        count_value(s.drop_last()) * 10 + digit_value(s.last())
    }
}

/// The digits of a count: `s` without one leading plus sign.
pub open spec fn count_digits(s: Seq<char>) -> Seq<char> {
    if s.len() > 0 && s[0] == '+' {
        s.drop_first()
    } else {
        s
    }
}

/// Whether `s` is a count: a non-empty string of decimal digits, after one
/// optional plus sign, whose value fits in 64 bits.
pub open spec fn is_count_text(s: Seq<char>) -> bool {
    let d = count_digits(s);
    &&& d.len() > 0
    &&& forall|i: int| 0 <= i < d.len() ==> #[trigger] is_digit(d[i])
    &&& count_value(d) <= u64::MAX
}

/// The statistic that a reply's count field gives: its value where it is a
/// count, and zero where the field is absent or holds anything else.
pub open spec fn field_statistic(field: Option<Seq<char>>) -> u64 {
    match field {
        Some(s) => if is_count_text(s) {
            count_value(count_digits(s)) as u64
        } else {
            0
        },
        None => 0,
    }
}

proof fn lemma_prefix_value_le(s: Seq<char>, k: int)
    requires
        0 <= k <= s.len(),
    ensures
        count_value(s.subrange(0, k)) <= count_value(s),
    decreases s.len(),
{
    if k < s.len() {
        assert(s.drop_last().subrange(0, k) =~= s.subrange(0, k));
        lemma_prefix_value_le(s.drop_last(), k);
    } else {
        assert(s.subrange(0, k) =~= s);
    }
}

/// Reads a count: `Some` of its value exactly where `s` is a count.
pub fn parse_count(s: &str) -> (r: Option<u64>)
    ensures
        r.is_some() == is_count_text(s@),
        r.is_some() ==> r.unwrap() as nat == count_value(count_digits(s@)),
{
    let n = s.unicode_len();
    let start: usize = if n > 0 && s.get_char(0) == '+' {
        1
    } else {
        0
    };
    let ghost d = count_digits(s@);
    assert(d =~= s@.subrange(start as int, n as int));
    if start == n {
        return None;
    }
    let mut acc: u64 = 0;
    let mut i: usize = start;
    while i < n
        invariant
            n == s@.len(),
            start <= i <= n,
            d == count_digits(s@),
            d == s@.subrange(start as int, n as int),
            acc as nat == count_value(d.subrange(0, i - start)),
            forall|j: int| 0 <= j < i - start ==> #[trigger] is_digit(d[j]),
        decreases n - i,
    {
        let c = s.get_char(i);
        assert(d[i - start] == s@[i as int]);
        if !('0' <= c && c <= '9') {
            assert(!is_digit(d[i - start]));
            assert(!is_count_text(s@));
            return None;
        }
        let dv = (c as u32 - '0' as u32) as u64;
        assert(d.subrange(0, i - start + 1).drop_last() =~= d.subrange(0, i - start));
        if acc > (u64::MAX - dv) / 10 {
            proof {
                assert(acc * 10 + dv > u64::MAX) by (nonlinear_arith)
                    requires
                        acc > (u64::MAX - dv) / 10,
                        dv <= 9,
                ;
                lemma_prefix_value_le(d, i - start + 1);
                assert(!is_count_text(s@));
            }
            return None;
        }
        proof {
            assert(acc * 10 + dv <= u64::MAX) by (nonlinear_arith)
                requires
                    acc <= (u64::MAX - dv) / 10,
                    dv <= 9,
            ;
        }
        acc = acc * 10 + dv;
        i = i + 1;
    }
    assert(d.subrange(0, n - start) =~= d);
    Some(acc)
}

/// The statistic of a reply whose count field is `field` (absent where `None`).
/// Anything but a count gives zero rather than an error.
pub fn statistic_from_field(field: Option<&str>) -> (r: u64)
    ensures
        r == field_statistic(
            match field {
                Some(s) => Some(s@),
                None => None,
            },
        ),
{
    match field {
        Some(s) => match parse_count(s) {
            Some(v) => v,
            None => 0,
        },
        None => 0,
    }
}

} // verus!
