use vstd::prelude::*;
use vstd::string::StrSliceExecFns;

verus! {

pub open spec fn is_digit(c: char) -> bool {
    '0' <= c && c <= '9'
}

pub open spec fn digit_value(c: char) -> int {
    (c as u32) as int - ('0' as u32) as int
}

pub open spec fn all_digits(d: Seq<char>) -> bool {
    forall|i: int| 0 <= i < d.len() ==> is_digit(#[trigger] d[i])
}

/// The decimal number that a run of digits writes.
pub open spec fn digits_value(d: Seq<char>) -> int
    decreases d.len(),
{
    if d.len() == 0 {
        0
    } else {
        digits_value(d.drop_last()) * 10 + digit_value(d.last())
    }
}

/// The signed 32-bit integer that `s` writes: an optional `+` or `-`, then one or more
/// ASCII digits, and a value in range; `None` for anything else.
pub open spec fn i32_of(s: Seq<char>) -> Option<i32> {
    let signed = s.len() > 0 && (s[0] == '-' || s[0] == '+');
    let d = if signed { s.drop_first() } else { s };
    let v = if s.len() > 0 && s[0] == '-' { -digits_value(d) } else { digits_value(d) };
    if d.len() > 0 && all_digits(d) && i32::MIN <= v <= i32::MAX {
        Some(v as i32)
    } else {
        None
    }
}

/// The segments of `s` between its slashes, in order, empty ones included:
/// a string with `k` slashes has `k + 1` segments.
pub open spec fn split_slash(s: Seq<char>) -> Seq<Seq<char>>
    decreases s.len(),
{
    if s.len() == 0 {
        seq![Seq::<char>::empty()]
    } else {
        let init = split_slash(s.drop_last());
        if s.last() == '/' {
            init.push(Seq::<char>::empty())
        } else {
            init.update(init.len() - 1, init.last().push(s.last()))
        }
    }
}

/// The integers that the segments write, in the order of the segments; segments that
/// write none are left out.
pub open spec fn numeric_values(segments: Seq<Seq<char>>) -> Seq<i32>
    decreases segments.len(),
{
    if segments.len() == 0 {
        Seq::empty()
    } else {
        let init = numeric_values(segments.drop_last());
        match i32_of(segments.last()) {
            Some(v) => init.push(v),
            None => init,
        }
    }
}

/// The integers that the segments of `path` write.
pub open spec fn numeric_segments_of(path: Seq<char>) -> Seq<i32> {
    numeric_values(split_slash(path))
}

proof fn lemma_digits_value_nonneg(d: Seq<char>)
    requires
        all_digits(d),
    ensures
        digits_value(d) >= 0,
    decreases d.len(),
{
    if d.len() > 0 {
        assert(is_digit(d[d.len() - 1]));
        lemma_digits_value_nonneg(d.drop_last());
    }
}

proof fn lemma_digits_value_grows(d: Seq<char>, k: int)
    requires
        all_digits(d),
        0 <= k <= d.len(),
    ensures
        digits_value(d.take(k)) <= digits_value(d),
    decreases d.len(),
{
    if k < d.len() {
        let init = d.drop_last();
        assert(init.take(k) =~= d.take(k));
        assert(is_digit(d[d.len() - 1]));
        lemma_digits_value_grows(init, k);
        lemma_digits_value_nonneg(init);
    } else {
        assert(d.take(k) =~= d);
    }
}

/// Reads `s` as a signed 32-bit integer.
pub fn parse_i32(s: &Vec<char>) -> (r: Option<i32>)
    ensures
        r == i32_of(s@),
{
    let n = s.len();
    if n == 0 {
        return None;
    }
    let negative = s[0] == '-';
    let start: usize = if s[0] == '-' || s[0] == '+' { 1 } else { 0 };
    let ghost d = if start == 1 { s@.drop_first() } else { s@ };
    assert(d =~= s@.subrange(start as int, n as int));
    assert(d == (if s@.len() > 0 && (s@[0] == '-' || s@[0] == '+') {
        s@.drop_first()
    } else {
        s@
    }));
    if start == n {
        return None;
    }
    let mut acc: i64 = 0;
    let mut i: usize = start;
    while i < n
        invariant
            start <= i <= n,
            n == s.len(),
            d == s@.subrange(start as int, n as int),
            d == (if s@.len() > 0 && (s@[0] == '-' || s@[0] == '+') {
                s@.drop_first()
            } else {
                s@
            }),
            negative == (s@.len() > 0 && s@[0] == '-'),
            all_digits(d.take(i - start)),
            acc == digits_value(d.take(i - start)),
            0 <= acc <= 2147483648,
        decreases n - i,
    {
        let c = s[i];
        if !('0' <= c && c <= '9') {
            assert(d[i - start] == c);
            assert(!is_digit(d[i - start]));
            assert(!all_digits(d));
            return None;
        }
        let digit = (c as u32 - '0' as u32) as i64;
        assert(d.take(i + 1 - start).drop_last() =~= d.take(i - start));
        acc = acc * 10 + digit;
        i = i + 1;
        assert(all_digits(d.take(i - start))) by {
            assert forall|j: int| 0 <= j < d.take(i - start).len() implies is_digit(
                #[trigger] d.take(i - start)[j],
            ) by {
                if j < i - 1 - start {
                    assert(d.take(i - start)[j] == d.take(i - 1 - start)[j]);
                }
            }
        }
        if acc > 2147483648 {
            proof {
                if all_digits(d) {
                    lemma_digits_value_grows(d, i - start);
                    assert(digits_value(d) > 2147483648);
                }
                assert(i32_of(s@) is None);
            }
            return None;
        }
    }
    assert(d.take(n - start) =~= d);
    if negative {
        Some((-acc) as i32)
    } else if acc > 2147483647 {
        None
    } else {
        Some(acc as i32)
    }
}

proof fn lemma_numeric_values_push(segments: Seq<Seq<char>>, last: Seq<char>)
    ensures
        numeric_values(segments.push(last)) == match i32_of(last) {
            Some(v) => numeric_values(segments).push(v),
            None => numeric_values(segments),
        },
{
    assert(segments.push(last).drop_last() =~= segments);
}

/// Splits `path` on `/` and keeps, in order, the integers that its segments write.
pub fn numeric_segments(path: &str) -> (r: Vec<i32>)
    ensures
        r@ == numeric_segments_of(path@),
{
    let n = path.unicode_len();
    let mut values: Vec<i32> = Vec::new();
    let mut current: Vec<char> = Vec::new();
    let mut i: usize = 0;
    while i < n
        invariant
            i <= n,
            n == path@.len(),
            split_slash(path@.take(i as int)).len() >= 1,
            current@ == split_slash(path@.take(i as int)).last(),
            values@ == numeric_values(split_slash(path@.take(i as int)).drop_last()),
        decreases n - i,
    {
        let c = path.get_char(i);
        let ghost before = split_slash(path@.take(i as int));
        assert(path@.take(i + 1).drop_last() =~= path@.take(i as int));
        if c == '/' {
            let parsed = parse_i32(&current);
            proof {
                lemma_numeric_values_push(before.drop_last(), before.last());
                assert(before.drop_last().push(before.last()) =~= before);
                assert(split_slash(path@.take(i + 1)).drop_last() =~= before);
            }
            match parsed {
                Some(v) => values.push(v),
                None => {},
            }
            current = Vec::new();
        } else {
            current.push(c);
            assert(split_slash(path@.take(i + 1)).drop_last() =~= before.drop_last());
        }
        i = i + 1;
    }
    let parsed = parse_i32(&current);
    let ghost all = split_slash(path@.take(n as int));
    proof {
        assert(path@.take(n as int) =~= path@);
        lemma_numeric_values_push(all.drop_last(), all.last());
        assert(all.drop_last().push(all.last()) =~= all);
    }
    match parsed {
        Some(v) => values.push(v),
        None => {},
    }
    values
}

} // verus!
