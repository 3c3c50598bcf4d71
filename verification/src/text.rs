//! Small verified string routines used by the forecast and scraping logic.
use vstd::prelude::*;

verus! {

/// `String::push` from std: appends one character at the end.
#[verifier::external_body]
pub(crate) fn push_char(s: &mut String, c: char)
    ensures
        final(s)@ == old(s)@.push(c),
{
    s.push(c);
}

/// The characters of `s` with every ASCII space removed.
pub open spec fn without_spaces(s: Seq<char>) -> Seq<char> {
    s.filter(|c: char| c != ' ')
}

/// Removes every space character, keeping all others in order.
pub fn remove_spaces(s: &str) -> (res: String)
    ensures
        res@ == without_spaces(s@),
{
    let n = s.unicode_len();
    let mut res = String::new();
    let mut i: usize = 0;
    while i < n
        invariant
            n == s@.len(),
            i <= n,
            res@ == without_spaces(s@.take(i as int)),
        decreases n - i,
    {
        let c = s.get_char(i);
        proof {
            assert(s@.take(i + 1) =~= s@.take(i as int).push(c));
            s@.take(i as int).lemma_filter_push(c, |c: char| c != ' ');
        }
        if c != ' ' {
            push_char(&mut res, c);
        }
        i = i + 1;
    }
    proof {
        assert(s@.take(n as int) =~= s@);
    }
    res
}


/// `pat` appears in `s` starting at position `i`.
pub open spec fn occurs_at(s: Seq<char>, pat: Seq<char>, i: int) -> bool {
    0 <= i && i + pat.len() <= s.len() && s.subrange(i, i + pat.len()) == pat
}

/// `pat` appears somewhere in `s` as a contiguous run of characters.
pub open spec fn contains_text(s: Seq<char>, pat: Seq<char>) -> bool {
    exists|i: int| occurs_at(s, pat, i)
}

/// Whether `pat` occurs in `s` (the empty pattern occurs everywhere).
pub fn str_contains(s: &str, pat: &str) -> (res: bool)
    ensures
        res == contains_text(s@, pat@),
{
    let n = s.unicode_len();
    let m = pat.unicode_len();
    if m > n {
        assert forall|k: int| !occurs_at(s@, pat@, k) by {}
        return false;
    }
    let mut i: usize = 0;
    while i <= n - m
        invariant
            n == s@.len(),
            m == pat@.len(),
            m <= n,
            i <= n - m + 1,
            forall|k: int| 0 <= k < i ==> !occurs_at(s@, pat@, k),
        decreases n - m + 1 - i,
    {
        let mut j: usize = 0;
        let mut same = true;
        while j < m
            invariant
                n == s@.len(),
                m == pat@.len(),
                i + m <= n,
                j <= m,
                same ==> forall|t: int| 0 <= t < j ==> s@[i + t] == pat@[t],
                !same ==> exists|t: int| 0 <= t < m && s@[i + t] != pat@[t],
            decreases m - j,
        {
            if s.get_char(i + j) != pat.get_char(j) {
                same = false;
            }
            j = j + 1;
        }
        if same {
            assert(s@.subrange(i as int, i + m) =~= pat@);
            assert(occurs_at(s@, pat@, i as int));
            return true;
        }
        proof {
            let t = choose|t: int| 0 <= t < m && s@[i + t] != pat@[t];
            assert(s@.subrange(i as int, i + m)[t] != pat@[t]);
            assert(!occurs_at(s@, pat@, i as int));
        }
        i = i + 1;
    }
    assert forall|k: int| !occurs_at(s@, pat@, k) by {
        if 0 <= k < i {
        }
    }
    false
}

/// The part of `s` after the last occurrence of `sep` (all of `s` when `sep`
/// does not occur): a suffix of `s` free of `sep` that is either all of `s`
/// or preceded by `sep`.
pub open spec fn is_last_segment(s: Seq<char>, sep: char, r: Seq<char>) -> bool {
    &&& r.len() <= s.len()
    &&& r == s.subrange(s.len() - r.len(), s.len() as int)
    &&& !r.contains(sep)
    &&& (r.len() == s.len() || s[s.len() - r.len() - 1] == sep)
}

/// The text after the last `sep` in `s`, as `s.split(sep).last()` yields it.
pub fn last_segment(s: &str, sep: char) -> (res: String)
    ensures
        is_last_segment(s@, sep, res@),
{
    let n = s.unicode_len();
    let mut start: usize = n;
    while start > 0
        invariant
            n == s@.len(),
            start <= n,
            forall|k: int| start <= k < n ==> s@[k] != sep,
        ensures
            start <= n,
            forall|k: int| start <= k < n ==> s@[k] != sep,
            start == 0 || s@[start - 1] == sep,
        decreases start,
    {
        if s.get_char(start - 1) == sep {
            break;
        }
        start = start - 1;
    }
    let seg = s.substring_char(start, n);
    let res = seg.to_string();
    proof {
        assert(res@ == seg@);
        assert(forall|k: int| 0 <= k < res@.len() ==> res@[k] == s@[start + k]);
        assert forall|k: int| 0 <= k < res@.len() implies res@[k] != sep by {
            assert(res@[k] == s@[start + k]);
        }
        assert(res@ =~= s@.subrange(s@.len() - res@.len(), s@.len() as int));
    }
    res
}

/// The decimal digit `d` (0 through 9) as a character.
pub open spec fn digit_char(d: int) -> char {
    if d == 0 { '0' }
    else if d == 1 { '1' }
    else if d == 2 { '2' }
    else if d == 3 { '3' }
    else if d == 4 { '4' }
    else if d == 5 { '5' }
    else if d == 6 { '6' }
    else if d == 7 { '7' }
    else if d == 8 { '8' }
    else { '9' }
}

/// Decimal digits of `n`, most significant first, without leading zeros.
pub open spec fn decimal_digits(n: nat) -> Seq<char>
    decreases n,
{
    if n < 10 {
        seq![digit_char(n as int)]
    } else {
        decimal_digits(n / 10).push(digit_char((n % 10) as int))
    }
}

/// The decimal text of an integer, with a leading `-` when negative.
pub open spec fn decimal_text(n: int) -> Seq<char> {
    if n < 0 {
        seq!['-'] + decimal_digits((-n) as nat)
    } else {
        decimal_digits(n as nat)
    }
}

/// Decimal digits are never empty, never hold a `-`, and have two or more
/// characters from 10 on.
proof fn lemma_decimal_digits_shape(n: nat)
    ensures
        decimal_digits(n).len() >= 1,
        n >= 10 ==> decimal_digits(n).len() >= 2,
        forall|i: int| 0 <= i < decimal_digits(n).len() ==> #[trigger] decimal_digits(n)[i] != '-',
    decreases n,
{
    if n >= 10 {
        lemma_decimal_digits_shape(n / 10);
        let prefix = decimal_digits(n / 10);
        assert forall|i: int| 0 <= i < decimal_digits(n).len() implies #[trigger] decimal_digits(n)[i] != '-' by {
            if i < prefix.len() {
                assert(decimal_digits(n)[i] == prefix[i]);
            }
        }
    }
}

/// Different numbers have different digits.
proof fn lemma_decimal_digits_injective(a: nat, b: nat)
    requires
        decimal_digits(a) == decimal_digits(b),
    ensures
        a == b,
    decreases a,
{
    lemma_decimal_digits_shape(a);
    lemma_decimal_digits_shape(b);
    if a >= 10 && b >= 10 {
        let da = decimal_digits(a);
        let db = decimal_digits(b);
        assert(da.drop_last() =~= decimal_digits(a / 10));
        assert(db.drop_last() =~= decimal_digits(b / 10));
        lemma_decimal_digits_injective(a / 10, b / 10);
        assert(da.last() == digit_char((a % 10) as int));
        assert(db.last() == digit_char((b % 10) as int));
    } else if a < 10 && b < 10 {
        assert(decimal_digits(a)[0] == digit_char(a as int));
        assert(decimal_digits(b)[0] == digit_char(b as int));
    }
}

/// Different integers have different decimal texts: the text of a value
/// identifies it.
pub proof fn lemma_decimal_text_injective(a: int, b: int)
    requires
        decimal_text(a) == decimal_text(b),
    ensures
        a == b,
{
    if a < 0 && b < 0 {
        assert(decimal_text(a).subrange(1, decimal_text(a).len() as int) =~= decimal_digits((-a) as nat));
        assert(decimal_text(b).subrange(1, decimal_text(b).len() as int) =~= decimal_digits((-b) as nat));
        lemma_decimal_digits_injective((-a) as nat, (-b) as nat);
    } else if a >= 0 && b >= 0 {
        lemma_decimal_digits_injective(a as nat, b as nat);
    } else if a < 0 {
        lemma_decimal_digits_shape(b as nat);
        assert(decimal_text(a)[0] == '-');
        assert(decimal_text(b)[0] != '-');
    } else {
        lemma_decimal_digits_shape(a as nat);
        assert(decimal_text(b)[0] == '-');
        assert(decimal_text(a)[0] != '-');
    }
}

/// The number a decimal digit character stands for.
pub open spec fn digit_value(c: char) -> int {
    if c == '1' { 1 }
    else if c == '2' { 2 }
    else if c == '3' { 3 }
    else if c == '4' { 4 }
    else if c == '5' { 5 }
    else if c == '6' { 6 }
    else if c == '7' { 7 }
    else if c == '8' { 8 }
    else if c == '9' { 9 }
    else { 0 }
}

/// A decimal digit character.
pub open spec fn is_digit(c: char) -> bool {
    '0' <= c <= '9'
}

/// The number that a text of decimal digits reads as.
pub open spec fn digits_value(s: Seq<char>) -> int
    decreases s.len(),
{
    if s.len() == 0 {
        0
    } else {
        digits_value(s.drop_last()) * 10 + digit_value(s.last())
    }
}

/// The decimal digits of `n` are digits, read back as `n`, and start with
/// `0` only when `n` is 0.
pub proof fn lemma_decimal_digits_read_back(n: nat)
    ensures
        digits_value(decimal_digits(n)) == n,
        forall|i: int| 0 <= i < decimal_digits(n).len() ==> is_digit(#[trigger] decimal_digits(n)[i]),
        decimal_digits(n)[0] == '0' ==> n == 0,
    decreases n,
{
    if n >= 10 {
        lemma_decimal_digits_read_back(n / 10);
        let prefix = decimal_digits(n / 10);
        let d = digit_char((n % 10) as int);
        assert(decimal_digits(n).drop_last() =~= prefix);
        assert(digit_value(d) == n % 10);
        assert(decimal_digits(n).last() == d);
        assert(digits_value(decimal_digits(n)) == digits_value(prefix) * 10 + digit_value(d));
        assert((n / 10) * 10 + n % 10 == n);
        assert(digits_value(prefix) == n / 10);
        assert forall|i: int| 0 <= i < decimal_digits(n).len() implies is_digit(#[trigger] decimal_digits(n)[i]) by {
            if i < prefix.len() {
                assert(decimal_digits(n)[i] == prefix[i]);
            }
        }
        lemma_decimal_digits_shape(n / 10);
        assert(decimal_digits(n)[0] == prefix[0]);
    } else {
        assert(decimal_digits(n).drop_last() =~= Seq::<char>::empty());
        assert(decimal_digits(n).last() == digit_char(n as int));
        assert(digit_value(digit_char(n as int)) == n);
        assert(digits_value(decimal_digits(n).drop_last()) == 0);
        assert(digits_value(decimal_digits(n)) == digits_value(decimal_digits(n).drop_last()) * 10
            + digit_value(decimal_digits(n).last()));
    }
}

/// The decimal text of an integer reads back as that integer: a text of
/// digits without a leading zero (but for 0 itself), with `-` in front
/// exactly when the integer is negative.
pub proof fn lemma_decimal_text_reads_back(n: int)
    ensures
        n >= 0 ==> digits_value(decimal_text(n)) == n && decimal_text(n).len() >= 1
            && (forall|i: int| 0 <= i < decimal_text(n).len() ==> is_digit(#[trigger] decimal_text(n)[i]))
            && (decimal_text(n)[0] == '0' ==> n == 0),
        n < 0 ==> decimal_text(n)[0] == '-' && decimal_text(n).len() >= 2
            && digits_value(decimal_text(n).drop_first()) == -n
            && (forall|i: int| 1 <= i < decimal_text(n).len() ==> is_digit(#[trigger] decimal_text(n)[i]))
            && decimal_text(n)[1] != '0',
{
    if n >= 0 {
        lemma_decimal_digits_read_back(n as nat);
        lemma_decimal_digits_shape(n as nat);
    } else {
        let m = (-n) as nat;
        lemma_decimal_digits_read_back(m);
        lemma_decimal_digits_shape(m);
        let t = decimal_text(n);
        assert(t.drop_first() =~= decimal_digits(m));
        assert forall|i: int| 1 <= i < t.len() implies is_digit(#[trigger] t[i]) by {
            assert(t[i] == decimal_digits(m)[i - 1]);
        }
        assert(t[1] == decimal_digits(m)[0]);
    }
}

/// Removing spaces twice removes no more than removing them once.
pub proof fn lemma_without_spaces_idempotent(s: Seq<char>)
    ensures
        without_spaces(without_spaces(s)) == without_spaces(s),
    decreases s.len(),
{
    let f = |c: char| c != ' ';
    if s.len() > 0 {
        lemma_without_spaces_idempotent(s.drop_last());
        assert(s =~= s.drop_last().push(s.last()));
        s.drop_last().lemma_filter_push(s.last(), f);
        let inner = without_spaces(s.drop_last());
        if f(s.last()) {
            inner.lemma_filter_push(s.last(), f);
        }
    } else {
        assert(without_spaces(s) =~= s);
    }
}

/// The text after the last separator holds no separator and is the text
/// itself when that holds none.
pub proof fn lemma_last_segment_of_plain(s: Seq<char>, sep: char, r: Seq<char>)
    requires
        !s.contains(sep),
        is_last_segment(s, sep, r),
    ensures
        r == s,
{
    if r.len() < s.len() {
        assert(s.contains(sep));
    }
    assert(r =~= s);
}

fn digit(d: u64) -> (c: char)
    requires
        d < 10,
    ensures
        c == digit_char(d as int),
{
    if d == 0 { '0' }
    else if d == 1 { '1' }
    else if d == 2 { '2' }
    else if d == 3 { '3' }
    else if d == 4 { '4' }
    else if d == 5 { '5' }
    else if d == 6 { '6' }
    else if d == 7 { '7' }
    else if d == 8 { '8' }
    else { '9' }
}

/// The decimal text of `n`, as `n.to_string()` writes it.
pub fn i64_to_text(n: i64) -> (res: String)
    ensures
        res@ == decimal_text(n as int),
{
    let magnitude: u64 = if n < 0 { (0i128 - n as i128) as u64 } else { n as u64 };
    let ghost total: nat = magnitude as nat;
    let mut m: u64 = magnitude;
    let mut rev: Vec<char> = Vec::new();
    while m >= 10
        invariant
            decimal_digits(total) == decimal_digits(m as nat) + rev@.reverse(),
        decreases m,
    {
        let d = digit(m % 10);
        proof {
            assert(rev@.push(d).reverse() =~= seq![d] + rev@.reverse());
            assert(decimal_digits(m as nat) == decimal_digits((m / 10) as nat).push(d));
            assert(decimal_digits((m / 10) as nat).push(d) + rev@.reverse()
                =~= decimal_digits((m / 10) as nat) + (seq![d] + rev@.reverse()));
        }
        rev.push(d);
        m = m / 10;
    }
    let d = digit(m);
    proof {
        assert(rev@.push(d).reverse() =~= seq![d] + rev@.reverse());
        assert(decimal_digits(m as nat) == seq![d]);
    }
    rev.push(d);
    let mut res = String::new();
    if n < 0 {
        push_char(&mut res, '-');
    }
    let ghost prefix = res@;
    let len = rev.len();
    let mut k: usize = len;
    while k > 0
        invariant
            k <= len,
            len == rev@.len(),
            decimal_digits(total) == rev@.reverse(),
            res@ == prefix + rev@.reverse().take(len - k),
        decreases k,
    {
        let c = rev[k - 1];
        proof {
            assert(rev@.reverse()[len - k] == c);
            assert(rev@.reverse().take(len - k + 1) =~= rev@.reverse().take(len - k).push(c));
        }
        push_char(&mut res, c);
        k = k - 1;
    }
    proof {
        assert(rev@.reverse().take(len as int) =~= rev@.reverse());
        if n < 0 {
            assert(prefix == seq!['-']);
            assert(total == -(n as int));
        } else {
            assert(prefix =~= Seq::<char>::empty());
            assert(total == n as int);
        }
    }
    res
}

} // verus!
