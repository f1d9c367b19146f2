//! Decimal rendering of integers and thousands grouping.
use vstd::prelude::*;

verus! {

/// The character of a decimal digit `d` (`0 <= d < 10`).
pub open spec fn digit_char(d: int) -> char {
    if d == 0 { '0' }
    else if d == 1 { '1' }
    else if d == 2 { '2' }
    else if d == 3 { '3' }
    else if d == 4 { '4' }
    else if d == 5 { '5' }
    else if d == 6 { '6' }
    else if d == 7 { '7' }
    else if d == 8 { '8' }
    else { '9' }
}

/// Is `c` one of the ASCII digits `0`..`9`?
pub open spec fn is_digit(c: char) -> bool {
    '0' <= c && c <= '9'
}

/// The decimal representation of `n`, most significant digit first, without leading zeros
/// (`0` is written `"0"`).
pub open spec fn decimal(n: nat) -> Seq<char>
    decreases n,
{
    if n < 10 {
        seq![digit_char(n as int)]
    } else {
        decimal(n / 10).push(digit_char((n % 10) as int))
    }
}

/// The digit character for `d`.
fn digit_to_char(d: u64) -> (c: char)
    requires
        d < 10,
    ensures
        c == digit_char(d as int),
{
    match d {
        0 => '0',
        1 => '1',
        2 => '2',
        3 => '3',
        4 => '4',
        5 => '5',
        6 => '6',
        7 => '7',
        8 => '8',
        _ => '9',
    }
}

/// The decimal digits of `n` as characters.
pub fn decimal_chars(n: u64) -> (digits: Vec<char>)
    ensures
        digits@ == decimal(n as nat),
    decreases n,
{
    if n < 10 {
        let mut v: Vec<char> = Vec::new();
        v.push(digit_to_char(n));
        v
    } else {
        let mut v = decimal_chars(n / 10);
        v.push(digit_to_char(n % 10));
        v
    }
}


/// Every character of `decimal(n)` is a digit, and there is at least one.
pub proof fn lemma_decimal_digits(n: nat)
    ensures
        decimal(n).len() >= 1,
        forall|i: int| 0 <= i < decimal(n).len() ==> is_digit(#[trigger] decimal(n)[i]),
    decreases n,
{
    if n >= 10 {
        lemma_decimal_digits(n / 10);
    }
}

/// Appends the digit `c` to `s`.
fn push_digit(s: &mut String, c: char)
    requires
        is_digit(c),
    ensures
        final(s)@ == old(s)@.push(c),
{
    let piece: &str = if c == '0' {
        "0"
    } else if c == '1' {
        "1"
    } else if c == '2' {
        "2"
    } else if c == '3' {
        "3"
    } else if c == '4' {
        "4"
    } else if c == '5' {
        "5"
    } else if c == '6' {
        "6"
    } else if c == '7' {
        "7"
    } else if c == '8' {
        "8"
    } else {
        "9"
    };
    proof {
        reveal_strlit("0");
        reveal_strlit("1");
        reveal_strlit("2");
        reveal_strlit("3");
        reveal_strlit("4");
        reveal_strlit("5");
        reveal_strlit("6");
        reveal_strlit("7");
        reveal_strlit("8");
        reveal_strlit("9");
    }
    assert(piece@ == seq![c]);
    s.append(piece);
}

/// `n` written in decimal, as `n.to_string()` writes it.
pub fn decimal_string(n: u64) -> (text: String)
    ensures
        text@ == decimal(n as nat),
{
    let digits = decimal_chars(n);
    proof {
        lemma_decimal_digits(n as nat);
    }
    let mut text = String::new();
    let mut i: usize = 0;
    while i < digits.len()
        invariant
            digits@ == decimal(n as nat),
            i <= digits.len(),
            text@ == digits@.take(i as int),
            forall|k: int| 0 <= k < digits@.len() ==> is_digit(#[trigger] digits@[k]),
        decreases digits.len() - i,
    {
        push_digit(&mut text, digits[i]);
        assert(digits@.take(i + 1) == digits@.take(i as int).push(digits@[i as int]));
        i = i + 1;
    }
    assert(digits@.take(i as int) == digits@);
    text
}


/// Thousands grouping of a digit string: a `,` before every block of three digits counted
/// from the right, none at the front (`"1234567"` becomes `"1,234,567"`).
pub open spec fn grouped(s: Seq<char>) -> Seq<char>
    decreases s.len(),
{
    if s.len() <= 3 {
        s
    } else {
        grouped(s.take(s.len() - 3)) + seq![','] + s.skip(s.len() - 3)
    }
}

/// `s` with every `,` taken out.
pub open spec fn without_commas(s: Seq<char>) -> Seq<char>
    decreases s.len(),
{
    if s.len() == 0 {
        s
    } else if s.last() == ',' {
        without_commas(s.drop_last())
    } else {
        without_commas(s.drop_last()).push(s.last())
    }
}

/// What the grouping loop has written after the first `i` characters of `s`: before the
/// character at index `j > 0` a `,` goes when the number of characters from `j` to the end is
/// a multiple of three.
spec fn grouping_prefix(s: Seq<char>, i: int) -> Seq<char>
    decreases i,
{
    if i <= 0 {
        seq![]
    } else {
        grouping_prefix(s, i - 1) + (if i - 1 > 0 && (s.len() - (i - 1)) % 3 == 0 {
            seq![',']
        } else {
            seq![]
        }) + seq![s[i - 1]]
    }
}

proof fn lemma_prefix_short(s: Seq<char>, i: int)
    requires
        0 <= i <= s.len() <= 3,
    ensures
        grouping_prefix(s, i) == s.take(i),
    decreases i,
{
    if i > 0 {
        lemma_prefix_short(s, i - 1);
        assert(s.take(i) == s.take(i - 1).push(s[i - 1]));
    }
}

proof fn lemma_prefix_of_take(s: Seq<char>, m: int, k: int)
    requires
        0 <= k <= m <= s.len(),
        (s.len() - m) % 3 == 0,
    ensures
        grouping_prefix(s, k) == grouping_prefix(s.take(m), k),
    decreases k,
{
    if k > 0 {
        lemma_prefix_of_take(s, m, k - 1);
        assert((s.len() - (k - 1)) % 3 == (m - (k - 1)) % 3);
    }
}

proof fn lemma_prefix_is_grouped(s: Seq<char>)
    ensures
        grouping_prefix(s, s.len() as int) == grouped(s),
    decreases s.len(),
{
    let l = s.len() as int;
    if l <= 3 {
        lemma_prefix_short(s, l);
        assert(s.take(l) == s);
    } else {
        let m = l - 3;
        let t = s.take(m);
        lemma_prefix_is_grouped(t);
        lemma_prefix_of_take(s, m, m);
        assert(grouping_prefix(s, m + 1) == grouping_prefix(s, m) + seq![','] + seq![s[m]]);
        assert(grouping_prefix(s, m + 2) == grouping_prefix(s, m + 1) + seq![s[m + 1]]);
        assert(grouping_prefix(s, m + 3) == grouping_prefix(s, m + 2) + seq![s[m + 2]]);
        assert(s.skip(m) == seq![s[m], s[m + 1], s[m + 2]]);
        assert(grouping_prefix(s, l) == grouped(t) + seq![','] + s.skip(m));
    }
}

/// `value` in decimal with a `,` between thousands: `1234567` gives `"1,234,567"`.
pub fn group_digits(value: u64) -> (out: String)
    ensures
        out@ == grouped(decimal(value as nat)),
{
    let digits = decimal_chars(value);
    proof {
        lemma_decimal_digits(value as nat);
    }
    let len = digits.len();
    let mut out = String::new();
    let mut index: usize = 0;
    while index < len
        invariant
            len == digits@.len(),
            index <= len,
            out@ == grouping_prefix(digits@, index as int),
            forall|k: int| 0 <= k < digits@.len() ==> is_digit(#[trigger] digits@[k]),
        decreases len - index,
    {
        if index > 0 && (len - index) % 3 == 0 {
            out.append(",");
            proof {
                reveal_strlit(",");
            }
        }
        push_digit(&mut out, digits[index]);
        index = index + 1;
    }
    proof {
        lemma_prefix_is_grouped(digits@);
    }
    out
}


proof fn lemma_without_commas_concat(a: Seq<char>, b: Seq<char>)
    ensures
        without_commas(a + b) == without_commas(a) + without_commas(b),
    decreases b.len(),
{
    if b.len() == 0 {
        assert(a + b == a);
        assert(without_commas(b) == b);
    } else {
        lemma_without_commas_concat(a, b.drop_last());
        assert((a + b).drop_last() == a + b.drop_last());
        assert((a + b).last() == b.last());
    }
}

proof fn lemma_without_commas_of_digits(s: Seq<char>)
    requires
        forall|i: int| 0 <= i < s.len() ==> is_digit(#[trigger] s[i]),
    ensures
        without_commas(s) == s,
    decreases s.len(),
{
    if s.len() > 0 {
        assert(is_digit(s[s.len() - 1]));
        lemma_without_commas_of_digits(s.drop_last());
        assert(s.drop_last().push(s.last()) == s);
    }
}

proof fn lemma_grouping_keeps_digits(s: Seq<char>)
    requires
        forall|i: int| 0 <= i < s.len() ==> is_digit(#[trigger] s[i]),
    ensures
        without_commas(grouped(s)) == s,
    decreases s.len(),
{
    if s.len() <= 3 {
        lemma_without_commas_of_digits(s);
    } else {
        let m = s.len() - 3;
        let t = s.take(m);
        let tail = s.skip(m);
        assert forall|i: int| 0 <= i < t.len() implies is_digit(#[trigger] t[i]) by {
            assert(t[i] == s[i]);
        }
        assert forall|i: int| 0 <= i < tail.len() implies is_digit(#[trigger] tail[i]) by {
            assert(tail[i] == s[i + m]);
        }
        lemma_grouping_keeps_digits(t);
        lemma_without_commas_concat(grouped(t) + seq![','], tail);
        lemma_without_commas_concat(grouped(t), seq![',']);
        assert(without_commas(seq![',']) == Seq::<char>::empty()) by {
            let c = seq![','];
            assert(c.last() == ',');
            assert(c.drop_last() == Seq::<char>::empty());
            assert(without_commas(c.drop_last()) == Seq::<char>::empty());
        }
        lemma_without_commas_of_digits(tail);
        assert(t + tail == s);
    }
}

/// Grouping only inserts separators: taking the commas out of `group_digits(value)` gives
/// back `value` in plain decimal.
pub proof fn law_grouping_keeps_digits(value: nat)
    ensures
        without_commas(grouped(decimal(value))) == decimal(value),
{
    lemma_decimal_digits(value);
    lemma_grouping_keeps_digits(decimal(value));
}

/// Below a thousand there is nothing to group: `group_digits(value)` is `value` in decimal.
pub proof fn law_small_values_are_not_grouped(value: nat)
    requires
        value < 1000,
    ensures
        grouped(decimal(value)) == decimal(value),
{
    if value >= 100 {
        assert(decimal(value / 10).len() == 2) by {
            assert(decimal(value / 10 / 10).len() == 1);
        }
    } else if value >= 10 {
        assert(decimal(value / 10).len() == 1);
    }
}


/// The value of a digit character.
pub open spec fn digit_value(c: char) -> int {
    (c as int) - ('0' as int)
}

/// The number that a string of digits stands for.
pub open spec fn digits_value(s: Seq<char>) -> int
    decreases s.len(),
{
    if s.len() == 0 {
        0
    } else {
        digits_value(s.drop_last()) * 10 + digit_value(s.last())
    }
}

/// `decimal(n)` is a correct decimal numeral of `n`: digits only, read back it is `n`, and it
/// starts with `0` only for `n == 0` itself.
pub proof fn law_decimal_reads_back(n: nat)
    ensures
        forall|i: int| 0 <= i < decimal(n).len() ==> is_digit(#[trigger] decimal(n)[i]),
        digits_value(decimal(n)) == n,
        decimal(n).len() >= 1,
        decimal(n)[0] == '0' ==> n == 0,
        n < 10 ==> decimal(n).len() == 1,
    decreases n,
{
    lemma_decimal_digits(n);
    if n < 10 {
        let s = decimal(n);
        assert(s.drop_last() == Seq::<char>::empty());
        assert(digits_value(s.drop_last()) == 0);
        assert(s.last() == digit_char(n as int));
        assert(digit_value(digit_char(n as int)) == n);
    } else {
        law_decimal_reads_back(n / 10);
        let s = decimal(n);
        assert(s.drop_last() == decimal(n / 10));
        assert(s.last() == digit_char((n % 10) as int));
        assert(digit_value(digit_char((n % 10) as int)) == n % 10);
        assert(n == (n / 10) * 10 + n % 10);
        assert(s[0] == decimal(n / 10)[0]);
    }
}

proof fn lemma_grouping_positions(s: Seq<char>)
    requires
        s.len() >= 1,
        forall|i: int| 0 <= i < s.len() ==> is_digit(#[trigger] s[i]),
    ensures
        grouped(s).len() % 4 != 0,
        forall|i: int|
            0 <= i < grouped(s).len() ==> (#[trigger] grouped(s)[i] == ',' <==> (grouped(s).len()
                - i) % 4 == 0),
    decreases s.len(),
{
    let g = grouped(s);
    if s.len() <= 3 {
        assert forall|i: int| 0 <= i < g.len() implies (#[trigger] g[i] == ',' <==> (g.len() - i)
            % 4 == 0) by {
            assert(is_digit(s[i]));
        }
    } else {
        let m = s.len() - 3;
        let t = s.take(m);
        assert forall|i: int| 0 <= i < t.len() implies is_digit(#[trigger] t[i]) by {
            assert(t[i] == s[i]);
        }
        lemma_grouping_positions(t);
        let h = grouped(t);
        assert(g == h + seq![','] + s.skip(m));
        assert forall|i: int| 0 <= i < g.len() implies (#[trigger] g[i] == ',' <==> (g.len() - i)
            % 4 == 0) by {
            if i < h.len() {
                assert(g[i] == h[i]);
                assert((g.len() - i) % 4 == (h.len() - i) % 4);
            } else if i > h.len() {
                assert(g[i] == s[m + (i - h.len() - 1)]);
                assert(is_digit(s[m + (i - h.len() - 1)]));
            }
        }
    }
}

/// Commas stand exactly where blocks of three digits begin, counted from the right: in
/// `group_digits(value)` a character is `,` exactly when its distance from the end is a
/// multiple of four, and the text never starts with a comma.
pub proof fn law_grouping_positions(value: nat)
    ensures
        grouped(decimal(value)).len() % 4 != 0,
        forall|i: int|
            0 <= i < grouped(decimal(value)).len() ==> (#[trigger] grouped(decimal(value))[i]
                == ',' <==> (grouped(decimal(value)).len() - i) % 4 == 0),
{
    lemma_decimal_digits(value);
    lemma_grouping_positions(decimal(value));
}

} // verus!
