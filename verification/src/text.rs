//! Text as sequences of characters: joining, decimal numbers and
//! comma-joined lists of numbers.
use vstd::prelude::*;

verus! {

broadcast use vstd::string::group_string_axioms;

/// `String::push` appends one character.
pub assume_specification[ String::push ](s: &mut String, c: char)
    ensures
        final(s)@ == old(s)@.push(c),
;

/// The characters of `s`.
pub fn chars_of(s: &str) -> (v: Vec<char>)
    ensures
        v@ == s@,
{
    let mut v: Vec<char> = Vec::new();
    for c in it: s.chars()
        invariant
            it.seq() == s@,
            v@ == s@.take(it.index() as int),
    {
        v.push(c);
    }
    v
}

/// The string made of the characters `chars[from..to]`.
pub fn string_of(chars: &Vec<char>, from: usize, to: usize) -> (s: String)
    requires
        from <= to <= chars@.len(),
    ensures
        s@ == chars@.subrange(from as int, to as int),
{
    let mut s = String::new();
    let mut i: usize = from;
    while i < to
        invariant
            from <= i <= to <= chars@.len(),
            s@ == chars@.subrange(from as int, i as int),
        decreases to - i,
    {
        s.push(chars[i]);
        i += 1;
        assert(chars@.subrange(from as int, i as int) == chars@.subrange(
            from as int,
            i - 1,
        ).push(chars@[i - 1]));
    }
    s
}

/// Whether `a` and `b` hold the same characters.
pub fn same_text(a: &str, b: &str) -> (r: bool)
    ensures
        r == (a@ == b@),
{
    let x = chars_of(a);
    let y = chars_of(b);
    if x.len() != y.len() {
        return false;
    }
    let mut i: usize = 0;
    while i < x.len()
        invariant
            x@ == a@,
            y@ == b@,
            x@.len() == y@.len(),
            i <= x@.len(),
            x@.take(i as int) == y@.take(i as int),
        decreases x@.len() - i,
    {
        if x[i] != y[i] {
            assert(a@[i as int] != b@[i as int]);
            return false;
        }
        i += 1;
        assert(x@.take(i as int) == x@.take(i - 1).push(x@[i - 1]));
        assert(y@.take(i as int) == y@.take(i - 1).push(y@[i - 1]));
    }
    assert(x@.take(i as int) == x@);
    assert(y@.take(i as int) == y@);
    true
}

/// The texts of `words`.
pub open spec fn texts_of(words: Seq<String>) -> Seq<Seq<char>> {
    words.map_values(|w: String| w@)
}

/// Whether `word` is one of `words`.
pub open spec fn occurs(words: Seq<Seq<char>>, word: Seq<char>) -> bool {
    exists|i: int| 0 <= i < words.len() && #[trigger] words[i] == word
}

/// Whether no two of `words` are the same.
pub open spec fn all_distinct(words: Seq<Seq<char>>) -> bool {
    forall|i: int, j: int| 0 <= i < j < words.len() ==> #[trigger] words[i] != #[trigger] words[j]
}

/// Whether `word` is one of `words`.
pub fn contains_word(words: &Vec<String>, word: &str) -> (r: bool)
    ensures
        r == occurs(texts_of(words@), word@),
{
    let mut i: usize = 0;
    while i < words.len()
        invariant
            i <= words@.len(),
            forall|j: int| 0 <= j < i ==> #[trigger] texts_of(words@)[j] != word@,
        decreases words@.len() - i,
    {
        if same_text(words[i].as_str(), word) {
            assert(texts_of(words@)[i as int] == word@);
            return true;
        }
        i += 1;
    }
    false
}

/// The decimal digit for `d`, where `d` is below ten.
pub open spec fn digit_char(d: int) -> char {
    if d == 0 {
        '0'
    } else if d == 1 {
        '1'
    } else if d == 2 {
        '2'
    } else if d == 3 {
        '3'
    } else if d == 4 {
        '4'
    } else if d == 5 {
        '5'
    } else if d == 6 {
        '6'
    } else if d == 7 {
        '7'
    } else if d == 8 {
        '8'
    } else {
        '9'
    }
}

/// Whether `c` is one of the ten decimal digits.
pub open spec fn is_digit(c: char) -> bool {
    c == '0' || c == '1' || c == '2' || c == '3' || c == '4' || c == '5' || c == '6' || c == '7'
        || c == '8' || c == '9'
}

/// The number that the decimal digit `c` stands for.
pub open spec fn digit_value(c: char) -> int {
    if c == '0' {
        0
    } else if c == '1' {
        1
    } else if c == '2' {
        2
    } else if c == '3' {
        3
    } else if c == '4' {
        4
    } else if c == '5' {
        5
    } else if c == '6' {
        6
    } else if c == '7' {
        7
    } else if c == '8' {
        8
    } else {
        9
    }
}

/// The digits of `n` in base ten, most significant first, without leading
/// zeros; one zero for zero.
pub open spec fn decimal_digits(n: nat) -> Seq<char>
    decreases n,
{
    if n < 10 {
        seq![digit_char(n as int)]
    } else {
        decimal_digits(n / 10).push(digit_char((n % 10) as int))
    }
}

/// The decimal text of `i`: a minus sign for a negative number, then its
/// digits.
pub open spec fn decimal(i: int) -> Seq<char> {
    if i < 0 {
        seq!['-'] + decimal_digits((-i) as nat)
    } else {
        decimal_digits(i as nat)
    }
}

/// Whether every character of `s` is a decimal digit.
pub open spec fn all_digits(s: Seq<char>) -> bool {
    forall|i: int| 0 <= i < s.len() ==> is_digit(#[trigger] s[i])
}

/// The number that the digit string `s` stands for; zero for the empty
/// string.
pub open spec fn digits_value(s: Seq<char>) -> int
    decreases s.len(),
{
    if s.len() == 0 {
        0
    } else {
        digits_value(s.drop_last()) * 10 + digit_value(s.last())
    }
}

/// The integer that `s` stands for: an optional sign, `+` or `-`, followed
/// by one or more decimal digits. Nothing else is a number.
pub open spec fn parse_decimal(s: Seq<char>) -> Option<int> {
    let signed = s.len() > 0 && (s[0] == '-' || s[0] == '+');
    let body = if signed {
        s.skip(1)
    } else {
        s
    };
    if body.len() == 0 || !all_digits(body) {
        None
    } else if s[0] == '-' {
        Some(-digits_value(body))
    } else {
        Some(digits_value(body))
    }
}

/// The 64-bit integer that `s` stands for, if `s` is a number that fits.
pub open spec fn parse_i64_spec(s: Seq<char>) -> Option<i64> {
    match parse_decimal(s) {
        Some(v) => if i64::MIN <= v <= i64::MAX {
            Some(v as i64)
        } else {
            None
        },
        None => None,
    }
}

fn digit_for(d: u8) -> (c: char)
    requires
        d < 10,
    ensures
        c == digit_char(d as int),
{
    if d == 0 {
        '0'
    } else if d == 1 {
        '1'
    } else if d == 2 {
        '2'
    } else if d == 3 {
        '3'
    } else if d == 4 {
        '4'
    } else if d == 5 {
        '5'
    } else if d == 6 {
        '6'
    } else if d == 7 {
        '7'
    } else if d == 8 {
        '8'
    } else {
        '9'
    }
}

fn value_of_digit(c: char) -> (r: Option<u8>)
    ensures
        r.is_some() == is_digit(c),
        r matches Some(d) ==> d == digit_value(c) && d < 10,
{
    if c == '0' {
        Some(0)
    } else if c == '1' {
        Some(1)
    } else if c == '2' {
        Some(2)
    } else if c == '3' {
        Some(3)
    } else if c == '4' {
        Some(4)
    } else if c == '5' {
        Some(5)
    } else if c == '6' {
        Some(6)
    } else if c == '7' {
        Some(7)
    } else if c == '8' {
        Some(8)
    } else if c == '9' {
        Some(9)
    } else {
        None
    }
}

/// The decimal text of `v`.
pub fn format_i64(v: i64) -> (s: String)
    ensures
        s@ == decimal(v as int),
{
    format_wide(v as i128)
}

/// The decimal text of `n`.
pub fn format_usize(n: usize) -> (s: String)
    ensures
        s@ == decimal(n as int),
{
    format_wide(n as i128)
}

fn format_wide(v: i128) -> (s: String)
    requires
        v > i128::MIN,
    ensures
        s@ == decimal(v as int),
{
    let negative = v < 0;
    let magnitude: i128 = if negative {
        -v
    } else {
        v
    };
    let mut n: i128 = magnitude;
    let mut digits: Vec<char> = Vec::new();
    while n >= 10
        invariant
            0 <= n <= magnitude,
            decimal_digits(magnitude as nat) == decimal_digits(n as nat) + digits@,
        decreases n,
    {
        let d: u8 = (n % 10) as u8;
        let c = digit_for(d);
        let ghost before = digits@;
        digits.insert(0, c);
        proof {
            assert(decimal_digits(n as nat) == decimal_digits((n / 10) as nat).push(c));
            assert(digits@ == seq![c] + before);
            assert(decimal_digits((n / 10) as nat).push(c) + before == decimal_digits(
                (n / 10) as nat,
            ) + digits@);
        }
        n = n / 10;
    }
    let last = digit_for(n as u8);
    let ghost before = digits@;
    digits.insert(0, last);
    proof {
        assert(decimal_digits(n as nat) == seq![last]);
        assert(digits@ == seq![last] + before);
        assert(digits@ == decimal_digits(magnitude as nat));
    }
    if negative {
        digits.insert(0, '-');
        assert(digits@ == seq!['-'] + decimal_digits(magnitude as nat));
    }
    assert(digits@.subrange(0, digits@.len() as int) == digits@);
    string_of(&digits, 0, digits.len())
}

proof fn lemma_digits_value_bounds(s: Seq<char>, k: int)
    requires
        all_digits(s),
        0 <= k <= s.len(),
    ensures
        0 <= digits_value(s.take(k)) <= digits_value(s),
    decreases s.len(),
{
    if k == s.len() {
        assert(s.take(k) == s);
        if s.len() > 0 {
            assert(all_digits(s.drop_last())) by {
                assert forall|i: int| 0 <= i < s.drop_last().len() implies is_digit(
                    #[trigger] s.drop_last()[i],
                ) by {
                    assert(s.drop_last()[i] == s[i]);
                }
            }
            lemma_digits_value_bounds(s.drop_last(), k - 1);
            assert(is_digit(s.last()));
        }
    } else {
        assert(all_digits(s.drop_last())) by {
            assert forall|i: int| 0 <= i < s.drop_last().len() implies is_digit(
                #[trigger] s.drop_last()[i],
            ) by {
                assert(s.drop_last()[i] == s[i]);
            }
        }
        lemma_digits_value_bounds(s.drop_last(), k);
        assert(s.drop_last().take(k) == s.take(k));
        lemma_digits_value_bounds(s.drop_last(), s.len() - 1);
        assert(s.drop_last().take(s.len() - 1) == s.drop_last());
        assert(is_digit(s.last()));
    }
}

/// Reads `chars[from..to]` as a 64-bit integer in decimal.
pub fn parse_i64_in(chars: &Vec<char>, from: usize, to: usize) -> (r: Option<i64>)
    requires
        from <= to <= chars@.len(),
    ensures
        r == parse_i64_spec(chars@.subrange(from as int, to as int)),
{
    let ghost s = chars@.subrange(from as int, to as int);
    if from == to {
        return None;
    }
    let first = chars[from];
    assert(s[0] == first);
    let negative = first == '-';
    let signed = negative || first == '+';
    let start: usize = if signed {
        from + 1
    } else {
        from
    };
    let ghost body = chars@.subrange(start as int, to as int);
    proof {
        if signed {
            assert(body == s.skip(1));
        } else {
            assert(body == s);
        }
    }
    if start == to {
        return None;
    }
    let limit: i128 = 9223372036854775808;
    let mut acc: i128 = 0;
    let mut i: usize = start;
    while i < to
        invariant
            start <= i <= to <= chars@.len(),
            s == chars@.subrange(from as int, to as int),
            s.len() > 0,
            signed == (s[0] == '-' || s[0] == '+'),
            negative == (s[0] == '-'),
            body == if signed {
                s.skip(1)
            } else {
                s
            },
            body == chars@.subrange(start as int, to as int),
            all_digits(body.take(i - start)),
            acc == digits_value(body.take(i - start)),
            0 <= acc <= limit,
            limit == 9223372036854775808,
        decreases to - i,
    {
        let ghost prefix = body.take(i - start);
        let ghost next = body.take(i + 1 - start);
        assert(next.drop_last() == prefix);
        assert(next.last() == chars@[i as int]);
        match value_of_digit(chars[i]) {
            None => {
                assert(!all_digits(body)) by {
                    assert(body[i - start] == chars@[i as int]);
                }
                return None;
            },
            Some(d) => {
                assert(all_digits(next)) by {
                    assert forall|j: int| 0 <= j < next.len() implies is_digit(
                        #[trigger] next[j],
                    ) by {
                        if j < next.len() - 1 {
                            assert(next[j] == prefix[j]);
                        }
                    }
                }
                let wide: i128 = acc * 10 + d as i128;
                if wide > limit {
                    proof {
                        if all_digits(body) {
                            lemma_digits_value_bounds(body, i + 1 - start);
                        }
                    }
                    return None;
                }
                acc = wide;
            },
        }
        i += 1;
    }
    assert(body.take(i - start) == body);
    if negative {
        Some((-acc) as i64)
    } else if acc == limit {
        None
    } else {
        Some(acc as i64)
    }
}

/// Reads `s` as a 64-bit integer in decimal.
pub fn parse_i64(s: &str) -> (r: Option<i64>)
    ensures
        r == parse_i64_spec(s@),
{
    let chars = chars_of(s);
    assert(chars@.subrange(0, chars@.len() as int) == chars@);
    parse_i64_in(&chars, 0, chars.len())
}

/// The position of the first `sep` in `s`, or the length of `s` if there is
/// none.
pub open spec fn first_index_of(s: Seq<char>, sep: char) -> int
    decreases s.len(),
{
    if s.len() == 0 || s[0] == sep {
        0
    } else {
        1 + first_index_of(s.skip(1), sep)
    }
}

/// The numbers of a non-empty comma-joined list, or `None` if a segment of
/// the list is not a 64-bit integer in decimal.
pub open spec fn number_segments(s: Seq<char>) -> Option<Seq<i64>>
    decreases s.len(),
{
    let k = first_index_of(s, ',');
    if 0 <= k <= s.len() {
        match parse_i64_spec(s.take(k)) {
            None => None,
            Some(v) => if k == s.len() {
                Some(seq![v])
            } else {
                match number_segments(s.skip(k + 1)) {
                    None => None,
                    Some(rest) => Some(seq![v] + rest),
                }
            },
        }
    } else {
        None
    }
}

/// The numbers of a comma-joined list. The empty text is the empty list;
/// any other text is split at each comma, and each segment must be a 64-bit
/// integer in decimal.
pub open spec fn number_list(s: Seq<char>) -> Option<Seq<i64>> {
    if s.len() == 0 {
        Some(Seq::empty())
    } else {
        number_segments(s)
    }
}

proof fn lemma_first_index_bounds(s: Seq<char>, sep: char)
    ensures
        0 <= first_index_of(s, sep) <= s.len(),
        first_index_of(s, sep) < s.len() ==> s[first_index_of(s, sep)] == sep,
        forall|j: int| 0 <= j < first_index_of(s, sep) ==> s[j] != sep,
    decreases s.len(),
{
    if s.len() == 0 || s[0] == sep {
    } else {
        lemma_first_index_bounds(s.skip(1), sep);
        let k = first_index_of(s.skip(1), sep);
        assert forall|j: int| 0 <= j < 1 + k implies s[j] != sep by {
            if j > 0 {
                assert(s.skip(1)[j - 1] == s[j]);
            }
        }
        if k < s.skip(1).len() {
            assert(s.skip(1)[k] == s[k + 1]);
        }
    }
}

proof fn lemma_first_index_is(s: Seq<char>, sep: char, k: int)
    requires
        0 <= k <= s.len(),
        forall|j: int| 0 <= j < k ==> s[j] != sep,
        k < s.len() ==> s[k] == sep,
    ensures
        first_index_of(s, sep) == k,
{
    lemma_first_index_bounds(s, sep);
}

/// Reads `chars` as a comma-joined list of 64-bit integers.
pub fn parse_number_list(chars: &Vec<char>) -> (r: Option<Vec<i64>>)
    ensures
        match r {
            Some(v) => number_list(chars@) == Some(v@),
            None => number_list(chars@).is_none(),
        },
{
    let mut out: Vec<i64> = Vec::new();
    if chars.len() == 0 {
        return Some(out);
    }
    let n: usize = chars.len();
    let mut start: usize = 0;
    let mut i: usize = 0;
    proof {
        assert(chars@.skip(0) == chars@);
        match number_segments(chars@) {
            Some(rest) => {
                assert(out@ + rest == rest);
            },
            None => {},
        }
    }
    while i < n
        invariant
            n == chars@.len(),
            start <= i <= n,
            forall|j: int| start <= j < i ==> chars@[j] != ',',
            match number_segments(chars@.skip(start as int)) {
                Some(rest) => number_segments(chars@) == Some(out@ + rest),
                None => number_segments(chars@).is_none(),
            },
        decreases n - i,
    {
        if chars[i] == ',' {
            let ghost tail = chars@.skip(start as int);
            proof {
                assert forall|j: int| 0 <= j < i - start implies tail[j] != ',' by {
                    assert(tail[j] == chars@[start + j]);
                }
                assert(tail[i - start] == chars@[i as int]);
                lemma_first_index_is(tail, ',', i - start);
                assert(tail.take(i - start) == chars@.subrange(start as int, i as int));
                assert(tail.skip(i - start + 1) == chars@.skip(i + 1));
            }
            match parse_i64_in(chars, start, i) {
                None => {
                    return None;
                },
                Some(v) => {
                    proof {
                        match number_segments(chars@.skip(i + 1)) {
                            Some(rest) => {
                                assert(out@ + (seq![v] + rest) == out@.push(v) + rest);
                            },
                            None => {},
                        }
                    }
                    out.push(v);
                },
            }
            start = i + 1;
        }
        i += 1;
    }
    let ghost tail = chars@.skip(start as int);
    proof {
        assert forall|j: int| 0 <= j < n - start implies tail[j] != ',' by {
            assert(tail[j] == chars@[start + j]);
        }
        lemma_first_index_is(tail, ',', n - start);
        assert(tail.take(n - start) == chars@.subrange(start as int, n as int));
    }
    match parse_i64_in(chars, start, n) {
        None => None,
        Some(v) => {
            assert(out@ + seq![v] == out@.push(v));
            out.push(v);
            Some(out)
        },
    }
}

proof fn lemma_decimal_digits(n: nat)
    ensures
        decimal_digits(n).len() > 0,
        all_digits(decimal_digits(n)),
        digits_value(decimal_digits(n)) == n,
    decreases n,
{
    if n < 10 {
        let s = decimal_digits(n);
        assert(s.drop_last().len() == 0);
        assert(digits_value(s.drop_last()) == 0);
        assert(s.last() == digit_char(n as int));
    } else {
        lemma_decimal_digits(n / 10);
        let head = decimal_digits(n / 10);
        let c = digit_char((n % 10) as int);
        let s = head.push(c);
        assert(s.drop_last() == head);
        assert(s.last() == c);
        assert forall|i: int| 0 <= i < s.len() implies is_digit(#[trigger] s[i]) by {
            if i < head.len() {
                assert(s[i] == head[i]);
            }
        }
    }
}

/// Reading gives back what was written: the decimal text of a 64-bit
/// integer stands for that integer.
pub proof fn lemma_parse_of_decimal(v: i64)
    ensures
        parse_i64_spec(decimal(v as int)) == Some(v),
{
    let s = decimal(v as int);
    if v < 0 {
        let digits = decimal_digits((-v) as nat);
        lemma_decimal_digits((-v) as nat);
        assert(s[0] == '-');
        assert(s.skip(1) == digits);
    } else {
        lemma_decimal_digits(v as nat);
        assert(is_digit(s[0]));
    }
}

} // verus!
