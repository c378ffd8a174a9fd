//! Texts as sequences of characters: trimming, lines, numbers, order.

use vstd::prelude::*;

verus! {

/// Whether `c` has the Unicode property `White_Space`.
pub open spec fn is_space(c: char) -> bool {
    let n = c as u32;
    ||| 0x09 <= n <= 0x0d
    ||| n == 0x20
    ||| n == 0x85
    ||| n == 0xa0
    ||| n == 0x1680
    ||| 0x2000 <= n <= 0x200a
    ||| n == 0x2028
    ||| n == 0x2029
    ||| n == 0x202f
    ||| n == 0x205f
    ||| n == 0x3000
}

/// Whether `c` is white space.
pub fn is_whitespace(c: char) -> (r: bool)
    ensures
        r == is_space(c),
{
    let n: u32 = c as u32;
    (0x09 <= n && n <= 0x0d) || n == 0x20 || n == 0x85 || n == 0xa0 || n == 0x1680 || (0x2000 <= n
        && n <= 0x200a) || n == 0x2028 || n == 0x2029 || n == 0x202f || n == 0x205f || n == 0x3000
}

/// The characters of a text, one by one.
pub fn chars_of(s: &str) -> (r: Vec<char>)
    ensures
        r@ == s@,
{
    let mut out: Vec<char> = Vec::new();
    for c in it: s.chars()
        invariant
            it.seq() == s@,
            out@ == s@.take(it.index() as int),
    {
        out.push(c);
    }
    out
}

/// The text made of the characters from `from` up to `to`.
pub fn text_of(chars: &Vec<char>, from: usize, to: usize) -> (r: String)
    requires
        from <= to <= chars.len(),
    ensures
        r@ == chars@.subrange(from as int, to as int),
{
    let mut out = String::new();
    let mut i: usize = from;
    while i < to
        invariant
            from <= i <= to <= chars.len(),
            out@ == chars@.subrange(from as int, i as int),
        decreases to - i,
    {
        out.push(chars[i]);
        i = i + 1;
        assert(chars@.subrange(from as int, i as int) =~= chars@.subrange(
            from as int,
            i - 1,
        ).push(chars@[i - 1]));
    }
    out
}

/// The characters of a text that may be missing.
pub open spec fn optional(s: Option<String>) -> Option<Seq<char>> {
    match s {
        Some(t) => Some(t@),
        None => None,
    }
}

// ---------------------------------------------------------------- trimming

/// `s` without the white space at its start.
pub open spec fn trim_start(s: Seq<char>) -> Seq<char>
    decreases s.len(),
{
    if s.len() > 0 && is_space(s[0]) {
        trim_start(s.drop_first())
    } else {
        s
    }
}

/// `s` without the white space at its end.
pub open spec fn trim_end(s: Seq<char>) -> Seq<char>
    decreases s.len(),
{
    if s.len() > 0 && is_space(s.last()) {
        trim_end(s.drop_last())
    } else {
        s
    }
}

/// `s` without the white space at its two ends.
pub open spec fn trimmed(s: Seq<char>) -> Seq<char> {
    trim_end(trim_start(s))
}

/// A text without the white space at its two ends.
pub fn trim(s: &str) -> (r: String)
    ensures
        r@ == trimmed(s@),
{
    let chars = chars_of(s);
    let mut from: usize = 0;
    assert(chars@.subrange(0, chars@.len() as int) =~= chars@);
    while from < chars.len() && is_whitespace(chars[from])
        invariant
            from <= chars.len(),
            trim_start(chars@) == trim_start(chars@.subrange(from as int, chars@.len() as int)),
        decreases chars.len() - from,
    {
        assert(chars@.subrange(from as int, chars@.len() as int).drop_first() =~= chars@.subrange(
            from + 1,
            chars@.len() as int,
        ));
        from = from + 1;
    }
    let ghost start = trim_start(chars@);
    let mut to: usize = chars.len();
    while from < to && is_whitespace(chars[to - 1])
        invariant
            from <= to <= chars.len(),
            trim_end(start) == trim_end(chars@.subrange(from as int, to as int)),
        decreases to,
    {
        assert(chars@.subrange(from as int, to as int).drop_last() =~= chars@.subrange(
            from as int,
            to - 1,
        ));
        to = to - 1;
    }
    text_of(&chars, from, to)
}

// ---------------------------------------------------------------- numbers

/// The decimal digit `d` as a character.
pub open spec fn digit(d: nat) -> char {
    (('0' as u32) + d) as char
}

/// Whether `c` is one of the ten decimal digits.
pub open spec fn is_digit(c: char) -> bool {
    '0' <= c <= '9'
}

/// The value of a decimal digit.
pub open spec fn digit_value(c: char) -> nat {
    ((c as u32) - ('0' as u32)) as nat
}

/// `n` in decimal, without leading zeros.
pub open spec fn decimal(n: nat) -> Seq<char>
    decreases n,
{
    if n < 10 {
        seq![digit(n)]
    } else {
        decimal(n / 10).push(digit(n % 10))
    }
}

/// The value of a sequence of decimal digits.
pub open spec fn digits_value(s: Seq<char>) -> nat
    decreases s.len(),
{
    if s.len() == 0 {
        0
    } else {
        digits_value(s.drop_last()) * 10 + digit_value(s.last())
    }
}

/// Whether `s` is made of decimal digits only.
pub open spec fn all_digits(s: Seq<char>) -> bool {
    forall|i: int| 0 <= i < s.len() ==> is_digit(#[trigger] s[i])
}

/// `s` without a plus sign at its start.
pub open spec fn without_plus(s: Seq<char>) -> Seq<char> {
    if s.len() > 0 && s[0] == '+' {
        s.drop_first()
    } else {
        s
    }
}

/// The natural number that `s` writes in decimal: at least one digit, with at
/// most a plus sign in front.
pub open spec fn number(s: Seq<char>) -> Option<nat> {
    let digits = without_plus(s);
    if digits.len() > 0 && all_digits(digits) {
        Some(digits_value(digits))
    } else {
        None
    }
}

/// The number that `s` writes, where it is at most `max`.
pub open spec fn number_up_to(s: Seq<char>, max: nat) -> Option<nat> {
    match number(s) {
        Some(n) if n <= max => Some(n),
        _ => None,
    }
}

fn digit_char(d: u64) -> (c: char)
    requires
        d < 10,
    ensures
        c == digit(d as nat),
{
    match d {
        0 => '0',
        1 => '1',
        2 => '2',
        3 => '3',
        4 => '4',
        5 => '5',
        6 => '6',
        7 => '7',
        8 => '8',
        _ => '9',
    }
}

fn push_decimal(out: &mut String, n: u64)
    ensures
        final(out)@ == old(out)@ + decimal(n as nat),
    decreases n,
{
    if n >= 10 {
        push_decimal(out, n / 10);
    }
    out.push(digit_char(n % 10));
    proof {
        if n >= 10 {
            assert(old(out)@ + decimal((n / 10) as nat).push(digit((n % 10) as nat)) =~= (old(out)@
                + decimal((n / 10) as nat)).push(digit((n % 10) as nat)));
        } else {
            assert(old(out)@ + seq![digit(n as nat)] =~= old(out)@.push(digit(n as nat)));
        }
    }
}

/// `n` in decimal.
pub fn decimal_text(n: u64) -> (r: String)
    ensures
        r@ == decimal(n as nat),
{
    let mut out = String::new();
    push_decimal(&mut out, n);
    assert(Seq::<char>::empty() + decimal(n as nat) =~= decimal(n as nat));
    out
}

proof fn digits_value_grows(s: Seq<char>, i: int)
    requires
        0 <= i <= s.len(),
    ensures
        digits_value(s.take(i)) <= digits_value(s),
    decreases s.len() - i,
{
    if i < s.len() {
        digits_value_grows(s, i + 1);
        assert(s.take(i + 1).drop_last() =~= s.take(i));
    } else {
        assert(s.take(i) =~= s);
    }
}

/// The number that `s` writes in decimal, if it writes one that is at most `max`.
pub fn parse_number(s: &str, max: u64) -> (r: Option<u64>)
    ensures
        match r {
            Some(n) => number_up_to(s@, max as nat) == Some(n as nat),
            None => number_up_to(s@, max as nat) is None,
        },
{
    let chars = chars_of(s);
    let mut i: usize = 0;
    if chars.len() > 0 && chars[0] == '+' {
        i = 1;
    }
    let ghost digits = without_plus(s@);
    let start: usize = i;
    assert(digits =~= chars@.subrange(start as int, chars@.len() as int));
    if i == chars.len() {
        return None;
    }
    let mut value: u64 = 0;
    assert(digits.take(0) =~= Seq::<char>::empty());
    while i < chars.len()
        invariant
            start <= i <= chars.len(),
            chars@ == s@,
            digits == without_plus(s@),
            digits == chars@.subrange(start as int, chars@.len() as int),
            digits.len() > 0,
            forall|k: int| 0 <= k < i - start ==> is_digit(#[trigger] digits[k]),
            value == digits_value(digits.take(i - start)),
            value <= max,
        decreases chars.len() - i,
    {
        let c = chars[i];
        let ghost k = i - start;
        assert(digits[k] == c);
        if c < '0' || c > '9' {
            assert(!is_digit(digits[k]));
            return None;
        }
        let d: u64 = (c as u32 - '0' as u32) as u64;
        proof {
            assert(digits.take(k + 1).drop_last() =~= digits.take(k));
            assert(digits.take(k + 1).last() == c);
            assert(digits_value(digits.take(k + 1)) == value * 10 + d);
            digits_value_grows(digits, k + 1);
        }
        if value > (u64::MAX - d) / 10 || value * 10 + d > max {
            assert(value * 10 + d > max);
            return None;
        }
        value = value * 10 + d;
        i = i + 1;
    }
    assert(digits.take(digits.len() as int) =~= digits);
    Some(value)
}

/// Writing a number in decimal and reading it gives the number back.
pub proof fn decimal_reads_back(n: nat)
    ensures
        number(decimal(n)) == Some(n),
        decimal(n).len() > 0,
        all_digits(decimal(n)),
{
    decimal_digits(n);
    assert(is_digit(decimal(n)[0]));
}

proof fn decimal_digits(n: nat)
    ensures
        decimal(n).len() > 0,
        all_digits(decimal(n)),
        digits_value(decimal(n)) == n,
    decreases n,
{
    if n < 10 {
        let s = seq![digit(n)];
        assert(s.drop_last() =~= Seq::<char>::empty());
        assert(s.last() == digit(n));
        assert(digits_value(s) == digits_value(s.drop_last()) * 10 + digit_value(s.last()));
        assert(digits_value(s.drop_last()) == 0);
    } else {
        decimal_digits(n / 10);
        let s = decimal(n);
        assert(s.drop_last() =~= decimal(n / 10));
        assert(s.last() == digit(n % 10));
        assert forall|i: int| 0 <= i < s.len() implies is_digit(#[trigger] s[i]) by {
            if i < s.len() - 1 {
                assert(s[i] == decimal(n / 10)[i]);
            }
        }
    }
}

// ---------------------------------------------------------------- lines

/// The index of the first line feed in `s`, or its length if it has none.
pub open spec fn line_feed(s: Seq<char>) -> int
    decreases s.len(),
{
    if s.len() == 0 || s[0] == '\n' {
        0
    } else {
        1 + line_feed(s.drop_first())
    }
}

/// A line that a line feed ended, without a carriage return at its end.
pub open spec fn without_return(line: Seq<char>) -> Seq<char> {
    if line.len() > 0 && line.last() == '\r' {
        line.drop_last()
    } else {
        line
    }
}

/// The lines of `s`. A line ends at a line feed, with or without a carriage
/// return before it, or at the end of the text; the line ends are not part of
/// the lines, and an empty rest is no line.
pub open spec fn lines(s: Seq<char>) -> Seq<Seq<char>>
    decreases s.len(),
{
    if s.len() == 0 {
        seq![]
    } else if line_feed(s) == s.len() {
        seq![s]
    } else {
        proof {
            line_feed_bounds(s);
        }
        seq![without_return(s.take(line_feed(s)))] + lines(s.skip(line_feed(s) + 1))
    }
}

/// The last line that is not empty, with its number; the first line has number 0.
pub open spec fn last_filled(ls: Seq<Seq<char>>) -> Option<(int, Seq<char>)>
    decreases ls.len(),
{
    if ls.len() == 0 {
        None
    } else if ls.last().len() > 0 {
        Some((ls.len() - 1, ls.last()))
    } else {
        last_filled(ls.drop_last())
    }
}

/// `line_feed(s)` is where the first line feed of `s` stands, or its length.
pub proof fn line_feed_bounds(s: Seq<char>)
    ensures
        0 <= line_feed(s) <= s.len(),
        line_feed(s) < s.len() ==> s[line_feed(s)] == '\n',
        forall|i: int| 0 <= i < line_feed(s) ==> s[i] != '\n',
    decreases s.len(),
{
    if s.len() > 0 && s[0] != '\n' {
        line_feed_bounds(s.drop_first());
        assert forall|i: int| 0 <= i < line_feed(s) implies s[i] != '\n' by {
            if i > 0 {
                assert(s[i] == s.drop_first()[i - 1]);
            }
        }
    }
}

proof fn line_feed_at(s: Seq<char>, i: int)
    requires
        0 <= i <= s.len(),
        i < s.len() ==> s[i] == '\n',
        forall|k: int| 0 <= k < i ==> s[k] != '\n',
    ensures
        line_feed(s) == i,
{
    line_feed_bounds(s);
}

/// The number and the extent of the last line of `chars` that is not empty.
pub fn last_filled_line(chars: &Vec<char>) -> (r: Option<(usize, usize, usize)>)
    ensures
        match r {
            Some((n, from, to)) => {
                &&& from <= to <= chars.len()
                &&& last_filled(lines(chars@)) == Some(
                    (n as int, chars@.subrange(from as int, to as int)),
                )
            },
            None => last_filled(lines(chars@)) is None,
        },
{
    let mut found: Option<(usize, usize, usize)> = None;
    let mut start: usize = 0;
    let mut count: usize = 0;
    let ghost mut done: Seq<Seq<char>> = seq![];
    proof {
        assert(chars@.skip(0) =~= chars@);
        assert(done + lines(chars@) =~= lines(chars@));
    }
    while start < chars.len()
        invariant
            start <= chars.len(),
            count == done.len(),
            count <= start,
            lines(chars@) == done + lines(chars@.skip(start as int)),
            match found {
                Some((n, from, to)) => {
                    &&& from <= to <= chars.len()
                    &&& last_filled(done) == Some(
                        (n as int, chars@.subrange(from as int, to as int)),
                    )
                },
                None => last_filled(done) is None,
            },
        decreases chars.len() - start,
    {
        let ghost rest = chars@.skip(start as int);
        let mut end: usize = start;
        while end < chars.len() && chars[end] != '\n'
            invariant
                start <= end <= chars.len(),
                forall|k: int| start <= k < end ==> chars@[k] != '\n',
            decreases chars.len() - end,
        {
            end = end + 1;
        }
        proof {
            line_feed_bounds(rest);
            line_feed_at(rest, end - start);
        }
        let mut to: usize = end;
        if end < chars.len() && end > start && chars[end - 1] == '\r' {
            to = end - 1;
        }
        let ghost line = chars@.subrange(start as int, to as int);
        proof {
            assert(rest.take(end - start) =~= chars@.subrange(start as int, end as int));
            if end < chars.len() {
                assert(line =~= without_return(rest.take(end - start)));
                assert(rest.skip(end - start + 1) =~= chars@.skip(end + 1));
                assert(lines(rest) == seq![line] + lines(chars@.skip(end + 1)));
                assert(done + (seq![line] + lines(chars@.skip(end + 1))) =~= done.push(line)
                    + lines(chars@.skip(end + 1)));
            } else {
                assert(line =~= rest);
                assert(lines(rest) == seq![line]);
                assert(chars@.skip(end as int) =~= Seq::<char>::empty());
                assert(lines(chars@.skip(end as int)) =~= Seq::<Seq<char>>::empty());
                assert(done + seq![line] =~= done.push(line) + lines(chars@.skip(end as int)));
            }
            assert(done.push(line).drop_last() =~= done);
        }
        if to > start {
            found = Some((count, start, to));
        }
        proof {
            done = done.push(line);
        }
        count = count + 1;
        if end < chars.len() {
            start = end + 1;
        } else {
            start = end;
        }
    }
    proof {
        assert(chars@.skip(start as int) =~= Seq::<char>::empty());
        assert(lines(chars@.skip(start as int)) =~= Seq::<Seq<char>>::empty());
        assert(done + lines(chars@.skip(start as int)) =~= done);
    }
    found
}

// ---------------------------------------------------------------- laws of lines

/// How many line feeds a text has.
pub open spec fn line_feeds(s: Seq<char>) -> nat
    decreases s.len(),
{
    if s.len() == 0 {
        0
    } else {
        (if s[0] == '\n' {
            1nat
        } else {
            0nat
        }) + line_feeds(s.drop_first())
    }
}

/// Whether a text is made of whole lines: it is empty or ends in a line feed.
pub open spec fn whole_lines(s: Seq<char>) -> bool {
    s.len() == 0 || s.last() == '\n'
}

/// Whether a text is part of a single line.
pub open spec fn within_line(s: Seq<char>) -> bool {
    forall|i: int| 0 <= i < s.len() ==> #[trigger] s[i] != '\n'
}

/// The line feeds of two texts are those of their concatenation.
pub proof fn line_feeds_add(a: Seq<char>, b: Seq<char>)
    ensures
        line_feeds(a + b) == line_feeds(a) + line_feeds(b),
    decreases a.len(),
{
    if a.len() == 0 {
        assert(a + b =~= b);
    } else {
        line_feeds_add(a.drop_first(), b);
        assert((a + b).drop_first() =~= a.drop_first() + b);
    }
}

/// A text within a line has no line feeds.
pub proof fn within_line_has_none(s: Seq<char>)
    requires
        within_line(s),
    ensures
        line_feeds(s) == 0,
    decreases s.len(),
{
    if s.len() > 0 {
        assert forall|i: int| 0 <= i < s.drop_first().len() implies #[trigger] s.drop_first()[i]
            != '\n' by {
            assert(s[i + 1] != '\n');
        }
        within_line_has_none(s.drop_first());
    }
}

/// The lines of a text that follows on whole lines come after those.
pub proof fn lines_join(a: Seq<char>, b: Seq<char>)
    requires
        whole_lines(a),
    ensures
        lines(a + b) == lines(a) + lines(b),
    decreases a.len(),
{
    if a.len() == 0 {
        assert(a + b =~= b);
        assert(lines(a) + lines(b) =~= lines(b));
    } else {
        line_feed_bounds(a);
        let k = line_feed(a);
        assert(k < a.len()) by {
            if k == a.len() {
                assert(a[a.len() - 1] != '\n');
            }
        }
        line_feed_at(a + b, k);
        let rest = a.skip(k + 1);
        assert((a + b).take(k) =~= a.take(k));
        assert((a + b).skip(k + 1) =~= rest + b);
        lines_join(rest, b);
        let first = seq![without_return(a.take(k))];
        assert(first + (lines(rest) + lines(b)) =~= (first + lines(rest)) + lines(b));
    }
}

/// Whole lines are as many as their line feeds; a text has at most one line more.
pub proof fn lines_are_counted(s: Seq<char>)
    ensures
        whole_lines(s) ==> lines(s).len() == line_feeds(s),
        line_feeds(s) <= lines(s).len() <= line_feeds(s) + 1,
    decreases s.len(),
{
    if s.len() > 0 {
        line_feed_bounds(s);
        let k = line_feed(s);
        if k == s.len() {
            within_line_has_none(s);
            if whole_lines(s) {
                assert(s[s.len() - 1] != '\n');
            }
        } else {
            let (head, rest) = (s.take(k), s.skip(k + 1));
            lines_are_counted(rest);
            within_line_has_none(head);
            assert(s =~= head + (seq!['\n'] + rest));
            line_feeds_add(head, seq!['\n'] + rest);
            assert((seq!['\n'] + rest).drop_first() =~= rest);
            if whole_lines(s) && rest.len() > 0 {
                assert(rest.last() == s.last());
            }
        }
    }
}

/// A line is a part of the text, which starts after as many line feeds as its number says.
pub proof fn line_is_part(s: Seq<char>, n: int) -> (j: int)
    requires
        0 <= n < lines(s).len(),
    ensures
        0 <= j <= j + lines(s)[n].len() <= s.len(),
        lines(s)[n] == s.subrange(j, j + lines(s)[n].len()),
        line_feeds(s.take(j)) == n,
        within_line(lines(s)[n]),
    decreases s.len(),
{
    line_feed_bounds(s);
    let k = line_feed(s);
    if k == s.len() {
        assert(s.subrange(0, s.len() as int) =~= s);
        assert(s.take(0) =~= Seq::<char>::empty());
        0
    } else if n == 0 {
        let line = without_return(s.take(k));
        assert(line =~= s.subrange(0, line.len() as int));
        assert(s.take(0) =~= Seq::<char>::empty());
        0
    } else {
        let rest = s.skip(k + 1);
        let j = line_is_part(rest, n - 1);
        let line = lines(rest)[n - 1];
        assert(lines(s)[n] == line);
        assert(s.subrange(j + k + 1, j + k + 1 + line.len()) =~= rest.subrange(
            j,
            j + line.len(),
        ));
        assert(s.take(j + k + 1) =~= s.take(k) + (seq!['\n'] + rest.take(j)));
        line_feeds_add(s.take(k), seq!['\n'] + rest.take(j));
        within_line_has_none(s.take(k));
        assert((seq!['\n'] + rest.take(j)).drop_first() =~= rest.take(j));
        j + k + 1
    }
}

/// The last line that is not empty, of two lists of lines one after the other.
pub proof fn last_filled_join(x: Seq<Seq<char>>, y: Seq<Seq<char>>)
    ensures
        last_filled(x + y) == (match last_filled(y) {
            Some((n, line)) => Some((x.len() + n, line)),
            None => last_filled(x),
        }),
    decreases y.len(),
{
    if y.len() == 0 {
        assert(x + y =~= x);
    } else {
        assert((x + y).last() == y.last());
        assert((x + y).drop_last() =~= x + y.drop_last());
        last_filled_join(x, y.drop_last());
    }
}

/// The last line that is not empty is one of the lines, and none after it has anything in it.
pub proof fn last_filled_is_last(ls: Seq<Seq<char>>)
    ensures
        match last_filled(ls) {
            Some((n, line)) => {
                &&& 0 <= n < ls.len()
                &&& ls[n] == line
                &&& line.len() > 0
                &&& forall|k: int| n < k < ls.len() ==> (#[trigger] ls[k]).len() == 0
            },
            None => forall|k: int| 0 <= k < ls.len() ==> (#[trigger] ls[k]).len() == 0,
        },
    decreases ls.len(),
{
    if ls.len() > 0 && ls.last().len() == 0 {
        let before = ls.drop_last();
        last_filled_is_last(before);
        assert forall|k: int| 0 <= k < before.len() implies before[k] == ls[k] by {}
        match last_filled(ls) {
            Some((n, line)) => {
                assert(before[n] == ls[n]);
                assert forall|k: int| n < k < ls.len() implies (#[trigger] ls[k]).len() == 0 by {
                    if k < before.len() {
                        assert(before[k].len() == 0);
                    }
                }
            },
            None => {
                assert forall|k: int| 0 <= k < ls.len() implies (#[trigger] ls[k]).len() == 0 by {
                    if k < before.len() {
                        assert(before[k].len() == 0);
                    }
                }
            },
        }
    }
}

/// A text without white space to trim from is a part of the text, and all around it is
/// white space.
pub proof fn trimmed_is_part(s: Seq<char>) -> (i: int)
    ensures
        0 <= i <= i + trimmed(s).len() <= s.len(),
        trimmed(s) == s.subrange(i, i + trimmed(s).len()),
        forall|k: int| 0 <= k < i ==> is_space(#[trigger] s[k]),
        forall|k: int| i + trimmed(s).len() <= k < s.len() ==> is_space(#[trigger] s[k]),
        trimmed(s).len() > 0 ==> !is_space(trimmed(s)[0]) && !is_space(trimmed(s).last()),
{
    let i = trim_start_is_part(s);
    let t = trim_start(s);
    trim_end_is_part(t);
    let e = trim_end(t);
    assert(s.subrange(i, i + e.len()) =~= e);
    assert forall|k: int| i + e.len() <= k < s.len() implies is_space(#[trigger] s[k]) by {
        assert(t[k - i] == s[k]);
    }
    i
}

proof fn trim_start_is_part(s: Seq<char>) -> (i: int)
    ensures
        0 <= i <= s.len(),
        trim_start(s) == s.skip(i),
        forall|k: int| 0 <= k < i ==> is_space(#[trigger] s[k]),
        i < s.len() ==> !is_space(s[i]),
    decreases s.len(),
{
    if s.len() > 0 && is_space(s[0]) {
        let j = trim_start_is_part(s.drop_first());
        assert(s.skip(j + 1) =~= s.drop_first().skip(j));
        assert forall|k: int| 0 <= k < j + 1 implies is_space(#[trigger] s[k]) by {
            if k > 0 {
                assert(s.drop_first()[k - 1] == s[k]);
            }
        }
        if j + 1 < s.len() {
            assert(s.drop_first()[j] == s[j + 1]);
        }
        j + 1
    } else {
        assert(s.skip(0) =~= s);
        0
    }
}

proof fn trim_end_is_part(s: Seq<char>)
    ensures
        trim_end(s).len() <= s.len(),
        trim_end(s) == s.take(trim_end(s).len() as int),
        forall|k: int| trim_end(s).len() <= k < s.len() ==> is_space(#[trigger] s[k]),
        trim_end(s).len() > 0 ==> !is_space(trim_end(s).last()),
    decreases s.len(),
{
    if s.len() > 0 && is_space(s.last()) {
        trim_end_is_part(s.drop_last());
        let n = trim_end(s).len() as int;
        assert(s.take(n) =~= s.drop_last().take(n));
        assert forall|k: int| n <= k < s.len() implies is_space(#[trigger] s[k]) by {
            if k < s.len() - 1 {
                assert(s.drop_last()[k] == s[k]);
            }
        }
    } else {
        assert(s.take(s.len() as int) =~= s);
    }
}

/// The characters that are white space, one by one.
pub open spec fn white_space() -> Seq<char> {
    seq![
        '\t',
        '\n',
        '\u{b}',
        '\u{c}',
        '\r',
        ' ',
        '\u{85}',
        '\u{a0}',
        '\u{1680}',
        '\u{2000}',
        '\u{2001}',
        '\u{2002}',
        '\u{2003}',
        '\u{2004}',
        '\u{2005}',
        '\u{2006}',
        '\u{2007}',
        '\u{2008}',
        '\u{2009}',
        '\u{200a}',
        '\u{2028}',
        '\u{2029}',
        '\u{202f}',
        '\u{205f}',
        '\u{3000}',
    ]
}

/// White space is made of these characters and no others.
pub proof fn white_space_is_listed(c: char)
    ensures
        is_space(c) <==> white_space().contains(c),
{
    let w = white_space();
    if is_space(c) {
        let n = c as u32;
        let i: int = if n <= 0x0d {
            n - 0x09
        } else if n == 0x20 {
            5
        } else if n == 0x85 {
            6
        } else if n == 0xa0 {
            7
        } else if n == 0x1680 {
            8
        } else if n <= 0x200a {
            9 + n - 0x2000
        } else if n == 0x2028 {
            20
        } else if n == 0x2029 {
            21
        } else if n == 0x202f {
            22
        } else if n == 0x205f {
            23
        } else {
            24
        };
        assert(w[i] == c);
    }
}

// ---------------------------------------------------------------- parts

/// Whether `part` occurs in `s` from index `i` on.
pub open spec fn occurs_at(s: Seq<char>, part: Seq<char>, i: int) -> bool {
    0 <= i <= s.len() - part.len() && s.subrange(i, i + part.len()) == part
}

/// Whether `part` occurs somewhere in `s`.
pub open spec fn occurs(s: Seq<char>, part: Seq<char>) -> bool {
    exists|i: int| occurs_at(s, part, i)
}

/// Whether the characters from `from` on are those of `part`.
pub fn matches_at(chars: &Vec<char>, part: &Vec<char>, from: usize) -> (r: bool)
    requires
        from <= chars.len(),
    ensures
        r == occurs_at(chars@, part@, from as int),
{
    if part.len() > chars.len() - from {
        return false;
    }
    let mut k: usize = 0;
    while k < part.len()
        invariant
            from + part.len() <= chars.len(),
            k <= part.len(),
            forall|j: int| 0 <= j < k ==> chars@[from + j] == #[trigger] part@[j],
        decreases part.len() - k,
    {
        if chars[from + k] != part[k] {
            assert(chars@.subrange(from as int, from + part@.len())[k as int] != part@[k as int]);
            return false;
        }
        k = k + 1;
    }
    assert(chars@.subrange(from as int, from + part@.len()) =~= part@);
    true
}

/// Whether `part` occurs somewhere in `s`.
pub fn contains_text(s: &str, part: &str) -> (r: bool)
    ensures
        r == occurs(s@, part@),
{
    let chars = chars_of(s);
    let wanted = chars_of(part);
    let mut i: usize = 0;
    while i < chars.len()
        invariant
            i <= chars.len(),
            chars@ == s@,
            wanted@ == part@,
            forall|k: int| 0 <= k < i ==> !occurs_at(s@, part@, k),
        decreases chars.len() - i,
    {
        if matches_at(&chars, &wanted, i) {
            return true;
        }
        i = i + 1;
    }
    matches_at(&chars, &wanted, i)
}

/// `s` cut to `len` characters, with an ellipsis where something was cut off.
pub open spec fn truncated(s: Seq<char>, len: nat) -> Seq<char> {
    if s.len() > len {
        s.take(len as int) + "..."@
    } else {
        s
    }
}

/// Truncates a string to a certain length and adds an ellipsis at the end.
pub fn truncate(s: &str, len: usize) -> (r: String)
    ensures
        r@ == truncated(s@, len as nat),
{
    let chars = chars_of(s);
    if chars.len() > len {
        let mut out = text_of(&chars, 0, len);
        assert(out@ =~= s@.take(len as int));
        out.append("...");
        out
    } else {
        s.to_owned()
    }
}

// ---------------------------------------------------------------- order

/// Whether `a` comes before `b` in the order of their characters' code points,
/// or is equal to it.
pub open spec fn text_le(a: Seq<char>, b: Seq<char>) -> bool
    decreases a.len(),
{
    if a.len() == 0 {
        true
    } else if b.len() == 0 {
        false
    } else if a[0] != b[0] {
        a[0] < b[0]
    } else {
        text_le(a.drop_first(), b.drop_first())
    }
}

/// Whether `a` comes before `b` or is equal to it.
pub fn text_at_most(a: &str, b: &str) -> (r: bool)
    ensures
        r == text_le(a@, b@),
{
    let x = chars_of(a);
    let y = chars_of(b);
    let mut i: usize = 0;
    assert(x@.skip(0) =~= x@);
    assert(y@.skip(0) =~= y@);
    while i < x.len() && i < y.len() && x[i] == y[i]
        invariant
            i <= x.len(),
            i <= y.len(),
            text_le(x@, y@) == text_le(x@.skip(i as int), y@.skip(i as int)),
        decreases x.len() - i,
    {
        assert(x@.skip(i as int).drop_first() =~= x@.skip(i + 1));
        assert(y@.skip(i as int).drop_first() =~= y@.skip(i + 1));
        i = i + 1;
    }
    if i == x.len() {
        true
    } else if i == y.len() {
        false
    } else {
        x[i] < y[i]
    }
}

/// Of two texts each comes before the other or is equal to it.
pub proof fn text_le_total(a: Seq<char>, b: Seq<char>)
    ensures
        text_le(a, b) || text_le(b, a),
    decreases a.len(),
{
    if a.len() > 0 && b.len() > 0 && a[0] == b[0] {
        text_le_total(a.drop_first(), b.drop_first());
    }
}

/// The order of texts is transitive.
pub proof fn text_le_transitive(a: Seq<char>, b: Seq<char>, c: Seq<char>)
    requires
        text_le(a, b),
        text_le(b, c),
    ensures
        text_le(a, c),
    decreases a.len(),
{
    if a.len() > 0 && b.len() > 0 && c.len() > 0 && a[0] == b[0] && b[0] == c[0] {
        text_le_transitive(a.drop_first(), b.drop_first(), c.drop_first());
    }
}

/// Two texts that come before each other are equal.
pub proof fn text_le_antisymmetric(a: Seq<char>, b: Seq<char>)
    requires
        text_le(a, b),
        text_le(b, a),
    ensures
        a == b,
    decreases a.len(),
{
    if a.len() > 0 && b.len() > 0 {
        text_le_antisymmetric(a.drop_first(), b.drop_first());
        assert(a =~= seq![a[0]] + a.drop_first());
        assert(b =~= seq![b[0]] + b.drop_first());
    } else {
        assert(a =~= b);
    }
}

/// The texts of a list of strings.
pub open spec fn texts(v: Seq<String>) -> Seq<Seq<char>> {
    v.map_values(|s: String| s@)
}

/// Whether a list of texts is in order.
pub open spec fn in_order(s: Seq<Seq<char>>) -> bool {
    forall|i: int, j: int| 0 <= i <= j < s.len() ==> text_le(#[trigger] s[i], #[trigger] s[j])
}

/// The texts of `s` in order.
pub open spec fn sorted(s: Seq<Seq<char>>) -> Seq<Seq<char>> {
    s.sort_by(|a: Seq<char>, b: Seq<char>| text_le(a, b))
}

/// A list in order that holds the same texts as `s` is `sorted(s)`.
pub proof fn sorted_is(s: Seq<Seq<char>>, t: Seq<Seq<char>>)
    requires
        in_order(t),
        t.to_multiset() == s.to_multiset(),
    ensures
        t == sorted(s),
{
    let leq = |a: Seq<char>, b: Seq<char>| text_le(a, b);
    assert(vstd::relations::total_ordering(leq)) by {
        assert forall|x: Seq<char>| #[trigger] leq(x, x) by {
            text_le_total(x, x);
        }
        assert forall|x: Seq<char>, y: Seq<char>|
            #[trigger] leq(x, y) && #[trigger] leq(y, x) implies x == y by {
            text_le_antisymmetric(x, y);
        }
        assert forall|x: Seq<char>, y: Seq<char>, z: Seq<char>|
            #[trigger] leq(x, y) && #[trigger] leq(y, z) implies leq(x, z) by {
            text_le_transitive(x, y, z);
        }
        assert forall|x: Seq<char>, y: Seq<char>|
            #[trigger] leq(x, y) || #[trigger] leq(y, x) by {
            text_le_total(x, y);
        }
    }
    s.lemma_sort_by_ensures(leq);
    vstd::seq_lib::lemma_sorted_unique(t, s.sort_by(leq), leq);
}

/// Puts a list of strings in order.
pub fn sort_texts(v: Vec<String>) -> (r: Vec<String>)
    ensures
        texts(r@) == sorted(texts(v@)),
{
    let mut out: Vec<String> = Vec::new();
    let mut i: usize = 0;
    proof {
        assert(texts(out@) =~= texts(v@).take(0));
    }
    while i < v.len()
        invariant
            i <= v.len(),
            in_order(texts(out@)),
            texts(out@).to_multiset() == texts(v@).take(i as int).to_multiset(),
        decreases v.len() - i,
    {
        let mut k: usize = out.len();
        while k > 0 && !text_at_most(out[k - 1].as_str(), v[i].as_str())
            invariant
                i < v.len(),
                k <= out.len(),
                forall|j: int|
                    k <= j < out.len() ==> !text_le(#[trigger] texts(out@)[j], v@[i as int]@),
            decreases k,
        {
            k = k - 1;
        }
        let ghost before = texts(out@);
        let ghost new = v@[i as int]@;
        let item = v[i].clone();
        out.insert(k, item);
        proof {
            let after = texts(out@);
            assert(after =~= before.insert(k as int, new));
            before.insert_ensures(k as int, new);
            assert forall|a: int, b: int| 0 <= a <= b < after.len() implies text_le(
                #[trigger] after[a],
                #[trigger] after[b],
            ) by {
                if a == b {
                    text_le_total(after[a], after[a]);
                } else if a < k && b < k {
                    assert(text_le(before[a], before[b]));
                } else if a > k {
                    assert(text_le(before[a - 1], before[b - 1]));
                } else if a < k && b > k {
                    assert(text_le(before[a], before[b - 1]));
                } else if a < k {
                    assert(text_le(before[a], before[k - 1]));
                    assert(text_le(before[k - 1], new));
                    text_le_transitive(before[a], before[k - 1], new);
                } else {
                    text_le_total(new, before[b - 1]);
                }
            }
            broadcast use vstd::seq_lib::group_to_multiset_ensures;
            assert(texts(v@).take(i + 1) =~= texts(v@).take(i as int).push(new));
            vstd::seq_lib::to_multiset_insert(before, k as int, new);
            vstd::seq_lib::to_multiset_build(texts(v@).take(i as int), new);
        }
        i = i + 1;
    }
    proof {
        assert(texts(v@).take(v@.len() as int) =~= texts(v@));
        sorted_is(texts(v@), texts(out@));
    }
    out
}

// ---------------------------------------------------------------- laws of order and parts

/// Texts are in the order of the first characters in which they differ; a text comes before
/// all that it is the start of.
pub proof fn first_difference_decides(
    start: Seq<char>,
    x: char,
    a: Seq<char>,
    y: char,
    b: Seq<char>,
)
    ensures
        x != y ==> (text_le(start + seq![x] + a, start + seq![y] + b) <==> (x as u32) < (y as u32)),
        text_le(start, start + b),
        b.len() > 0 ==> !text_le(start + b, start),
    decreases start.len(),
{
    let (s, t) = (start + seq![x] + a, start + seq![y] + b);
    if start.len() == 0 {
        assert(s[0] == x && t[0] == y);
    } else {
        let rest = start.drop_first();
        first_difference_decides(rest, x, a, y, b);
        assert(s.drop_first() =~= rest + seq![x] + a);
        assert(t.drop_first() =~= rest + seq![y] + b);
        assert(s[0] == t[0]);
        assert((start + b).drop_first() =~= rest + b);
        assert((start + b)[0] == start[0]);
    }
}

/// A part of a text occurs in it, wherever it stands; a text without its characters does not
/// hold it.
pub proof fn parts_occur(before: Seq<char>, part: Seq<char>, after: Seq<char>)
    ensures
        occurs(before + part + after, part),
        part.len() > 0 && !before.contains(part[0]) ==> !occurs(before, part),
{
    let s = before + part + after;
    let i = before.len() as int;
    assert(s.subrange(i, i + part.len()) =~= part);
    assert(occurs_at(s, part, i));
    if part.len() > 0 && !before.contains(part[0]) && occurs(before, part) {
        let k = choose|k: int| occurs_at(before, part, k);
        assert(before.subrange(k, k + part.len())[0] == part[0]);
        assert(before[k] == part[0]);
    }
}

/// A text that is cut keeps its start, and ends in an ellipsis; one that is short enough is
/// kept as it is.
pub proof fn truncation_keeps_the_start(s: Seq<char>, len: nat)
    ensures
        s.len() <= len ==> truncated(s, len) == s,
        s.len() > len ==> {
            &&& truncated(s, len).len() == len + 3
            &&& truncated(s, len).take(len as int) == s.take(len as int)
            &&& truncated(s, len).skip(len as int) == seq!['.', '.', '.']
        },
{
    reveal_strlit("...");
    if s.len() > len {
        assert(truncated(s, len).take(len as int) =~= s.take(len as int));
        assert(truncated(s, len).skip(len as int) =~= seq!['.', '.', '.']);
    }
}

/// A digit more makes a number ten times as large, and adds its value; a plus sign in front
/// makes no difference to a number without one, and what has other characters is none.
pub proof fn numbers_are_read_in_decimal(s: Seq<char>, c: char)
    requires
        number(s) is Some,
    ensures
        '0' <= c <= '9' ==> number(s.push(c)) == Some(
            (number(s)->0 * 10 + ((c as u32) - ('0' as u32))) as nat,
        ),
        !('0' <= c <= '9') ==> number(s.push(c)) is None,
        s[0] != '+' ==> number(seq!['+'] + s) == number(s),
        number(Seq::<char>::empty()) is None,
        number(seq!['+']) is None,
{
    let digits = without_plus(s);
    assert(s.push(c)[0] == s[0]);
    assert(without_plus(s.push(c)) =~= digits.push(c));
    assert(digits.push(c).drop_last() =~= digits);
    assert(digits.push(c).last() == c);
    assert(digits.push(c)[digits.len() as int] == c);
    if is_digit(c) {
        assert forall|i: int| 0 <= i < digits.push(c).len() implies is_digit(
            #[trigger] digits.push(c)[i],
        ) by {
            if i < digits.len() {
                assert(is_digit(digits[i]));
            }
        }
    }
    if s[0] != '+' {
        assert((seq!['+'] + s).drop_first() =~= s);
    }
    assert(seq!['+'].drop_first() =~= Seq::<char>::empty());
}

} // verus!
