//! Text: assembling messages, trimming, splitting and decimal numbers.
use vstd::prelude::*;
use vstd::string::*;

verus! {

/// The characters that count as blank: Unicode `White_Space`.
pub open spec fn is_blank(c: char) -> bool {
    ||| '\u{9}' <= c <= '\u{d}'
    ||| c == ' '
    ||| c == '\u{85}'
    ||| c == '\u{a0}'
    ||| c == '\u{1680}'
    ||| '\u{2000}' <= c <= '\u{200a}'
    ||| c == '\u{2028}'
    ||| c == '\u{2029}'
    ||| c == '\u{202f}'
    ||| c == '\u{205f}'
    ||| c == '\u{3000}'
}

fn is_blank_char(c: char) -> (r: bool)
    ensures
        r == is_blank(c),
{
    ('\u{9}' <= c && c <= '\u{d}') || c == ' ' || c == '\u{85}' || c == '\u{a0}' || c == '\u{1680}' || (
    '\u{2000}' <= c && c <= '\u{200a}') || c == '\u{2028}' || c == '\u{2029}' || c == '\u{202f}' || c
        == '\u{205f}' || c == '\u{3000}'
}

/// How many blanks a text starts with.
pub open spec fn leading(s: Seq<char>) -> nat
    decreases s.len(),
{
    if s.len() > 0 && is_blank(s[0]) {
        1 + leading(s.drop_first())
    } else {
        0
    }
}

/// How many blanks a text ends with.
pub open spec fn trailing(s: Seq<char>) -> nat
    decreases s.len(),
{
    if s.len() > 0 && is_blank(s.last()) {
        1 + trailing(s.drop_last())
    } else {
        0
    }
}

/// A text without the blanks at its two ends.
pub open spec fn trimmed(s: Seq<char>) -> Seq<char> {
    let rest = s.skip(leading(s) as int);
    rest.take(rest.len() - trailing(rest))
}

proof fn lemma_leading(s: Seq<char>)
    ensures
        leading(s) <= s.len(),
        forall|k: int| 0 <= k < leading(s) ==> is_blank(#[trigger] s[k]),
        leading(s) < s.len() ==> !is_blank(s[leading(s) as int]),
    decreases s.len(),
{
    if s.len() > 0 && is_blank(s[0]) {
        lemma_leading(s.drop_first());
        assert forall|k: int| 0 <= k < leading(s) implies is_blank(#[trigger] s[k]) by {
            if k > 0 {
                assert(s[k] == s.drop_first()[k - 1]);
            }
        }
    }
}

proof fn lemma_leading_is(s: Seq<char>, n: int)
    requires
        0 <= n <= s.len(),
        forall|k: int| 0 <= k < n ==> is_blank(#[trigger] s[k]),
        n < s.len() ==> !is_blank(s[n]),
    ensures
        leading(s) == n,
{
    lemma_leading(s);
    if leading(s) < n {
        assert(is_blank(s[leading(s) as int]));
    }
}

proof fn lemma_trailing(s: Seq<char>)
    ensures
        trailing(s) <= s.len(),
        forall|k: int| s.len() - trailing(s) <= k < s.len() ==> is_blank(#[trigger] s[k]),
        trailing(s) < s.len() ==> !is_blank(s[s.len() - trailing(s) - 1]),
    decreases s.len(),
{
    if s.len() > 0 && is_blank(s.last()) {
        lemma_trailing(s.drop_last());
        assert forall|k: int| s.len() - trailing(s) <= k < s.len() implies is_blank(#[trigger] s[k]) by {
            if k < s.len() - 1 {
                assert(s[k] == s.drop_last()[k]);
            }
        }
    }
}

proof fn lemma_trailing_is(s: Seq<char>, n: int)
    requires
        0 <= n <= s.len(),
        forall|k: int| s.len() - n <= k < s.len() ==> is_blank(#[trigger] s[k]),
        n < s.len() ==> !is_blank(s[s.len() - n - 1]),
    ensures
        trailing(s) == n,
{
    lemma_trailing(s);
    if trailing(s) < n {
        assert(is_blank(s[s.len() - trailing(s) - 1]));
    } else if n < trailing(s) {
        assert(is_blank(s[s.len() - n - 1]));
    }
}

/// The characters of a text.
pub fn chars_of(text: &str) -> (r: Vec<char>)
    ensures
        r@ == text@,
{
    let mut out: Vec<char> = Vec::new();
    for c in it: text.chars()
        invariant
            out@ == it.seq().take(it.index()),
            it.seq() == text@,
    {
        out.push(c);
        assert(it.seq().take(it.index()).push(c) =~= it.seq().take(it.index() + 1));
    }
    assert(text@.take(text@.len() as int) =~= text@);
    out
}

/// A text without the blanks at its two ends.
pub fn trim(text: &str) -> (r: &str)
    ensures
        r@ == trimmed(text@),
{
    let chars = chars_of(text);
    let mut start: usize = 0;
    while start < chars.len() && is_blank_char(chars[start])
        invariant
            start <= chars.len(),
            forall|k: int| 0 <= k < start ==> is_blank(#[trigger] chars@[k]),
        decreases chars.len() - start,
    {
        start = start + 1;
    }
    proof {
        lemma_leading_is(text@, start as int);
    }
    let mut end: usize = chars.len();
    while start < end && is_blank_char(chars[end - 1])
        invariant
            start <= end <= chars.len(),
            forall|k: int| end <= k < chars.len() ==> is_blank(#[trigger] chars@[k]),
        decreases end,
    {
        end = end - 1;
    }
    proof {
        let rest = text@.skip(start as int);
        lemma_trailing_is(rest, chars.len() - end);
        assert(text@.subrange(start as int, end as int) =~= rest.take(rest.len() - trailing(rest)));
    }
    text.substring_char(start, end)
}

/// Whether a text holds nothing but blanks.
pub fn is_blank_text(text: &str) -> (r: bool)
    ensures
        r == (trimmed(text@).len() == 0),
{
    trim(text).is_empty()
}

/// Whether two texts are the same.
pub fn same_text(a: &str, b: &str) -> (r: bool)
    ensures
        r == (a@ == b@),
{
    a.to_owned() == b.to_owned()
}

/// Two texts put together.
pub fn join2(a: &str, b: &str) -> (r: String)
    ensures
        r@ == a@ + b@,
{
    a.to_owned().concat(b)
}

pub fn join3(a: &str, b: &str, c: &str) -> (r: String)
    ensures
        r@ == a@ + b@ + c@,
{
    a.to_owned().concat(b).concat(c)
}

pub fn join4(a: &str, b: &str, c: &str, d: &str) -> (r: String)
    ensures
        r@ == a@ + b@ + c@ + d@,
{
    a.to_owned().concat(b).concat(c).concat(d)
}

/// A copy of an optional text.
pub fn copy_text(text: &Option<String>) -> (r: Option<String>)
    ensures
        r == *text,
{
    match text {
        Some(text) => Some(text.clone()),
        None => None,
    }
}

/// A text without a prefix that it may start with.
pub open spec fn unprefixed(s: Seq<char>, prefix: Seq<char>) -> Seq<char> {
    if prefix.len() <= s.len() && s.take(prefix.len() as int) == prefix {
        s.skip(prefix.len() as int)
    } else {
        s
    }
}

pub fn strip_prefix<'a>(text: &'a str, prefix: &str) -> (r: &'a str)
    ensures
        r@ == unprefixed(text@, prefix@),
{
    let total: usize = text.unicode_len();
    let n: usize = prefix.unicode_len();
    if n <= total {
        let head = text.substring_char(0, n);
        assert(head@ =~= text@.take(n as int));
        if same_text(head, prefix) {
            assert(text@.subrange(n as int, total as int) =~= text@.skip(n as int));
            return text.substring_char(n, total);
        }
    }
    text
}

/// Where the first empty line starts: the index of the first of two
/// consecutive line feeds, or the length of the text.
pub open spec fn first_break(s: Seq<char>) -> nat
    decreases s.len(),
{
    if s.len() < 2 {
        s.len()
    } else if s[0] == '\n' && s[1] == '\n' {
        0
    } else {
        1 + first_break(s.drop_first())
    }
}

pub proof fn lemma_first_break(s: Seq<char>)
    ensures
        first_break(s) < s.len() ==> first_break(s) + 1 < s.len(),
    decreases s.len(),
{
    if s.len() >= 2 {
        lemma_first_break(s.drop_first());
    }
}

/// The blocks of a text that empty lines separate.
pub open spec fn blocks(s: Seq<char>) -> Seq<Seq<char>>
    decreases s.len(),
{
    if first_break(s) < s.len() {
        proof {
            lemma_first_break(s);
        }
        seq![s.take(first_break(s) as int)] + blocks(s.skip((first_break(s) + 2) as int))
    } else {
        seq![s]
    }
}

proof fn lemma_first_break_is(s: Seq<char>, n: int)
    requires
        0 <= n <= s.len(),
        forall|k: int| 0 <= k < n && k + 1 < s.len() ==> !(#[trigger] s[k] == '\n' && s[k + 1] == '\n'),
        n < s.len() ==> n + 1 < s.len() && s[n] == '\n' && s[n + 1] == '\n',
    ensures
        first_break(s) == n,
    decreases s.len(),
{
    if s.len() >= 2 && n > 0 {
        assert(!(s[0] == '\n' && s[1] == '\n'));
        assert forall|k: int| 0 <= k < n - 1 && k + 1 < s.drop_first().len() implies !(
        #[trigger] s.drop_first()[k] == '\n' && s.drop_first()[k + 1] == '\n') by {
            assert(s[k + 1] == s.drop_first()[k]);
        }
        lemma_first_break_is(s.drop_first(), n - 1);
    }
}

/// The views of a list of texts.
pub open spec fn texts(list: Seq<String>) -> Seq<Seq<char>> {
    Seq::new(list.len(), |i: int| list[i]@)
}

pub fn split_blocks(text: &str) -> (r: Vec<String>)
    ensures
        texts(r@) == blocks(text@),
{
    let chars = chars_of(text);
    let n: usize = chars.len();
    let mut out: Vec<String> = Vec::new();
    let mut start: usize = 0;
    let mut i: usize = 0;
    assert(text@.skip(0) =~= text@);
    assert(texts(out@) + blocks(text@) =~= blocks(text@));
    while n >= 2 && i < n - 1
        invariant
            n == chars.len(),
            chars@ == text@,
            start <= i <= n,
            blocks(text@) == texts(out@) + blocks(text@.skip(start as int)),
            forall|k: int|
                start <= k < i && k + 1 < n ==> !(#[trigger] chars@[k] == '\n' && chars@[k + 1] == '\n'),
        decreases n - i,
    {
        if chars[i] == '\n' && chars[i + 1] == '\n' {
            proof {
                let rest = text@.skip(start as int);
                assert forall|k: int| 0 <= k < i - start && k + 1 < rest.len() implies !(
                #[trigger] rest[k] == '\n' && rest[k + 1] == '\n') by {
                    assert(rest[k] == chars@[start + k]);
                }
                lemma_first_break_is(rest, i - start);
                assert(rest.take(i - start) =~= text@.subrange(start as int, i as int));
                assert(rest.skip(i - start + 2) =~= text@.skip(i + 2));
            }
            let ghost before = texts(out@);
            let piece = text.substring_char(start, i).to_owned();
            let ghost said = piece@;
            out.push(piece);
            assert(texts(out@) =~= before.push(said));
            start = i + 2;
            i = i + 2;
            assert(before + (seq![said] + blocks(text@.skip(start as int))) =~= texts(out@) + blocks(
                text@.skip(start as int),
            ));
        } else {
            i = i + 1;
        }
    }
    proof {
        let rest = text@.skip(start as int);
        assert forall|k: int| 0 <= k < rest.len() && k + 1 < rest.len() implies !(#[trigger] rest[k] == '\n'
            && rest[k + 1] == '\n') by {
            assert(rest[k] == chars@[start + k]);
        }
        lemma_first_break_is(rest, rest.len() as int);
        assert(rest =~= text@.subrange(start as int, n as int));
    }
    let ghost before = texts(out@);
    let piece = text.substring_char(start, n).to_owned();
    let ghost said = piece@;
    out.push(piece);
    assert(texts(out@) =~= before + seq![said]);
    out
}

/// The index of the first line feed, or the length of the text.
pub open spec fn first_feed(s: Seq<char>) -> nat
    decreases s.len(),
{
    if s.len() == 0 || s[0] == '\n' {
        0
    } else {
        1 + first_feed(s.drop_first())
    }
}

/// A line without the carriage return that its line feed may follow.
pub open spec fn without_return(line: Seq<char>) -> Seq<char> {
    if line.len() > 0 && line.last() == '\r' {
        line.drop_last()
    } else {
        line
    }
}

/// The lines of a text: each ends at a line feed, alone or after a carriage
/// return; what follows the last one is a line unless it is empty.
pub open spec fn lines(s: Seq<char>) -> Seq<Seq<char>>
    decreases s.len(),
{
    if s.len() == 0 {
        seq![]
    } else if first_feed(s) < s.len() {
        seq![without_return(s.take(first_feed(s) as int))] + lines(s.skip((first_feed(s) + 1) as int))
    } else {
        seq![s]
    }
}

proof fn lemma_first_feed_is(s: Seq<char>, n: int)
    requires
        0 <= n <= s.len(),
        forall|k: int| 0 <= k < n ==> #[trigger] s[k] != '\n',
        n < s.len() ==> s[n] == '\n',
    ensures
        first_feed(s) == n,
    decreases s.len(),
{
    if n > 0 {
        assert(s[0] != '\n');
        assert forall|k: int| 0 <= k < n - 1 implies #[trigger] s.drop_first()[k] != '\n' by {
            assert(s[k + 1] == s.drop_first()[k]);
        }
        lemma_first_feed_is(s.drop_first(), n - 1);
    }
}

pub fn split_lines(text: &str) -> (r: Vec<String>)
    ensures
        texts(r@) == lines(text@),
{
    let chars = chars_of(text);
    let n: usize = chars.len();
    let mut out: Vec<String> = Vec::new();
    let mut start: usize = 0;
    let mut i: usize = 0;
    assert(text@.skip(0) =~= text@);
    assert(texts(out@) + lines(text@) =~= lines(text@));
    while i < n
        invariant
            n == chars.len(),
            chars@ == text@,
            start <= i <= n,
            lines(text@) == texts(out@) + lines(text@.skip(start as int)),
            forall|k: int| start <= k < i ==> #[trigger] chars@[k] != '\n',
        decreases n - i,
    {
        if chars[i] == '\n' {
            let ghost rest = text@.skip(start as int);
            let mut end: usize = i;
            if start < i && chars[i - 1] == '\r' {
                end = i - 1;
            }
            proof {
                assert forall|k: int| 0 <= k < i - start implies #[trigger] rest[k] != '\n' by {
                    assert(rest[k] == chars@[start + k]);
                }
                lemma_first_feed_is(rest, i - start);
                assert(rest.take(i - start) =~= text@.subrange(start as int, i as int));
                assert(text@.subrange(start as int, end as int) =~= without_return(rest.take(i - start)));
                assert(rest.skip(i - start + 1) =~= text@.skip(i + 1));
            }
            let ghost before = texts(out@);
            let piece = text.substring_char(start, end).to_owned();
            let ghost said = piece@;
            out.push(piece);
            assert(texts(out@) =~= before.push(said));
            start = i + 1;
            assert(before + (seq![said] + lines(text@.skip(start as int))) =~= texts(out@) + lines(
                text@.skip(start as int),
            ));
        }
        i = i + 1;
    }
    if start < n {
        proof {
            let rest = text@.skip(start as int);
            assert forall|k: int| 0 <= k < rest.len() implies #[trigger] rest[k] != '\n' by {
                assert(rest[k] == chars@[start + k]);
            }
            lemma_first_feed_is(rest, rest.len() as int);
            assert(rest =~= text@.subrange(start as int, n as int));
        }
        let ghost before = texts(out@);
        let piece = text.substring_char(start, n).to_owned();
        let ghost said = piece@;
        out.push(piece);
        assert(texts(out@) =~= before + seq![said]);
    } else {
        assert(texts(out@) + lines(text@.skip(start as int)) =~= texts(out@));
    }
    out
}

/// The character of a decimal digit.
pub open spec fn digit(d: nat) -> char {
    (('0' as nat + d) as char)
}

/// A number in decimal, without leading zeros.
pub open spec fn decimal(n: nat) -> Seq<char>
    decreases n,
{
    if n < 10 {
        seq![digit(n)]
    } else {
        decimal(n / 10).push(digit(n % 10))
    }
}

fn digit_text(d: u64) -> (r: &'static str)
    requires
        d < 10,
    ensures
        r@ == seq![digit(d as nat)],
{
    proof {
        reveal_strlit("0");
        reveal_strlit("1");
        reveal_strlit("2");
        reveal_strlit("3");
        reveal_strlit("4");
        reveal_strlit("5");
        reveal_strlit("6");
        reveal_strlit("7");
        reveal_strlit("8");
        reveal_strlit("9");
    }
    let r = if d == 0 {
        "0"
    } else if d == 1 {
        "1"
    } else if d == 2 {
        "2"
    } else if d == 3 {
        "3"
    } else if d == 4 {
        "4"
    } else if d == 5 {
        "5"
    } else if d == 6 {
        "6"
    } else if d == 7 {
        "7"
    } else if d == 8 {
        "8"
    } else {
        "9"
    };
    assert(r@ =~= seq![digit(d as nat)]);
    r
}

/// A number in decimal.
pub fn decimal_text(n: u64) -> (r: String)
    ensures
        r@ == decimal(n as nat),
    decreases n,
{
    if n < 10 {
        digit_text(n).to_owned()
    } else {
        let r = decimal_text(n / 10).concat(digit_text(n % 10));
        assert(r@ =~= decimal(n as nat));
        r
    }
}

/// The number that a text of decimal digits denotes.
pub open spec fn number_of(s: Seq<char>) -> nat
    decreases s.len(),
{
    if s.len() == 0 {
        0
    } else {
        number_of(s.drop_last()) * 10 + ((s.last() as nat - '0' as nat) as nat)
    }
}

pub open spec fn is_digit(c: char) -> bool {
    '0' <= c <= '9'
}

/// Reading a decimal back gives the number.
pub proof fn lemma_decimal_reads_back(n: nat)
    ensures
        number_of(decimal(n)) == n,
        decimal(n).len() > 0,
        forall|i: int| 0 <= i < decimal(n).len() ==> is_digit(#[trigger] decimal(n)[i]),
    decreases n,
{
    if n < 10 {
        assert(decimal(n).drop_last() =~= Seq::<char>::empty());
        assert(number_of(decimal(n).drop_last()) == 0);
    } else {
        lemma_decimal_reads_back(n / 10);
        assert(decimal(n).drop_last() =~= decimal(n / 10));
        assert(number_of(decimal(n)) == number_of(decimal(n / 10)) * 10 + n % 10);
    }
}

/// Different numbers have different decimals.
pub proof fn lemma_decimal_injective(a: nat, b: nat)
    requires
        decimal(a) == decimal(b),
    ensures
        a == b,
{
    lemma_decimal_reads_back(a);
    lemma_decimal_reads_back(b);
}

proof fn lemma_number_grows(s: Seq<char>, k: int)
    requires
        0 <= k <= s.len(),
        forall|i: int| 0 <= i < s.len() ==> is_digit(#[trigger] s[i]),
    ensures
        number_of(s.take(k)) <= number_of(s),
    decreases s.len() - k,
{
    if k < s.len() {
        let longer = s.take(k + 1);
        assert(longer.drop_last() =~= s.take(k));
        assert(longer.last() == s[k]);
        assert(number_of(longer) >= number_of(s.take(k)));
        lemma_number_grows(s, k + 1);
    } else {
        assert(s.take(k) =~= s);
    }
}

/// The number that a text is the decimal of.
pub fn read_decimal(text: &str) -> (r: Option<u64>)
    ensures
        match r {
            Some(n) => text@ == decimal(n as nat),
            None => forall|n: u64| text@ != #[trigger] decimal(n as nat),
        },
{
    let chars = chars_of(text);
    let mut value: u64 = 0;
    let mut i: usize = 0;
    while i < chars.len()
        invariant
            i <= chars.len(),
            chars@ == text@,
            value == number_of(text@.take(i as int)),
            forall|k: int| 0 <= k < i ==> is_digit(#[trigger] text@[k]),
        decreases chars.len() - i,
    {
        let c: char = chars[i];
        if !('0' <= c && c <= '9') {
            assert forall|n: u64| text@ != #[trigger] decimal(n as nat) by {
                lemma_decimal_reads_back(n as nat);
                if text@ == decimal(n as nat) {
                    assert(is_digit(decimal(n as nat)[i as int]));
                }
            }
            return None;
        }
        let d: u64 = (c as u64) - ('0' as u64);
        assert(text@.take(i + 1).drop_last() =~= text@.take(i as int));
        assert(number_of(text@.take(i + 1)) == number_of(text@.take(i as int)) * 10 + d);
        let next: Option<u64> = match value.checked_mul(10) {
            Some(tens) => tens.checked_add(d),
            None => None,
        };
        match next {
            Some(sum) => {
                value = sum;
            },
            None => {
                assert(number_of(text@.take(i + 1)) > u64::MAX);
                assert forall|n: u64| text@ != #[trigger] decimal(n as nat) by {
                    lemma_decimal_reads_back(n as nat);
                    if text@ == decimal(n as nat) {
                        lemma_number_grows(text@, i + 1);
                    }
                }
                return None;
            },
        }
        i = i + 1;
    }
    assert(text@.take(chars.len() as int) =~= text@);
    if decimal_text(value) == text.to_owned() {
        Some(value)
    } else {
        assert forall|n: u64| text@ != #[trigger] decimal(n as nat) by {
            lemma_decimal_reads_back(n as nat);
        }
        None
    }
}

/// How many elements two sequences share at their start.
pub open spec fn shared_prefix<T>(a: Seq<T>, b: Seq<T>) -> nat
    decreases a.len(),
{
    if a.len() > 0 && b.len() > 0 && a[0] == b[0] {
        1 + shared_prefix(a.drop_first(), b.drop_first())
    } else {
        0
    }
}

pub proof fn lemma_shared_prefix_is<T>(a: Seq<T>, b: Seq<T>, n: int)
    requires
        0 <= n <= a.len(),
        n <= b.len(),
        forall|k: int| 0 <= k < n ==> #[trigger] a[k] == b[k],
        n < a.len() && n < b.len() ==> a[n] != b[n],
    ensures
        shared_prefix(a, b) == n,
    decreases n,
{
    if n > 0 {
        assert(a[0] == b[0]);
        assert forall|k: int| 0 <= k < n - 1 implies #[trigger] a.drop_first()[k] == b.drop_first()[k] by {
            assert(a[k + 1] == b[k + 1]);
        }
        lemma_shared_prefix_is(a.drop_first(), b.drop_first(), n - 1);
    }
}

pub proof fn lemma_shared_prefix<T>(a: Seq<T>, b: Seq<T>)
    ensures
        shared_prefix(a, b) <= a.len(),
        shared_prefix(a, b) <= b.len(),
        forall|k: int| 0 <= k < shared_prefix(a, b) ==> #[trigger] a[k] == b[k],
        shared_prefix(a, b) < a.len() && shared_prefix(a, b) < b.len() ==> a[shared_prefix(a, b) as int]
            != b[shared_prefix(a, b) as int],
    decreases a.len(),
{
    if a.len() > 0 && b.len() > 0 && a[0] == b[0] {
        lemma_shared_prefix(a.drop_first(), b.drop_first());
        assert forall|k: int| 0 <= k < shared_prefix(a, b) implies #[trigger] a[k] == b[k] by {
            if k > 0 {
                assert(a[k] == a.drop_first()[k - 1]);
                assert(b[k] == b.drop_first()[k - 1]);
            }
        }
    }
}

/// The number of UTF-8 bytes that two texts share at their start.
pub fn shared_bytes(a: &str, b: &str) -> (r: u64)
    ensures
        r == shared_prefix(vstd::utf8::encode_utf8(a@), vstd::utf8::encode_utf8(b@)),
{
    let x = a.as_bytes();
    let y = b.as_bytes();
    let mut i: usize = 0;
    while i < x.len() && i < y.len() && x[i] == y[i]
        invariant
            i <= x.len(),
            i <= y.len(),
            forall|k: int| 0 <= k < i ==> #[trigger] x@[k] == y@[k],
        decreases x.len() - i,
    {
        i = i + 1;
    }
    proof {
        lemma_shared_prefix_is(x@, y@, i as int);
    }
    i as u64
}

/// A text without NUL characters, each replaced by U+FFFD.
pub open spec fn nul_free(text: Seq<char>) -> Seq<char> {
    Seq::new(
        text.len(),
        |i: int|
            if text[i] == '\0' {
                '\u{FFFD}'
            } else {
                text[i]
            },
    )
}

/// A text that fits into a NUL-terminated buffer.
pub fn without_nul(text: &str) -> (r: String)
    ensures
        r@ == nul_free(text@),
{
    let chars = chars_of(text);
    let mut out = "".to_owned();
    let mut i: usize = 0;
    proof {
        reveal_strlit("");
        assert(nul_free(text@).take(0) =~= out@);
    }
    while i < chars.len()
        invariant
            i <= chars.len(),
            chars@ == text@,
            out@ == nul_free(text@).take(i as int),
        decreases chars.len() - i,
    {
        if chars[i] == '\0' {
            proof {
                reveal_strlit("\u{FFFD}");
            }
            out.append("\u{FFFD}");
        } else {
            out.append(text.substring_char(i, i + 1));
        }
        assert(out@ =~= nul_free(text@).take(i + 1));
        i = i + 1;
    }
    assert(nul_free(text@).take(i as int) =~= nul_free(text@));
    out
}

// Laws.

/// Trimming takes the blanks at both ends and nothing else: what is left of a
/// text starts at its first character that is not blank and ends at its last.
pub proof fn law_trimming_takes_blank_ends(s: Seq<char>, start: int, end: int)
    requires
        0 <= start <= end <= s.len(),
        forall|k: int| 0 <= k < start ==> is_blank(#[trigger] s[k]),
        forall|k: int| end <= k < s.len() ==> is_blank(#[trigger] s[k]),
        start < end ==> !is_blank(s[start]) && !is_blank(s[end - 1]),
    ensures
        trimmed(s) == s.subrange(start, end),
{
    if start < end {
        lemma_leading_is(s, start);
        let rest = s.skip(start);
        assert forall|k: int| rest.len() - (s.len() - end) <= k < rest.len() implies is_blank(#[trigger] rest[k]) by {
            assert(rest[k] == s[start + k]);
        }
        assert(rest[rest.len() - (s.len() - end) - 1] == s[end - 1]);
        lemma_trailing_is(rest, s.len() - end);
        assert(trimmed(s) =~= s.subrange(start, end));
    } else {
        assert forall|k: int| 0 <= k < s.len() implies is_blank(#[trigger] s[k]) by {}
        lemma_leading_is(s, s.len() as int);
        let rest = s.skip(s.len() as int);
        lemma_trailing(rest);
        assert(trimmed(s) =~= s.subrange(start, end));
    }
}

/// A text is trimmed to nothing exactly when it holds nothing but blanks.
pub proof fn law_blank_texts_are_trimmed_to_nothing(s: Seq<char>)
    ensures
        trimmed(s).len() == 0 <==> forall|k: int| 0 <= k < s.len() ==> is_blank(#[trigger] s[k]),
{
    if forall|k: int| 0 <= k < s.len() ==> is_blank(#[trigger] s[k]) {
        law_trimming_takes_blank_ends(s, 0, 0);
    } else {
        lemma_leading(s);
        let rest = s.skip(leading(s) as int);
        lemma_trailing(rest);
        if leading(s) == s.len() {
            assert forall|k: int| 0 <= k < s.len() implies is_blank(#[trigger] s[k]) by {}
        }
        if trailing(rest) == rest.len() {
            assert(is_blank(rest[0]));
        }
    }
}

/// A prefix is taken off once, and a text that does not start with it stays.
pub proof fn law_a_prefix_is_taken_once(prefix: Seq<char>, rest: Seq<char>, other: Seq<char>)
    ensures
        unprefixed(prefix + rest, prefix) == rest,
        !prefix.is_prefix_of(other) ==> unprefixed(other, prefix) == other,
{
    assert((prefix + rest).take(prefix.len() as int) =~= prefix);
    assert((prefix + rest).skip(prefix.len() as int) =~= rest);
    if prefix.len() <= other.len() {
        assert(other.take(prefix.len() as int) =~= other.subrange(0, prefix.len() as int));
    }
}

/// Pieces put together again, a separator between each two.
pub open spec fn rejoined(pieces: Seq<Seq<char>>, between: Seq<char>) -> Seq<char>
    decreases pieces.len(),
{
    if pieces.len() == 0 {
        Seq::empty()
    } else if pieces.len() == 1 {
        pieces[0]
    } else {
        pieces[0] + between + rejoined(pieces.drop_first(), between)
    }
}

/// Whether an empty line stands at `k`.
pub open spec fn breaks_at(s: Seq<char>, k: int) -> bool {
    0 <= k && k + 1 < s.len() && s[k] == '\n' && s[k + 1] == '\n'
}

proof fn lemma_first_break_found(s: Seq<char>)
    ensures
        first_break(s) <= s.len(),
        first_break(s) < s.len() ==> breaks_at(s, first_break(s) as int),
        forall|k: int| 0 <= k < first_break(s) ==> !(#[trigger] breaks_at(s, k)),
    decreases s.len(),
{
    if s.len() >= 2 && !breaks_at(s, 0) {
        lemma_first_break_found(s.drop_first());
        let n = first_break(s.drop_first()) as int;
        if n < s.drop_first().len() {
            assert(breaks_at(s.drop_first(), n));
        }
        assert forall|k: int| 0 <= k < first_break(s) implies !(#[trigger] breaks_at(s, k)) by {
            if k > 0 {
                assert(!breaks_at(s.drop_first(), k - 1));
            }
        }
    }
}

/// The blocks of a text are all of it: put together again with an empty line
/// between each two they are the text, and no block holds an empty line.
pub proof fn law_blocks_are_the_whole_text(s: Seq<char>)
    ensures
        blocks(s).len() > 0,
        rejoined(blocks(s), seq!['\n', '\n']) == s,
        forall|i: int, k: int| 0 <= i < blocks(s).len() ==> !(#[trigger] breaks_at(blocks(s)[i], k)),
    decreases s.len(),
{
    lemma_first_break_found(s);
    let n = first_break(s) as int;
    let between = seq!['\n', '\n'];
    if n < s.len() {
        let rest = s.skip(n + 2);
        law_blocks_are_the_whole_text(rest);
        let all = blocks(s);
        let head = s.take(n);
        assert(all =~= seq![head] + blocks(rest));
        assert(all.drop_first() =~= blocks(rest));
        assert(rejoined(all, between) == head + between + rejoined(blocks(rest), between));
        assert(head + between + rest =~= s);
        assert forall|i: int, k: int| 0 <= i < all.len() implies !(#[trigger] breaks_at(all[i], k)) by {
            if i == 0 {
                if breaks_at(head, k) {
                    assert(breaks_at(s, k));
                }
            } else {
                assert(all[i] == blocks(rest)[i - 1]);
                assert(!breaks_at(blocks(rest)[i - 1], k));
            }
        }
    } else {
        assert(blocks(s) =~= seq![s]);
        assert forall|i: int, k: int| 0 <= i < blocks(s).len() implies !(#[trigger] breaks_at(blocks(s)[i], k)) by {
            if breaks_at(s, k) {
                assert(k < first_break(s));
            }
        }
    }
}

/// Reading lines goes line by line: a line, its feed and the rest are that
/// line, without a carriage return at its end, and the lines of the rest; what
/// no feed ends is one line, unless there is nothing.
pub proof fn law_lines_end_at_feeds(line: Seq<char>, rest: Seq<char>)
    requires
        !line.contains('\n'),
    ensures
        lines(line.push('\r').push('\n') + rest) == seq![line] + lines(rest),
        !(line.len() > 0 && line.last() == '\r') ==> lines(line.push('\n') + rest) == seq![line] + lines(rest),
        lines(line) == if line.len() == 0 {
            Seq::<Seq<char>>::empty()
        } else {
            seq![line]
        },
{
    assert forall|k: int| 0 <= k < line.len() implies #[trigger] line[k] != '\n' by {
        assert(line.contains(line[k]));
    }
    let n = line.len() as int;
    let with_return = line.push('\r').push('\n') + rest;
    lemma_first_feed_is(with_return, n + 1);
    assert(with_return.take(n + 1).drop_last() =~= line);
    assert(with_return.skip(n + 2) =~= rest);
    let plain = line.push('\n') + rest;
    lemma_first_feed_is(plain, n);
    assert(plain.take(n) =~= line);
    assert(plain.skip(n + 1) =~= rest);
    lemma_first_feed_is(line, n);
}

/// A decimal is written in digits, denotes its number, and starts with a zero
/// only when it is zero.
pub proof fn law_decimals(n: nat)
    ensures
        number_of(decimal(n)) == n,
        decimal(n).len() > 0,
        forall|i: int| 0 <= i < decimal(n).len() ==> '0' <= #[trigger] decimal(n)[i] <= '9',
        decimal(n)[0] == '0' ==> n == 0 && decimal(n).len() == 1,
    decreases n,
{
    lemma_decimal_reads_back(n);
    assert forall|i: int| 0 <= i < decimal(n).len() implies '0' <= #[trigger] decimal(n)[i] <= '9' by {
        assert(is_digit(decimal(n)[i]));
    }
    if n >= 10 {
        law_decimals(n / 10);
        assert(decimal(n)[0] == decimal(n / 10)[0]);
    }
}

/// A NUL becomes the replacement character; every other character stays.
pub proof fn law_nul_free(text: Seq<char>)
    ensures
        nul_free(text).len() == text.len(),
        forall|i: int| 0 <= i < text.len() && text[i] == '\0' ==> #[trigger] nul_free(text)[i] == '\u{FFFD}',
        forall|i: int| 0 <= i < text.len() ==> #[trigger] nul_free(text)[i] != '\0',
        forall|i: int| 0 <= i < text.len() && text[i] != '\0' ==> #[trigger] nul_free(text)[i] == text[i],
        (forall|i: int| 0 <= i < text.len() ==> #[trigger] text[i] != '\0') ==> nul_free(text) == text,
{
    if forall|i: int| 0 <= i < text.len() ==> #[trigger] text[i] != '\0' {
        assert(nul_free(text) =~= text);
    }
}

} // verus!
