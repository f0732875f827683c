//! Text primitives: comparison, searching, splitting and number formatting,
//! each stated over the sequence of characters that a string views as.

use vstd::prelude::*;

verus! {

/// `part` occurs in `text` as a contiguous run starting at position `at`.
pub open spec fn occurs_at(text: Seq<char>, part: Seq<char>, at: int) -> bool {
    0 <= at && at + part.len() <= text.len() && text.subrange(at, at + part.len()) == part
}

/// `part` occurs somewhere in `text`.
pub open spec fn occurs(text: Seq<char>, part: Seq<char>) -> bool {
    exists|at: int| #[trigger] occurs_at(text, part, at)
}

/// The characters with the Unicode `White_Space` property.
pub open spec fn white_space(c: char) -> bool {
    ||| '\u{9}' <= c <= '\u{d}'
    ||| c == ' ' || c == '\u{85}' || c == '\u{a0}' || c == '\u{1680}'
    ||| '\u{2000}' <= c <= '\u{200a}'
    ||| c == '\u{2028}' || c == '\u{2029}' || c == '\u{202f}' || c == '\u{205f}' || c == '\u{3000}'
}

/// `text` without its leading white space.
pub open spec fn trim_start(text: Seq<char>) -> Seq<char>
    decreases text.len(),
{
    if text.len() > 0 && white_space(text.first()) {
        trim_start(text.drop_first())
    } else {
        text
    }
}

/// `text` without its trailing white space.
pub open spec fn trim_end(text: Seq<char>) -> Seq<char>
    decreases text.len(),
{
    if text.len() > 0 && white_space(text.last()) {
        trim_end(text.drop_last())
    } else {
        text
    }
}

/// `text` without white space at either end.
pub open spec fn trimmed(text: Seq<char>) -> Seq<char> {
    trim_end(trim_start(text))
}

/// `text` without any run of `c` at its end.
pub open spec fn without_trailing(text: Seq<char>, c: char) -> Seq<char>
    decreases text.len(),
{
    if text.len() > 0 && text.last() == c {
        without_trailing(text.drop_last(), c)
    } else {
        text
    }
}

/// The number of characters before the first `c`, or the length where there is none.
pub open spec fn run_before(text: Seq<char>, c: char) -> nat
    decreases text.len(),
{
    if text.len() == 0 || text.first() == c {
        0
    } else {
        1 + run_before(text.drop_first(), c)
    }
}

/// A line that ended in a line feed, without the carriage return before it.
pub open spec fn without_return(line: Seq<char>) -> Seq<char> {
    if line.len() > 0 && line.last() == '\r' {
        line.drop_last()
    } else {
        line
    }
}

/// The lines of `text`: each ends at a line feed, which is dropped together
/// with one carriage return before it. What follows the last line feed is a
/// line of its own unless it is empty.
pub open spec fn lines_of(text: Seq<char>) -> Seq<Seq<char>>
    decreases text.len(),
{
    if text.len() == 0 {
        seq![]
    } else {
        let n = run_before(text, '\n') as int;
        if n >= text.len() {
            seq![text]
        } else {
            seq![without_return(text.take(n))] + lines_of(text.skip(n + 1))
        }
    }
}

/// The number of characters before the first white space.
pub open spec fn word_run(text: Seq<char>) -> nat
    decreases text.len(),
{
    if text.len() == 0 || white_space(text.first()) {
        0
    } else {
        1 + word_run(text.drop_first())
    }
}

/// The maximal runs of `text` that hold no white space.
pub open spec fn words_of(text: Seq<char>) -> Seq<Seq<char>>
    decreases text.len(),
{
    if text.len() == 0 {
        seq![]
    } else if white_space(text.first()) {
        words_of(text.drop_first())
    } else {
        let n = word_run(text) as int;
        if 0 < n <= text.len() {
            seq![text.take(n)] + words_of(text.skip(n))
        } else {
            seq![]
        }
    }
}

/// `text` with every `from` replaced by `to`.
pub open spec fn replaced(text: Seq<char>, from: char, to: char) -> Seq<char> {
    text.map_values(|c: char| if c == from { to } else { c })
}

/// The parts in order, with `sep` between neighbours.
pub open spec fn joined(parts: Seq<Seq<char>>, sep: Seq<char>) -> Seq<char>
    decreases parts.len(),
{
    if parts.len() == 0 {
        seq![]
    } else if parts.len() == 1 {
        parts[0]
    } else {
        joined(parts.drop_last(), sep) + sep + parts.last()
    }
}

/// The decimal digit `d`.
pub open spec fn digit(d: nat) -> char {
    (('0' as nat) + d) as char
}

/// The number `n` in decimal, without leading zeros.
pub open spec fn decimal(n: nat) -> Seq<char>
    decreases n,
{
    if n < 10 {
        seq![digit(n)]
    } else {
        decimal(n / 10).push(digit(n % 10))
    }
}

/// The integer `n` in decimal, with a minus sign where it is negative.
pub open spec fn signed_decimal(n: int) -> Seq<char> {
    if n < 0 {
        seq!['-'] + decimal((-n) as nat)
    } else {
        decimal(n as nat)
    }
}

/// Every character is a decimal digit.
pub open spec fn all_digits(text: Seq<char>) -> bool {
    forall|i: int| 0 <= i < text.len() ==> '0' <= #[trigger] text[i] <= '9'
}

/// The number that a run of decimal digits denotes.
pub open spec fn number_of(digits: Seq<char>) -> nat
    decreases digits.len(),
{
    if digits.len() == 0 {
        0
    } else {
        (number_of(digits.drop_last()) * 10 + (digits.last() as int - '0' as int)) as nat
    }
}

/// The digits of a number that may be written with a leading plus sign.
pub open spec fn without_plus(text: Seq<char>) -> Seq<char> {
    if text.len() > 0 && text.first() == '+' {
        text.drop_first()
    } else {
        text
    }
}

/// The 32-bit number that `text` denotes: an optional plus sign and at least
/// one decimal digit, within range.
pub open spec fn parsed_u32(text: Seq<char>) -> Option<u32> {
    let digits = without_plus(text);
    if digits.len() > 0 && all_digits(digits) && number_of(digits) <= u32::MAX {
        Some(number_of(digits) as u32)
    } else {
        None
    }
}

/// The texts that a vector of strings holds.
pub open spec fn texts(parts: Seq<String>) -> Seq<Seq<char>> {
    parts.map_values(|s: String| s@)
}

/// Whether two texts are equal.
pub fn same(a: &str, b: &str) -> (r: bool)
    ensures
        r == (a@ == b@),
{
    a.to_owned() == b.to_owned()
}

/// The characters of a text.
pub fn chars_of(text: &str) -> (r: Vec<char>)
    ensures
        r@ == text@,
{
    let mut v: Vec<char> = Vec::new();
    for c in it: text.chars()
        invariant
            v@ == it.seq().take(it.index() as int),
            it.seq() == text@,
    {
        v.push(c);
    }
    v
}

/// Whether `part` occurs in the characters at position `at`.
fn matches_at(text: &Vec<char>, part: &Vec<char>, at: usize) -> (r: bool)
    requires
        at + part@.len() <= text@.len(),
    ensures
        r == occurs_at(text@, part@, at as int),
{
    let mut i: usize = 0;
    assert(text.len() <= usize::MAX);
    while i < part.len()
        invariant
            at + part@.len() <= text@.len(),
            text@.len() <= usize::MAX,
            i <= part@.len(),
            forall|j: int| 0 <= j < i ==> text@[at + j] == #[trigger] part@[j],
        decreases part@.len() - i,
    {
        if text[at + i] != part[i] {
            assert(text@.subrange(at as int, at + part@.len())[i as int] != part@[i as int]);
            return false;
        }
        i += 1;
    }
    assert(text@.subrange(at as int, at + part@.len()) =~= part@);
    true
}

/// Whether `text` begins with `part`.
pub fn starts_with(text: &str, part: &str) -> (r: bool)
    ensures
        r == occurs_at(text@, part@, 0),
{
    let t = chars_of(text);
    let p = chars_of(part);
    p.len() <= t.len() && matches_at(&t, &p, 0)
}

/// Whether `part` occurs in `text`.
pub fn contains(text: &str, part: &str) -> (r: bool)
    ensures
        r == occurs(text@, part@),
{
    let t = chars_of(text);
    let p = chars_of(part);
    if p.len() > t.len() {
        return false;
    }
    let last: usize = t.len() - p.len();
    let mut at: usize = 0;
    while at <= last
        invariant
            t@ == text@,
            p@ == part@,
            last == t@.len() - p@.len(),
            at <= last + 1,
            forall|j: int| 0 <= j < at ==> !#[trigger] occurs_at(text@, part@, j),
        decreases last + 1 - at,
    {
        if matches_at(&t, &p, at) {
            return true;
        }
        if at == last {
            assert forall|j: int| !#[trigger] occurs_at(text@, part@, j) by {}
            return false;
        }
        at += 1;
    }
    false
}

/// Whether a character is white space.
pub fn is_white_space(c: char) -> (r: bool)
    ensures
        r == white_space(c),
{
    ('\u{9}' <= c && c <= '\u{d}') || c == ' ' || c == '\u{85}' || c == '\u{a0}' || c == '\u{1680}'
        || ('\u{2000}' <= c && c <= '\u{200a}') || c == '\u{2028}' || c == '\u{2029}'
        || c == '\u{202f}' || c == '\u{205f}' || c == '\u{3000}'
}

/// The text without white space at either end.
pub fn trim(text: &str) -> (r: String)
    ensures
        r@ == trimmed(text@),
{
    let t = chars_of(text);
    let mut from: usize = 0;
    assert(t@.skip(0) =~= t@);
    while from < t.len() && is_white_space(t[from])
        invariant
            t@ == text@,
            from <= t@.len(),
            trim_start(text@) == trim_start(text@.skip(from as int)),
        decreases t@.len() - from,
    {
        assert(text@.skip(from as int).drop_first() =~= text@.skip(from + 1));
        from += 1;
    }
    assert(trim_start(text@) == text@.skip(from as int));
    let mut to: usize = t.len();
    assert(text@.skip(from as int) =~= text@.subrange(from as int, to as int));
    while from < to && is_white_space(t[to - 1])
        invariant
            t@ == text@,
            from <= to <= t@.len(),
            trimmed(text@) == trim_end(text@.subrange(from as int, to as int)),
        decreases to,
    {
        assert(text@.subrange(from as int, to as int).drop_last() =~= text@.subrange(
            from as int,
            to - 1,
        ));
        to -= 1;
    }
    text.substring_char(from, to).to_owned()
}

/// The text without any run of `c` at its end.
pub fn trim_end_matches(text: &str, c: char) -> (r: String)
    ensures
        r@ == without_trailing(text@, c),
{
    let t = chars_of(text);
    let mut to: usize = t.len();
    assert(text@ =~= text@.subrange(0, to as int));
    while 0 < to && t[to - 1] == c
        invariant
            t@ == text@,
            to <= t@.len(),
            without_trailing(text@, c) == without_trailing(text@.subrange(0, to as int), c),
        decreases to,
    {
        assert(text@.subrange(0, to as int).drop_last() =~= text@.subrange(0, to - 1));
        to -= 1;
    }
    text.substring_char(0, to).to_owned()
}

/// Appends a string to a vector of strings.
pub fn push_text(parts: &mut Vec<String>, part: String)
    ensures
        texts(final(parts)@) == texts(old(parts)@).push(part@),
{
    parts.push(part);
    assert(texts(parts@) =~= texts(old(parts)@).push(part@));
}

/// Appends a copy of a text to a vector of strings.
pub fn push_copy(parts: &mut Vec<String>, part: &str)
    ensures
        texts(final(parts)@) == texts(old(parts)@).push(part@),
{
    push_text(parts, part.to_owned());
}

/// Appends copies of texts to a vector of strings.
pub fn push_all(parts: &mut Vec<String>, more: &Vec<String>)
    ensures
        texts(final(parts)@) == texts(old(parts)@) + texts(more@),
{
    let mut i: usize = 0;
    assert(texts(parts@) + texts(more@).take(0) =~= texts(parts@));
    while i < more.len()
        invariant
            i <= more@.len(),
            texts(parts@) == texts(old(parts)@) + texts(more@).take(i as int),
        decreases more@.len() - i,
    {
        push_copy(parts, more[i].as_str());
        assert(texts(more@).take(i + 1) =~= texts(more@).take(i as int).push(more@[i as int]@));
        i += 1;
        assert(texts(parts@) =~= texts(old(parts)@) + texts(more@).take(i as int));
    }
    assert(texts(more@).take(i as int) =~= texts(more@));
}

/// A vector without strings.
pub fn no_texts() -> (r: Vec<String>)
    ensures
        texts(r@) == Seq::<Seq<char>>::empty(),
{
    let r: Vec<String> = Vec::new();
    assert(texts(r@) =~= Seq::<Seq<char>>::empty());
    r
}

proof fn run_before_step(text: Seq<char>, c: char, n: nat)
    requires
        n <= text.len(),
        forall|i: int| 0 <= i < n ==> text[i] != c,
        n < text.len() ==> text[n as int] == c,
    ensures
        run_before(text, c) == n,
    decreases n,
{
    if n > 0 {
        run_before_step(text.drop_first(), c, (n - 1) as nat);
    }
}

/// The lines of a text.
pub fn lines(text: &str) -> (r: Vec<String>)
    ensures
        texts(r@) == lines_of(text@),
{
    let t = chars_of(text);
    let mut out: Vec<String> = Vec::new();
    let mut from: usize = 0;
    assert(text@.skip(0) =~= text@);
    assert(texts(out@) + lines_of(text@) =~= lines_of(text@));
    while from < t.len()
        invariant
            t@ == text@,
            from <= t@.len(),
            texts(out@) + lines_of(text@.skip(from as int)) == lines_of(text@),
        decreases t@.len() - from,
    {
        let mut to: usize = from;
        while to < t.len() && t[to] != '\n'
            invariant
                t@ == text@,
                from <= to <= t@.len(),
                forall|i: int| from <= i < to ==> #[trigger] t@[i] != '\n',
            decreases t@.len() - to,
        {
            to += 1;
        }
        let ghost rest = text@.skip(from as int);
        proof {
            run_before_step(rest, '\n', (to - from) as nat);
        }
        let ghost before = texts(out@);
        if to == t.len() {
            assert(rest =~= text@.subrange(from as int, to as int));
            push_text(&mut out, text.substring_char(from, to).to_owned());
            from = to;
            assert(lines_of(text@.skip(from as int)) =~= seq![]);
            assert(texts(out@) + lines_of(text@.skip(from as int)) =~= before + lines_of(rest));
        } else {
            let mut end: usize = to;
            if from < to && t[to - 1] == '\r' {
                end = to - 1;
            }
            let ghost line = rest.take(to - from);
            assert(line =~= text@.subrange(from as int, to as int));
            assert(without_return(line) =~= text@.subrange(from as int, end as int));
            push_text(&mut out, text.substring_char(from, end).to_owned());
            assert(rest.skip(to - from + 1) =~= text@.skip(to + 1));
            from = to + 1;
            assert(texts(out@) + lines_of(text@.skip(from as int)) =~= before + lines_of(rest));
        }
    }
    assert(lines_of(text@.skip(from as int)) =~= seq![]);
    assert(texts(out@) =~= lines_of(text@));
    out
}

proof fn word_run_step(text: Seq<char>, n: nat)
    requires
        n <= text.len(),
        forall|i: int| 0 <= i < n ==> !white_space(text[i]),
        n < text.len() ==> white_space(text[n as int]),
    ensures
        word_run(text) == n,
    decreases n,
{
    if n > 0 {
        word_run_step(text.drop_first(), (n - 1) as nat);
    }
}

/// A text that is one word.
pub open spec fn is_word(text: Seq<char>) -> bool {
    text.len() > 0 && forall|i: int| 0 <= i < text.len() ==> !white_space(#[trigger] text[i])
}

proof fn word_run_bounded(text: Seq<char>)
    ensures
        word_run(text) <= text.len(),
        forall|i: int| 0 <= i < word_run(text) ==> !white_space(#[trigger] text[i]),
        word_run(text) < text.len() ==> white_space(text[word_run(text) as int]),
    decreases text.len(),
{
    if text.len() > 0 && !white_space(text.first()) {
        let rest = text.drop_first();
        word_run_bounded(rest);
        assert forall|i: int| 0 <= i < word_run(text) implies !white_space(#[trigger] text[i]) by {
            if i > 0 {
                assert(text[i] == rest[i - 1]);
            }
        }
    }
}

/// The words of two texts, one behind the other, are those of the first and
/// then those of the second, where white space parts them.
pub proof fn words_join(a: Seq<char>, b: Seq<char>)
    requires
        a.len() == 0 || b.len() == 0 || white_space(a.last()) || white_space(b.first()),
    ensures
        words_of(a + b) == words_of(a) + words_of(b),
    decreases a.len(),
{
    let whole = a + b;
    if a.len() == 0 {
        assert(whole =~= b);
        assert(words_of(a) + words_of(b) =~= words_of(b));
    } else if white_space(a.first()) {
        assert(whole.drop_first() =~= a.drop_first() + b);
        words_join(a.drop_first(), b);
    } else {
        word_run_bounded(a);
        let n = word_run(a);
        assert(n > 0);
        assert forall|i: int| 0 <= i < n implies !white_space(#[trigger] whole[i]) by {
            assert(whole[i] == a[i]);
        }
        if n < a.len() {
            assert(whole[n as int] == a[n as int]);
        } else {
            assert(!white_space(a[a.len() - 1]));
            if b.len() > 0 {
                assert(whole[n as int] == b[0]);
            }
        }
        word_run_step(whole, n);
        assert(whole.take(n as int) =~= a.take(n as int));
        assert(whole.skip(n as int) =~= a.skip(n as int) + b);
        words_join(a.skip(n as int), b);
        assert(words_of(whole) =~= words_of(a) + words_of(b));
    }
}

/// A word is the only word of its own text.
pub proof fn word_stands_alone(word: Seq<char>)
    requires
        is_word(word),
    ensures
        words_of(word) == seq![word],
{
    word_run_step(word, word.len());
    assert(word.take(word.len() as int) =~= word);
    assert(word.skip(word.len() as int) =~= seq![]);
    assert(words_of(seq![]) =~= seq![]);
    assert(words_of(word) =~= seq![word]);
}

/// The words of a text: its maximal runs without white space.
pub fn split_whitespace(text: &str) -> (r: Vec<String>)
    ensures
        texts(r@) == words_of(text@),
{
    let t = chars_of(text);
    let mut out: Vec<String> = Vec::new();
    let mut from: usize = 0;
    assert(text@.skip(0) =~= text@);
    assert(texts(out@) + words_of(text@) =~= words_of(text@));
    while from < t.len()
        invariant
            t@ == text@,
            from <= t@.len(),
            texts(out@) + words_of(text@.skip(from as int)) == words_of(text@),
        decreases t@.len() - from,
    {
        let ghost rest = text@.skip(from as int);
        let ghost before = texts(out@);
        if is_white_space(t[from]) {
            assert(rest.drop_first() =~= text@.skip(from + 1));
            from += 1;
        } else {
            let mut to: usize = from + 1;
            while to < t.len() && !is_white_space(t[to])
                invariant
                    t@ == text@,
                    from < to <= t@.len(),
                    forall|i: int| from <= i < to ==> !white_space(#[trigger] t@[i]),
                decreases t@.len() - to,
            {
                to += 1;
            }
            proof {
                word_run_step(rest, (to - from) as nat);
            }
            assert(rest.take(to - from) =~= text@.subrange(from as int, to as int));
            push_text(&mut out, text.substring_char(from, to).to_owned());
            assert(rest.skip(to - from) =~= text@.skip(to as int));
            from = to;
            assert(texts(out@) + words_of(text@.skip(from as int)) =~= before + words_of(rest));
        }
    }
    assert(words_of(text@.skip(from as int)) =~= seq![]);
    assert(texts(out@) =~= words_of(text@));
    out
}

/// The text with every `from` replaced by the one character of `to`.
pub fn replace(text: &str, from: char, to: &str) -> (r: String)
    requires
        to@.len() == 1,
    ensures
        r@ == replaced(text@, from, to@[0]),
{
    let t = chars_of(text);
    let mut out = String::new();
    let mut i: usize = 0;
    while i < t.len()
        invariant
            t@ == text@,
            i <= t@.len(),
            to@.len() == 1,
            out@ == replaced(text@.take(i as int), from, to@[0]),
        decreases t@.len() - i,
    {
        let ghost before = out@;
        if t[i] == from {
            out.append(to);
        } else {
            out.append(text.substring_char(i, i + 1));
        }
        i += 1;
        assert(out@ =~= replaced(text@.take(i as int), from, to@[0]));
    }
    assert(text@.take(i as int) =~= text@);
    out
}

/// The parts in order, with `sep` between neighbours.
pub fn join(parts: &Vec<String>, sep: &str) -> (r: String)
    ensures
        r@ == joined(texts(parts@), sep@),
{
    let mut out = String::new();
    let mut i: usize = 0;
    while i < parts.len()
        invariant
            i <= parts@.len(),
            out@ == joined(texts(parts@).take(i as int), sep@),
        decreases parts@.len() - i,
    {
        if i > 0 {
            out.append(sep);
        }
        out.append(parts[i].as_str());
        proof {
            let next = texts(parts@).take(i + 1);
            assert(next.drop_last() =~= texts(parts@).take(i as int));
            assert(next.last() == parts@[i as int]@);
            assert(i == 0 ==> out@ =~= next[0]);
        }
        i += 1;
    }
    assert(texts(parts@).take(i as int) =~= texts(parts@));
    out
}

/// The decimal digit `d`, as a text.
fn digit_text(d: u64) -> (r: &'static str)
    requires
        d < 10,
    ensures
        r@ == seq![digit(d as nat)],
{
    proof {
        reveal_strlit("0");
        reveal_strlit("1");
        reveal_strlit("2");
        reveal_strlit("3");
        reveal_strlit("4");
        reveal_strlit("5");
        reveal_strlit("6");
        reveal_strlit("7");
        reveal_strlit("8");
        reveal_strlit("9");
    }
    match d {
        0 => "0",
        1 => "1",
        2 => "2",
        3 => "3",
        4 => "4",
        5 => "5",
        6 => "6",
        7 => "7",
        8 => "8",
        _ => "9",
    }
}

/// The number `n` in decimal.
pub fn decimal_text(n: u64) -> (r: String)
    ensures
        r@ == decimal(n as nat),
    decreases n,
{
    if n < 10 {
        digit_text(n).to_owned()
    } else {
        let mut out = decimal_text(n / 10);
        out.append(digit_text(n % 10));
        assert(out@ =~= decimal(n as nat));
        out
    }
}

/// The integer `n` in decimal.
pub fn signed_decimal_text(n: i32) -> (r: String)
    ensures
        r@ == signed_decimal(n as int),
{
    if n < 0 {
        proof {
            reveal_strlit("-");
        }
        let mut out = "-".to_owned();
        out.append(decimal_text((-(n as i64)) as u64).as_str());
        assert("-"@ =~= seq!['-']);
        out
    } else {
        decimal_text(n as u64)
    }
}

proof fn number_of_grows(digits: Seq<char>, n: int)
    requires
        0 <= n <= digits.len(),
        all_digits(digits),
    ensures
        number_of(digits.take(n)) <= number_of(digits),
    decreases digits.len(),
{
    if n < digits.len() {
        number_of_grows(digits.drop_last(), n);
        assert(digits.drop_last().take(n) =~= digits.take(n));
        assert('0' <= digits[digits.len() - 1]);
    } else {
        assert(digits.take(n) =~= digits);
    }
}

/// The 32-bit number that a text denotes.
pub fn parse_u32(text: &str) -> (r: Option<u32>)
    ensures
        r == parsed_u32(text@),
{
    let t = chars_of(text);
    let start: usize = if t.len() > 0 && t[0] == '+' { 1 } else { 0 };
    let ghost digits = without_plus(text@);
    assert(digits =~= text@.skip(start as int));
    if start == t.len() {
        return None;
    }
    let mut value: u64 = 0;
    let mut i: usize = start;
    assert(digits.take(0) =~= seq![]);
    while i < t.len()
        invariant
            t@ == text@,
            start <= i <= t@.len(),
            digits == without_plus(text@),
            digits == text@.skip(start as int),
            digits.len() > 0,
            all_digits(digits.take(i - start)),
            value == number_of(digits.take(i - start)),
            value <= u32::MAX,
        decreases t@.len() - i,
    {
        let c = t[i];
        let ghost k = i - start;
        assert(digits[k] == c);
        if c < '0' || c > '9' {
            return None;
        }
        let d: u64 = (c as u64) - ('0' as u64);
        assert(digits.take(k + 1).drop_last() =~= digits.take(k));
        assert(digits.take(k + 1).last() == c);
        assert(all_digits(digits.take(k + 1))) by {
            assert forall|j: int| 0 <= j < k + 1 implies '0' <= #[trigger] digits.take(k + 1)[j] <= '9' by {
                if j < k {
                    assert(digits.take(k)[j] == digits[j]);
                }
            }
        }
        value = value * 10 + d;
        if value > u32::MAX as u64 {
            proof {
                if all_digits(digits) {
                    number_of_grows(digits, k + 1);
                }
            }
            return None;
        }
        i += 1;
    }
    assert(digits.take(digits.len() as int) =~= digits);
    Some(value as u32)
}

/// A part occurs at a place exactly where its characters stand there, one by one.
pub proof fn occurrence_is_by_characters(text: Seq<char>, part: Seq<char>, at: int)
    ensures
        occurs_at(text, part, at) <==> (0 <= at && at + part.len() <= text.len() && forall|i: int|
            0 <= i < part.len() ==> #[trigger] part[i] == text[at + i]),
{
    if 0 <= at && at + part.len() <= text.len() {
        let found = text.subrange(at, at + part.len());
        assert(found.len() == part.len());
        if forall|i: int| 0 <= i < part.len() ==> #[trigger] part[i] == text[at + i] {
            assert(found =~= part);
        }
        if found == part {
            assert forall|i: int| 0 <= i < part.len() implies #[trigger] part[i] == text[at + i] by {
                assert(found[i] == text[at + i]);
            }
        }
    }
}

/// What stands in the middle of a text occurs in it.
pub proof fn middle_occurs(front: Seq<char>, part: Seq<char>, back: Seq<char>)
    ensures
        occurs(front + part + back, part),
{
    let text = front + part + back;
    assert(text.subrange(front.len() as int, (front.len() + part.len()) as int) =~= part);
    assert(occurs_at(text, part, front.len() as int));
}

/// Two parts that follow one another occur together.
pub proof fn pair_occurs(front: Seq<char>, a: Seq<char>, b: Seq<char>)
    ensures
        occurs(front + a + b, a + b),
{
    let text = front + a + b;
    let at = front.len() as int;
    assert(text.subrange(at, at + (a + b).len()) =~= a + b);
    assert(occurs_at(text, a + b, at));
}

/// Three parts that follow one another occur together.
pub proof fn triple_occurs(front: Seq<char>, a: Seq<char>, b: Seq<char>, c: Seq<char>)
    ensures
        occurs(front + a + b + c, a + b + c),
{
    pair_occurs(front, a + b, c);
    assert(front + a + b =~= front + (a + b));
}

/// What occurs in a text occurs in every longer one that begins with it.
pub broadcast proof fn occurs_in_longer(text: Seq<char>, more: Seq<char>, part: Seq<char>)
    requires
        occurs(text, part),
    ensures
        #[trigger] occurs(text + more, part),
{
    let at = choose|at: int| occurs_at(text, part, at);
    assert((text + more).subrange(at, at + part.len()) =~= part);
    assert(occurs_at(text + more, part, at));
}

/// What occurs in a text occurs in every longer one that ends with it.
pub broadcast proof fn occurs_behind(front: Seq<char>, text: Seq<char>, part: Seq<char>)
    requires
        occurs(text, part),
    ensures
        #[trigger] occurs(front + text, part),
{
    let at = choose|at: int| occurs_at(text, part, at);
    assert((front + text).subrange(front.len() + at, front.len() + at + part.len()) =~= part);
    assert(occurs_at(front + text, part, front.len() + at));
}

/// Two texts have the same form but for a value: the value `x` stands in `a`
/// wherever the value `y` stands in `b`, and all else is the same.
pub open spec fn same_form(a: Seq<char>, b: Seq<char>, x: Seq<char>, y: Seq<char>) -> bool {
    exists|parts: Seq<Seq<char>>|
        parts.len() > 0 && a == #[trigger] joined(parts, x) && b == #[trigger] joined(parts, y)
}

proof fn joined_glues(p: Seq<Seq<char>>, q: Seq<Seq<char>>, sep: Seq<char>)
    requires
        p.len() > 0,
        q.len() > 0,
    ensures
        joined(p.drop_last().push(p.last() + q[0]) + q.drop_first(), sep) == joined(p, sep) + joined(
            q,
            sep,
        ),
    decreases q.len(),
{
    let glued = p.drop_last().push(p.last() + q[0]);
    if q.len() == 1 {
        assert(glued + q.drop_first() =~= glued);
        if p.len() > 1 {
            assert(glued.drop_last() =~= p.drop_last());
            assert(joined(glued, sep) =~= joined(p, sep) + q[0]);
        }
    } else {
        let shorter = q.drop_last();
        joined_glues(p, shorter, sep);
        let whole = glued + q.drop_first();
        assert(whole.drop_last() =~= glued + shorter.drop_first());
        assert(whole.last() == q.last());
        assert(joined(whole, sep) =~= joined(p, sep) + joined(q, sep));
    }
}

/// Texts of the same form stay so when texts of the same form follow them.
pub broadcast proof fn same_form_joins(
    a: Seq<char>,
    b: Seq<char>,
    c: Seq<char>,
    d: Seq<char>,
    x: Seq<char>,
    y: Seq<char>,
)
    requires
        same_form(a, b, x, y),
        same_form(c, d, x, y),
    ensures
        #[trigger] same_form(a + c, b + d, x, y),
{
    let p = choose|parts: Seq<Seq<char>>|
        parts.len() > 0 && a == #[trigger] joined(parts, x) && b == #[trigger] joined(parts, y);
    let q = choose|parts: Seq<Seq<char>>|
        parts.len() > 0 && c == #[trigger] joined(parts, x) && d == #[trigger] joined(parts, y);
    joined_glues(p, q, x);
    joined_glues(p, q, y);
    let parts = p.drop_last().push(p.last() + q[0]) + q.drop_first();
    assert(parts.len() > 0);
    assert(a + c == joined(parts, x) && b + d == joined(parts, y));
}

/// A text has its own form.
pub broadcast proof fn same_form_of_itself(text: Seq<char>, x: Seq<char>, y: Seq<char>)
    ensures
        #[trigger] same_form(text, text, x, y),
{
    let parts = seq![text];
    assert(text == joined(parts, x) && text == joined(parts, y));
}

/// Two values stand for one another.
pub broadcast proof fn same_form_of_values(x: Seq<char>, y: Seq<char>)
    ensures
        #[trigger] same_form(x, y, x, y),
{
    let parts: Seq<Seq<char>> = seq![seq![], seq![]];
    reveal_with_fuel(joined, 3);
    assert(parts.drop_last() =~= seq![seq![]]);
    assert(joined(parts, x) =~= x);
    assert(joined(parts, y) =~= y);
    assert(x == joined(parts, x) && y == joined(parts, y));
}

/// Equal texts with something between equal texts have equal middles.
pub proof fn middles_agree(front: Seq<char>, a: Seq<char>, b: Seq<char>, back: Seq<char>)
    requires
        front + a + back == front + b + back,
    ensures
        a == b,
{
    let whole = front + a + back;
    assert(whole.len() == front.len() + a.len() + back.len());
    assert((front + b + back).len() == front.len() + b.len() + back.len());
    assert(whole.subrange(front.len() as int, (front.len() + a.len()) as int) =~= a);
    assert((front + b + back).subrange(front.len() as int, (front.len() + b.len()) as int) =~= b);
}

/// White space is what Unicode lists under `White_Space`, character by character.
pub proof fn white_space_is_listed(c: char)
    ensures
        white_space(c) <==> seq![
            '\t',
            '\n',
            '\u{b}',
            '\u{c}',
            '\r',
            ' ',
            '\u{85}',
            '\u{a0}',
            '\u{1680}',
            '\u{2000}',
            '\u{2001}',
            '\u{2002}',
            '\u{2003}',
            '\u{2004}',
            '\u{2005}',
            '\u{2006}',
            '\u{2007}',
            '\u{2008}',
            '\u{2009}',
            '\u{200a}',
            '\u{2028}',
            '\u{2029}',
            '\u{202f}',
            '\u{205f}',
            '\u{3000}',
        ].contains(c),
{
    let listed = seq![
        '\t',
        '\n',
        '\u{b}',
        '\u{c}',
        '\r',
        ' ',
        '\u{85}',
        '\u{a0}',
        '\u{1680}',
        '\u{2000}',
        '\u{2001}',
        '\u{2002}',
        '\u{2003}',
        '\u{2004}',
        '\u{2005}',
        '\u{2006}',
        '\u{2007}',
        '\u{2008}',
        '\u{2009}',
        '\u{200a}',
        '\u{2028}',
        '\u{2029}',
        '\u{202f}',
        '\u{205f}',
        '\u{3000}',
    ];
    assert(listed.len() == 25);
    assert(listed[0] == '\t' && listed[1] == '\n' && listed[2] == '\u{b}' && listed[3] == '\u{c}'
        && listed[4] == '\r' && listed[5] == ' ' && listed[6] == '\u{85}' && listed[7] == '\u{a0}'
        && listed[8] == '\u{1680}' && listed[9] == '\u{2000}' && listed[10] == '\u{2001}'
        && listed[11] == '\u{2002}' && listed[12] == '\u{2003}' && listed[13] == '\u{2004}'
        && listed[14] == '\u{2005}' && listed[15] == '\u{2006}' && listed[16] == '\u{2007}'
        && listed[17] == '\u{2008}' && listed[18] == '\u{2009}' && listed[19] == '\u{200a}'
        && listed[20] == '\u{2028}' && listed[21] == '\u{2029}' && listed[22] == '\u{202f}'
        && listed[23] == '\u{205f}' && listed[24] == '\u{3000}');
}

/// All characters are white space.
pub open spec fn is_blank(text: Seq<char>) -> bool {
    forall|i: int| 0 <= i < text.len() ==> white_space(#[trigger] text[i])
}

proof fn trim_start_cuts(text: Seq<char>)
    ensures
        exists|front: Seq<char>|
            is_blank(front) && text == #[trigger] (front + trim_start(text)),
        trim_start(text).len() > 0 ==> !white_space(trim_start(text).first()),
    decreases text.len(),
{
    if text.len() > 0 && white_space(text.first()) {
        let rest = text.drop_first();
        trim_start_cuts(rest);
        let front = choose|front: Seq<char>|
            is_blank(front) && rest == #[trigger] (front + trim_start(rest));
        let longer = seq![text.first()] + front;
        assert(is_blank(longer));
        assert(text =~= seq![text.first()] + rest);
        assert(longer + trim_start(rest) =~= seq![text.first()] + (front + trim_start(rest)));
        assert(text == longer + trim_start(text));
    } else {
        assert(text =~= Seq::<char>::empty() + trim_start(text));
    }
}

proof fn trim_end_cuts(text: Seq<char>)
    ensures
        exists|back: Seq<char>| is_blank(back) && text == #[trigger] (trim_end(text) + back),
        trim_end(text).len() > 0 ==> !white_space(trim_end(text).last()),
    decreases text.len(),
{
    if text.len() > 0 && white_space(text.last()) {
        let rest = text.drop_last();
        trim_end_cuts(rest);
        let back = choose|back: Seq<char>|
            is_blank(back) && rest == #[trigger] (trim_end(rest) + back);
        let longer = back.push(text.last());
        assert(is_blank(longer));
        assert(text =~= rest.push(text.last()));
        assert(trim_end(rest) + longer =~= (trim_end(rest) + back).push(text.last()));
        assert(text == trim_end(text) + longer);
    } else {
        assert(text =~= trim_end(text) + Seq::<char>::empty());
    }
}

/// Trimming takes white space away at both ends and nothing else, and leaves
/// none there.
pub proof fn trimming_takes_white_space(text: Seq<char>)
    ensures
        exists|front: Seq<char>, back: Seq<char>|
            is_blank(front) && is_blank(back) && text == #[trigger] (front + trimmed(text) + back),
        trimmed(text).len() > 0 ==> !white_space(trimmed(text).first()) && !white_space(
            trimmed(text).last(),
        ),
{
    trim_start_cuts(text);
    let rest = trim_start(text);
    trim_end_cuts(rest);
    let front = choose|front: Seq<char>| is_blank(front) && text == #[trigger] (front + rest);
    let back = choose|back: Seq<char>| is_blank(back) && rest == #[trigger] (trim_end(rest) + back);
    assert(text =~= front + trimmed(text) + back);
    if trimmed(text).len() > 0 {
        assert(trimmed(text).first() == rest.first());
    }
}

/// What is taken away at the end of a text is a run of the character and nothing
/// else, and none is left there.
pub proof fn trailing_run_is_taken(text: Seq<char>, c: char)
    ensures
        without_trailing(text, c).len() <= text.len(),
        text.take(without_trailing(text, c).len() as int) == without_trailing(text, c),
        forall|i: int|
            without_trailing(text, c).len() <= i < text.len() ==> #[trigger] text[i] == c,
        without_trailing(text, c).len() > 0 ==> without_trailing(text, c).last() != c,
    decreases text.len(),
{
    if text.len() > 0 && text.last() == c {
        let rest = text.drop_last();
        trailing_run_is_taken(rest, c);
        let n = without_trailing(text, c).len() as int;
        assert(text.take(n) =~= rest.take(n));
        assert forall|i: int| n <= i < text.len() implies #[trigger] text[i] == c by {
            if i < rest.len() {
                assert(rest[i] == c);
            }
        }
    } else {
        assert(text.take(text.len() as int) =~= text);
    }
}

proof fn run_before_is(text: Seq<char>, c: char, n: nat)
    requires
        n <= text.len(),
        forall|i: int| 0 <= i < n ==> #[trigger] text[i] != c,
        n < text.len() ==> text[n as int] == c,
    ensures
        run_before(text, c) == n,
    decreases n,
{
    if n > 0 {
        assert(text[0] != c);
        let rest = text.drop_first();
        assert forall|i: int| 0 <= i < n - 1 implies #[trigger] rest[i] != c by {
            assert(rest[i] == text[i + 1]);
        }
        run_before_is(rest, c, (n - 1) as nat);
    }
}

/// A line up to its line feed is the first line of a text, without one carriage
/// return at its end; the lines of what follows come behind it.
pub proof fn lines_begin_with_the_first(line: Seq<char>, rest: Seq<char>)
    requires
        !line.contains('\n'),
    ensures
        lines_of(line + seq!['\n'] + rest) == seq![
            if line.len() > 0 && line.last() == '\r' {
                line.drop_last()
            } else {
                line
            },
        ] + lines_of(rest),
{
    let text = line + seq!['\n'] + rest;
    assert forall|i: int| 0 <= i < line.len() implies #[trigger] text[i] != '\n' by {
        assert(text[i] == line[i]);
        assert(line.contains(line[i]));
    }
    run_before_is(text, '\n', line.len());
    assert(text.take(line.len() as int) =~= line);
    assert(text.skip((line.len() + 1) as int) =~= rest);
}

/// A text without a line feed is one line as it is, and no line where it is
/// empty.
pub proof fn text_without_line_feed_is_a_line(text: Seq<char>)
    requires
        !text.contains('\n'),
    ensures
        lines_of(text) == if text.len() == 0 {
            Seq::<Seq<char>>::empty()
        } else {
            seq![text]
        },
{
    assert forall|i: int| 0 <= i < text.len() implies #[trigger] text[i] != '\n' by {
        assert(text.contains(text[i]));
    }
    run_before_is(text, '\n', text.len());
    assert(lines_of(text) =~= if text.len() == 0 {
        Seq::<Seq<char>>::empty()
    } else {
        seq![text]
    });
}

/// White space holds no words.
pub proof fn blank_has_no_words(text: Seq<char>)
    requires
        is_blank(text),
    ensures
        words_of(text) == Seq::<Seq<char>>::empty(),
    decreases text.len(),
{
    if text.len() > 0 {
        assert(white_space(text[0]));
        assert forall|i: int| 0 <= i < text.drop_first().len() implies white_space(
            #[trigger] text.drop_first()[i],
        ) by {
            assert(text.drop_first()[i] == text[i + 1]);
        }
        blank_has_no_words(text.drop_first());
    }
}

/// Replacing a character changes every place where it stands, and no other.
pub proof fn replacing_is_by_characters(text: Seq<char>, from: char, to: char)
    ensures
        replaced(text, from, to).len() == text.len(),
        forall|i: int|
            0 <= i < text.len() ==> #[trigger] replaced(text, from, to)[i] == if text[i] == from {
                to
            } else {
                text[i]
            },
{
}

/// One part joined is itself, and joining two lists is joining each and putting
/// the separator between them.
pub proof fn joining_splits(a: Seq<Seq<char>>, b: Seq<Seq<char>>, sep: Seq<char>)
    requires
        a.len() > 0,
        b.len() > 0,
    ensures
        joined(seq![a[0]], sep) == a[0],
        joined(a + b, sep) == joined(a, sep) + sep + joined(b, sep),
    decreases b.len(),
{
    let both = a + b;
    assert(both.last() == b.last());
    if b.len() == 1 {
        assert(both.drop_last() =~= a);
    } else {
        joining_splits(a, b.drop_last(), sep);
        assert(both.drop_last() =~= a + b.drop_last());
        assert(joined(both, sep) =~= joined(a, sep) + sep + joined(b, sep));
    }
}

/// Joined parts hold each of the parts; without parts there is nothing.
pub proof fn joined_holds_its_parts(parts: Seq<Seq<char>>, sep: Seq<char>, i: int)
    ensures
        0 <= i < parts.len() ==> occurs(joined(parts, sep), parts[i]),
        parts.len() == 0 ==> joined(parts, sep).len() == 0,
    decreases parts.len(),
{
    if 0 <= i < parts.len() {
        middle_occurs(Seq::empty(), parts[i], Seq::empty());
        assert(Seq::<char>::empty() + parts[i] + Seq::empty() =~= parts[i]);
        if parts.len() > 1 {
            broadcast use {occurs_in_longer, occurs_behind};

            if i < parts.len() - 1 {
                joined_holds_its_parts(parts.drop_last(), sep, i);
                assert(parts.drop_last()[i] == parts[i]);
            }
        }
    }
}

/// A number in decimal is written with digits, without a leading zero, and
/// denotes the number.
pub proof fn decimal_denotes(n: nat)
    ensures
        decimal(n).len() > 0,
        all_digits(decimal(n)),
        number_of(decimal(n)) == n,
        n > 0 ==> decimal(n)[0] != '0',
    decreases n,
{
    reveal_with_fuel(number_of, 2);
    if n < 10 {
        assert(decimal(n).drop_last() =~= seq![]);
    } else {
        decimal_denotes(n / 10);
        assert(decimal(n).drop_last() =~= decimal(n / 10));
        assert forall|i: int| 0 <= i < decimal(n).len() implies '0' <= #[trigger] decimal(n)[i]
            <= '9' by {
            if i < decimal(n / 10).len() {
                assert(decimal(n)[i] == decimal(n / 10)[i]);
            }
        }
    }
}

/// A number in decimal is read back as itself.
pub proof fn decimal_reads_back(n: u32)
    ensures
        parsed_u32(decimal(n as nat)) == Some(n),
{
    decimal_denotes(n as nat);
    assert('0' <= decimal(n as nat)[0]);
}

/// The sign of a number stands before its digits where it is negative, and only
/// there.
pub proof fn signed_numbers_have_their_sign(n: int)
    ensures
        n >= 0 ==> signed_decimal(n) == decimal(n as nat),
        n < 0 ==> signed_decimal(n).len() > 0 && signed_decimal(n)[0] == '-'
            && number_of(signed_decimal(n).drop_first()) == -n,
{
    if n < 0 {
        decimal_denotes((-n) as nat);
        assert(signed_decimal(n).drop_first() =~= decimal((-n) as nat));
    }
}

/// A text is read as a number exactly where it is digits, with one plus sign
/// before them or none, and within range; the sign does not change the number.
pub proof fn numbers_are_read_from_digits(digits: Seq<char>)
    requires
        digits.len() > 0,
        digits[0] != '+',
    ensures
        parsed_u32(seq!['+'] + digits) == parsed_u32(digits),
        parsed_u32(digits) is Some <==> (forall|i: int|
            0 <= i < digits.len() ==> '0' <= #[trigger] digits[i] <= '9') && number_of(digits)
            <= 0xffff_ffff,
        parsed_u32(digits) matches Some(n) ==> n == number_of(digits),
        parsed_u32(seq![]) is None,
        parsed_u32(seq!['+']) is None,
{
    assert((seq!['+'] + digits).drop_first() =~= digits);
    assert(seq!['+'].drop_first() =~= Seq::<char>::empty());
}

/// A further digit multiplies a number by ten and adds itself.
pub proof fn digits_have_their_weight(digits: Seq<char>, d: nat)
    requires
        d < 10,
    ensures
        number_of(Seq::<char>::empty()) == 0,
        number_of(digits.push((('0' as nat) + d) as char)) == 10 * number_of(digits) + d,
{
    assert(digits.push((('0' as nat) + d) as char).drop_last() =~= digits);
}

/// The views of some texts are those of each, in their order.
pub proof fn texts_are_the_views(parts: Seq<String>, i: int)
    ensures
        texts(parts).len() == parts.len(),
        0 <= i < parts.len() ==> texts(parts)[i] == parts[i]@,
{
}

/// What occurs in a text stands somewhere in it, between what comes before and
/// what comes behind.
pub proof fn occurrence_has_a_place(text: Seq<char>, part: Seq<char>)
    requires
        occurs(text, part),
    ensures
        exists|front: Seq<char>, back: Seq<char>| text == #[trigger] (front + part + back),
{
    let at = choose|at: int| #[trigger] occurs_at(text, part, at);
    let front = text.take(at);
    let back = text.skip(at + part.len());
    assert(text.subrange(at, at + part.len()) == part);
    assert(text =~= front + part + back);
}

/// Texts of one form that hold the same value are the same.
pub proof fn one_form_with_one_value_is_one_text(a: Seq<char>, b: Seq<char>, value: Seq<char>)
    requires
        same_form(a, b, value, value),
    ensures
        a == b,
{
}

} // verus!
