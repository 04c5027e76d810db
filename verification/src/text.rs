//! Text as a sequence of characters: comparison, search, trimming, splitting and decimal notation.
use vstd::prelude::*;
use vstd::string::*;

verus! {

/// The sequence of texts that a vector of strings holds.
pub open spec fn texts(strings: Seq<String>) -> Seq<Seq<char>> {
    Seq::new(strings.len(), |i: int| strings[i]@)
}

/// The characters of `text`, in order.
pub fn chars_of(text: &str) -> (r: Vec<char>)
    ensures
        r@ == text@,
{
    let mut out: Vec<char> = Vec::new();
    for c in it: text.chars()
        invariant
            it.seq() == text@,
            out@ == text@.take(it.index() as int),
    {
        out.push(c);
        assert(out@ =~= text@.take(it.index() + 1));
    }
    assert(out@ =~= text@);
    out
}

/// Whether two texts hold the same characters.
pub fn same_text(a: &str, b: &str) -> (r: bool)
    ensures
        r == (a@ == b@),
{
    a.to_owned() == b.to_owned()
}

/// Whether an optional text is present and holds the same characters as `b`.
pub fn is_some_text(a: &Option<String>, b: &str) -> (r: bool)
    ensures
        r == (a is Some && a->Some_0@ == b@),
{
    match a {
        Some(text) => same_text(text.as_str(), b),
        None => false,
    }
}

/// `a` followed by `b`.
pub fn joined2(a: &str, b: &str) -> (r: String)
    ensures
        r@ == a@ + b@,
{
    let mut out: String = a.to_owned();
    out.append(b);
    out
}

/// `a` followed by `b` and `c`.
pub fn joined3(a: &str, b: &str, c: &str) -> (r: String)
    ensures
        r@ == a@ + b@ + c@,
{
    let mut out: String = a.to_owned();
    out.append(b);
    out.append(c);
    out
}

/// `pattern` stands in `text` at position `i`.
pub open spec fn occurs_at(text: Seq<char>, pattern: Seq<char>, i: int) -> bool {
    0 <= i && i + pattern.len() <= text.len() && text.subrange(i, i + pattern.len() as int)
        == pattern
}

/// `pattern` stands somewhere in `text`.
pub open spec fn contains_text(text: Seq<char>, pattern: Seq<char>) -> bool {
    exists|i: int| #[trigger] occurs_at(text, pattern, i)
}

/// `i` is the first position at which `pattern` stands in `text`.
pub open spec fn first_at(text: Seq<char>, pattern: Seq<char>, i: int) -> bool {
    occurs_at(text, pattern, i) && forall|j: int| 0 <= j < i ==> !occurs_at(text, pattern, j)
}

/// A pattern first stands at one position at most.
pub proof fn first_position_is_unique(text: Seq<char>, pattern: Seq<char>, i: int, j: int)
    requires
        first_at(text, pattern, i),
        first_at(text, pattern, j),
    ensures
        i == j,
{
    if i < j {
        assert(!occurs_at(text, pattern, i));
    } else if j < i {
        assert(!occurs_at(text, pattern, j));
    }
}

/// `text` begins with `pattern`.
pub open spec fn begins_with(text: Seq<char>, pattern: Seq<char>) -> bool {
    occurs_at(text, pattern, 0)
}

fn occurs_here(text: &Vec<char>, pattern: &Vec<char>, i: usize) -> (r: bool)
    requires
        i + pattern@.len() <= text@.len(),
    ensures
        r == occurs_at(text@, pattern@, i as int),
{
    let n: usize = text.len();
    let mut k: usize = 0;
    while k < pattern.len()
        invariant
            k <= pattern@.len(),
            n == text@.len(),
            i + pattern@.len() <= n,
            forall|j: int| 0 <= j < k ==> text@[i + j] == pattern@[j],
        decreases pattern@.len() - k,
    {
        if text[i + k] != pattern[k] {
            assert(
                text@.subrange(i as int, i + pattern@.len() as int)[k as int] != pattern@[k as int]
            );
            return false;
        }
        k = k + 1;
    }
    assert(text@.subrange(i as int, i + pattern@.len() as int) =~= pattern@);
    true
}

fn find_chars(t: &Vec<char>, p: &Vec<char>) -> (r: Option<usize>)
    ensures
        r is Some <==> contains_text(t@, p@),
        r matches Some(i) ==> first_at(t@, p@, i as int),
{
    if p.len() > t.len() {
        return None;
    }
    let last: usize = t.len() - p.len();
    let mut i: usize = 0;
    loop
        invariant
            last == t@.len() - p@.len(),
            i <= last,
            forall|j: int| 0 <= j < i ==> !occurs_at(t@, p@, j),
        decreases last - i,
    {
        if occurs_here(t, p, i) {
            return Some(i);
        }
        if i == last {
            assert forall|j: int| !(#[trigger] occurs_at(t@, p@, j)) by {
                if j < i {
                } else if j == i {
                } else {
                }
            }
            return None;
        }
        i = i + 1;
    }
}

/// The first position at which `pattern` stands in `text`, counted in characters.
pub fn find(text: &str, pattern: &str) -> (r: Option<usize>)
    ensures
        r is Some <==> contains_text(text@, pattern@),
        r matches Some(i) ==> first_at(text@, pattern@, i as int),
{
    find_chars(&chars_of(text), &chars_of(pattern))
}

/// Whether `pattern` stands somewhere in `text`.
pub fn contains(text: &str, pattern: &str) -> (r: bool)
    ensures
        r == contains_text(text@, pattern@),
{
    find(text, pattern).is_some()
}

/// Whether `text` begins with `pattern`.
pub fn starts_with(text: &str, pattern: &str) -> (r: bool)
    ensures
        r == begins_with(text@, pattern@),
{
    let t = chars_of(text);
    let p = chars_of(pattern);
    if p.len() > t.len() {
        false
    } else {
        occurs_here(&t, &p, 0)
    }
}

/// A character with ASCII letters in upper case.
pub open spec fn ascii_upper(c: char) -> char {
    if 'a' <= c <= 'z' {
        (c as u32 - 32) as char
    } else {
        c
    }
}

/// A text with its ASCII letters in upper case.
pub open spec fn ascii_uppercase(text: Seq<char>) -> Seq<char> {
    text.map_values(|c: char| ascii_upper(c))
}

/// Whether `pattern` stands somewhere in `text` with its ASCII letters in upper case.
pub fn contains_in_uppercase(text: &str, pattern: &str) -> (r: bool)
    ensures
        r == contains_text(ascii_uppercase(text@), pattern@),
{
    let mut chars: Vec<char> = chars_of(text);
    let mut i: usize = 0;
    while i < chars.len()
        invariant
            i <= chars@.len(),
            chars@.len() == text@.len(),
            forall|j: int| 0 <= j < i ==> #[trigger] chars@[j] == ascii_upper(text@[j]),
            forall|j: int| i <= j < text@.len() ==> #[trigger] chars@[j] == text@[j],
        decreases chars@.len() - i,
    {
        let c: char = chars[i];
        if 'a' <= c && c <= 'z' {
            chars.set(i, ((c as u8) - 32) as char);
        }
        i = i + 1;
    }
    assert(chars@ =~= ascii_uppercase(text@));
    find_chars(&chars, &chars_of(pattern)).is_some()
}

/// The Unicode property White_Space.
pub open spec fn white_space(c: char) -> bool {
    ||| '\u{9}' <= c <= '\u{d}'
    ||| c == '\u{20}'
    ||| c == '\u{85}'
    ||| c == '\u{a0}'
    ||| c == '\u{1680}'
    ||| '\u{2000}' <= c <= '\u{200a}'
    ||| c == '\u{2028}'
    ||| c == '\u{2029}'
    ||| c == '\u{202f}'
    ||| c == '\u{205f}'
    ||| c == '\u{3000}'
}

fn is_white_space(c: char) -> (r: bool)
    ensures
        r == white_space(c),
{
    ('\u{9}' <= c && c <= '\u{d}') || c == '\u{20}' || c == '\u{85}' || c == '\u{a0}' || c
        == '\u{1680}' || ('\u{2000}' <= c && c <= '\u{200a}') || c == '\u{2028}' || c == '\u{2029}'
        || c == '\u{202f}' || c == '\u{205f}' || c == '\u{3000}'
}

/// The Unicode general category Cc.
pub open spec fn control(c: char) -> bool {
    c <= '\u{1f}' || '\u{7f}' <= c <= '\u{9f}'
}

/// Whether `text` holds a control character.
pub fn has_control(text: &str) -> (r: bool)
    ensures
        r == exists|i: int| 0 <= i < text@.len() && control(#[trigger] text@[i]),
{
    let t = chars_of(text);
    let mut i: usize = 0;
    while i < t.len()
        invariant
            t@ == text@,
            i <= t@.len(),
            forall|j: int| 0 <= j < i ==> !control(#[trigger] text@[j]),
        decreases t@.len() - i,
    {
        let c: char = t[i];
        if c <= '\u{1f}' || ('\u{7f}' <= c && c <= '\u{9f}') {
            assert(control(text@[i as int]));
            return true;
        }
        i = i + 1;
    }
    false
}

/// `text` without the white space it begins with.
pub open spec fn trim_start(text: Seq<char>) -> Seq<char>
    decreases text.len(),
{
    if text.len() > 0 && white_space(text[0]) {
        trim_start(text.skip(1))
    } else {
        text
    }
}

/// `text` without the white space it ends with.
pub open spec fn trim_end(text: Seq<char>) -> Seq<char>
    decreases text.len(),
{
    if text.len() > 0 && white_space(text.last()) {
        trim_end(text.drop_last())
    } else {
        text
    }
}

/// `text` without the white space around it.
pub open spec fn trimmed(text: Seq<char>) -> Seq<char> {
    trim_end(trim_start(text))
}

/// `text` without the white space around it.
pub fn trim(text: &str) -> (r: &str)
    ensures
        r@ == trimmed(text@),
{
    let t = chars_of(text);
    let n: usize = t.len();
    let mut from: usize = 0;
    assert(text@.skip(0) =~= text@);
    while from < n && is_white_space(t[from])
        invariant
            n == t@.len(),
            t@ == text@,
            from <= n,
            trim_start(text@) == trim_start(text@.skip(from as int)),
        decreases n - from,
    {
        assert(text@.skip(from as int).skip(1) =~= text@.skip(from + 1));
        from = from + 1;
    }
    assert(trim_start(text@) == text@.skip(from as int));
    let mut to: usize = n;
    assert(text@.skip(from as int) =~= text@.subrange(from as int, to as int));
    while from < to && is_white_space(t[to - 1])
        invariant
            n == t@.len(),
            t@ == text@,
            from <= to <= n,
            trimmed(text@) == trim_end(text@.subrange(from as int, to as int)),
        decreases to - from,
    {
        assert(text@.subrange(from as int, to as int).drop_last() =~= text@.subrange(
            from as int,
            to - 1,
        ));
        to = to - 1;
    }
    text.substring_char(from, to)
}

/// What `trimmed` keeps begins and ends with no white space.
pub proof fn trimmed_has_no_white_space_around(text: Seq<char>)
    ensures
        trimmed(text).len() > 0 ==> !white_space(trimmed(text)[0]) && !white_space(
            trimmed(text).last(),
        ),
{
    trim_start_first(text);
    trim_end_keeps_first(trim_start(text));
}

proof fn trim_start_first(text: Seq<char>)
    ensures
        trim_start(text).len() > 0 ==> !white_space(trim_start(text)[0]),
    decreases text.len(),
{
    if text.len() > 0 && white_space(text[0]) {
        trim_start_first(text.skip(1));
    }
}

proof fn trim_end_keeps_first(text: Seq<char>)
    ensures
        trim_end(text).len() > 0 ==> trim_end(text)[0] == text[0] && !white_space(
            trim_end(text).last(),
        ),
    decreases text.len(),
{
    if text.len() > 0 && white_space(text.last()) {
        trim_end_keeps_first(text.drop_last());
    }
}

/// What `trimmed` keeps holds no character that the text does not hold.
pub proof fn trimmed_is_within(text: Seq<char>, c: char)
    ensures
        trimmed(text).contains(c) ==> text.contains(c),
{
    trim_start_is_within(text, c);
    trim_end_is_within(trim_start(text), c);
}

proof fn trim_start_is_within(text: Seq<char>, c: char)
    ensures
        trim_start(text).contains(c) ==> text.contains(c),
    decreases text.len(),
{
    if text.len() > 0 && white_space(text[0]) {
        let rest = text.skip(1);
        trim_start_is_within(rest, c);
        if rest.contains(c) {
            let k = choose|k: int| 0 <= k < rest.len() && rest[k] == c;
            assert(text[k + 1] == c);
        }
    }
}

proof fn trim_end_is_within(text: Seq<char>, c: char)
    ensures
        trim_end(text).contains(c) ==> text.contains(c),
    decreases text.len(),
{
    if text.len() > 0 && white_space(text.last()) {
        let rest = text.drop_last();
        trim_end_is_within(rest, c);
        if rest.contains(c) {
            let k = choose|k: int| 0 <= k < rest.len() && rest[k] == c;
            assert(text[k] == c);
        }
    }
}

proof fn trim_start_with_another(text: Seq<char>, c: char)
    requires
        white_space(c),
    ensures
        trim_start(text.push(c)) == if trim_start(text).len() == 0 {
            Seq::empty()
        } else {
            trim_start(text).push(c)
        },
    decreases text.len(),
{
    reveal_with_fuel(trim_start, 2);
    if text.len() == 0 {
        assert(text.push(c).skip(1) =~= Seq::<char>::empty());
    } else if white_space(text[0]) {
        trim_start_with_another(text.skip(1), c);
        assert(text.push(c).skip(1) =~= text.skip(1).push(c));
    }
}

/// White space around a text is trimmed with the rest.
pub proof fn white_space_around_is_trimmed(text: Seq<char>, c: char)
    requires
        white_space(c),
    ensures
        trimmed(text.push(c)) == trimmed(text),
        trimmed(seq![c] + text) == trimmed(text),
{
    trim_start_with_another(text, c);
    assert(trim_start(text).push(c).drop_last() =~= trim_start(text));
    assert((seq![c] + text).skip(1) =~= text);
}

/// The parts of `text` between the occurrences of `separator`, empty ones and the last one
/// included.
pub open spec fn split_at_each(text: Seq<char>, separator: char) -> Seq<Seq<char>>
    decreases text.len(),
{
    if text.len() == 0 {
        seq![Seq::<char>::empty()]
    } else {
        let parts = split_at_each(text.drop_last(), separator);
        if text.last() == separator {
            parts.push(Seq::<char>::empty())
        } else {
            parts.drop_last().push(parts.last().push(text.last()))
        }
    }
}

/// There is always a last part.
pub proof fn split_is_not_empty(text: Seq<char>, separator: char)
    ensures
        split_at_each(text, separator).len() > 0,
    decreases text.len(),
{
    if text.len() > 0 {
        split_is_not_empty(text.drop_last(), separator);
    }
}

/// The parts of two texts with the separator between them are those of the first and those of the
/// second.
pub proof fn split_of_joined(first: Seq<char>, second: Seq<char>, separator: char)
    ensures
        split_at_each(first.push(separator) + second, separator) == split_at_each(first, separator)
            + split_at_each(second, separator),
    decreases second.len(),
{
    let whole = first.push(separator) + second;
    let parts = split_at_each(first, separator);
    if second.len() == 0 {
        assert(whole =~= first.push(separator));
        assert(first.push(separator).drop_last() =~= first);
        assert(parts.push(Seq::<char>::empty()) =~= parts + seq![Seq::<char>::empty()]);
    } else {
        split_of_joined(first, second.drop_last(), separator);
        split_is_not_empty(second.drop_last(), separator);
        assert(whole.drop_last() =~= first.push(separator) + second.drop_last());
        let rest = split_at_each(second.drop_last(), separator);
        if second.last() == separator {
            assert((parts + rest).push(Seq::<char>::empty()) =~= parts + rest.push(
                Seq::<char>::empty(),
            ));
        } else {
            assert((parts + rest).drop_last().push((parts + rest).last().push(second.last()))
                =~= parts + rest.drop_last().push(rest.last().push(second.last())));
        }
    }
}

/// A character before a text that is no separator comes before its first part.
pub proof fn split_with_another_in_front(c: char, text: Seq<char>, separator: char)
    requires
        c != separator,
    ensures
        split_at_each(seq![c] + text, separator) == seq![
            seq![c] + split_at_each(text, separator)[0],
        ] + split_at_each(text, separator).skip(1),
    decreases text.len(),
{
    reveal_with_fuel(split_at_each, 2);
    let whole = seq![c] + text;
    let parts = split_at_each(text, separator);
    split_is_not_empty(text, separator);
    if text.len() == 0 {
        assert(whole.drop_last() =~= Seq::<char>::empty());
        assert(Seq::<char>::empty().push(c) =~= seq![c] + parts[0]);
        assert(split_at_each(whole, separator) =~= seq![seq![c] + parts[0]] + parts.skip(1));
    } else {
        split_with_another_in_front(c, text.drop_last(), separator);
        split_is_not_empty(text.drop_last(), separator);
        assert(whole.drop_last() =~= seq![c] + text.drop_last());
        let before = split_at_each(text.drop_last(), separator);
        if before.len() == 1 && text.last() != separator {
            assert((seq![c] + before[0]).push(text.last()) =~= seq![c] + before[0].push(
                text.last(),
            ));
        }
        assert(split_at_each(whole, separator) =~= seq![seq![c] + parts[0]] + parts.skip(1));
    }
}

/// No part holds the separator.
pub proof fn split_parts_lack_separator(text: Seq<char>, separator: char, i: int)
    requires
        0 <= i < split_at_each(text, separator).len(),
    ensures
        !split_at_each(text, separator)[i].contains(separator),
    decreases text.len(),
{
    if text.len() > 0 {
        let before = split_at_each(text.drop_last(), separator);
        split_is_not_empty(text.drop_last(), separator);
        if i < before.len() {
            split_parts_lack_separator(text.drop_last(), separator, i);
        }
        let part = split_at_each(text, separator)[i];
        if part.contains(separator) {
            let k = choose|k: int| 0 <= k < part.len() && part[k] == separator;
            if text.last() != separator && i == before.len() - 1 && k < before[i].len() {
                assert(before[i][k] == separator);
            } else if i < before.len() && part == before[i] {
                assert(before[i][k] == separator);
            }
        }
    }
}

/// The parts of `text` between the occurrences of `separator`.
pub fn split(text: &str, separator: char) -> (r: Vec<String>)
    ensures
        texts(r@) == split_at_each(text@, separator),
{
    let t = chars_of(text);
    let n: usize = t.len();
    let mut parts: Vec<String> = Vec::new();
    let mut from: usize = 0;
    let mut i: usize = 0;
    assert(text@.take(0) =~= Seq::<char>::empty());
    assert(text@.subrange(0, 0) =~= Seq::<char>::empty());
    assert(texts(parts@).push(Seq::<char>::empty()) =~= seq![Seq::<char>::empty()]);
    while i < n
        invariant
            n == t@.len(),
            t@ == text@,
            from <= i <= n,
            split_at_each(text@.take(i as int), separator) == texts(parts@).push(
                text@.subrange(from as int, i as int),
            ),
        decreases n - i,
    {
        let ghost before = text@.take(i as int);
        let ghost after = text@.take(i + 1);
        assert(after.drop_last() =~= before);
        assert(after.last() == t@[i as int]);
        let ghost open_part = text@.subrange(from as int, i as int);
        if t[i] == separator {
            let part: String = text.substring_char(from, i).to_owned();
            let ghost old_parts = parts@;
            parts.push(part);
            assert(texts(parts@) =~= texts(old_parts).push(open_part));
            from = i + 1;
            assert(text@.subrange(from as int, i + 1) =~= Seq::<char>::empty());
        } else {
            assert(texts(parts@).push(open_part).drop_last() =~= texts(parts@));
            assert(text@.subrange(from as int, i + 1) =~= open_part.push(t@[i as int]));
        }
        i = i + 1;
    }
    assert(text@.take(n as int) =~= text@);
    let last: String = text.substring_char(from, n).to_owned();
    let ghost old_parts = parts@;
    parts.push(last);
    assert(texts(parts@) =~= texts(old_parts).push(text@.subrange(from as int, n as int)));
    parts
}

/// A line without the carriage return it ends with.
pub open spec fn without_return(line: Seq<char>) -> Seq<char> {
    if line.len() > 0 && line.last() == '\r' {
        line.drop_last()
    } else {
        line
    }
}

/// The lines of a text. A line ends with a line feed or with a carriage return and a line feed; the
/// last one may lack its end.
pub open spec fn lines_of(text: Seq<char>) -> Seq<Seq<char>> {
    let parts = split_at_each(text, '\n');
    let ended = parts.drop_last().map_values(|line: Seq<char>| without_return(line));
    if parts.last().len() == 0 {
        ended
    } else {
        ended.push(parts.last())
    }
}

fn strip_return(line: &str) -> (r: &str)
    ensures
        r@ == without_return(line@),
{
    let chars = chars_of(line);
    let n: usize = chars.len();
    if n > 0 && chars[n - 1] == '\r' {
        assert(line@.subrange(0, n - 1) =~= line@.drop_last());
        line.substring_char(0, n - 1)
    } else {
        line
    }
}

/// The lines of a text.
pub fn lines(text: &str) -> (r: Vec<String>)
    ensures
        texts(r@) == lines_of(text@),
{
    let parts = split(text, '\n');
    proof {
        split_is_not_empty(text@, '\n');
    }
    let ghost shown = split_at_each(text@, '\n');
    let ghost ended = shown.drop_last().map_values(|line: Seq<char>| without_return(line));
    assert(texts(parts@).len() == parts@.len());
    let last: usize = parts.len() - 1;
    let mut found: Vec<String> = Vec::new();
    let mut i: usize = 0;
    while i < last
        invariant
            parts@.len() == last + 1,
            i <= last,
            shown == texts(parts@),
            ended == shown.drop_last().map_values(|line: Seq<char>| without_return(line)),
            texts(found@) =~= ended.take(i as int),
        decreases last - i,
    {
        let ghost before = found@;
        assert(shown[i as int] == parts@[i as int]@);
        found.push(strip_return(parts[i].as_str()).to_owned());
        assert(texts(found@) =~= texts(before).push(ended[i as int]));
        i = i + 1;
    }
    assert(ended.take(i as int) =~= ended);
    assert(shown.last() == parts@[last as int]@);
    if chars_of(parts[last].as_str()).len() > 0 {
        let ghost before = found@;
        found.push(parts[last].clone());
        assert(texts(found@) =~= texts(before).push(shown.last()));
    }
    found
}

/// Texts one after the other, each on a line of its own.
pub open spec fn joined_lines(lines: Seq<Seq<char>>) -> Seq<char>
    decreases lines.len(),
{
    if lines.len() == 0 {
        Seq::empty()
    } else if lines.len() == 1 {
        lines[0]
    } else {
        joined_lines(lines.drop_last()) + "\n"@ + lines.last()
    }
}

/// The decimal digit of `n`, which is below ten.
pub open spec fn digit(n: nat) -> char {
    (('0' as u32) + n) as char
}

/// `n` in decimal notation.
pub open spec fn decimal_text(n: nat) -> Seq<char>
    decreases n,
{
    if n < 10 {
        seq![digit(n)]
    } else {
        decimal_text(n / 10).push(digit(n % 10))
    }
}

/// An integer in decimal notation, with a leading minus where it is negative.
pub open spec fn integer_text(n: int) -> Seq<char> {
    if n < 0 {
        "-"@ + decimal_text((-n) as nat)
    } else {
        decimal_text(n as nat)
    }
}

fn digit_text(n: u64) -> (r: &'static str)
    requires
        n < 10,
    ensures
        r@ == seq![digit(n as nat)],
{
    proof {
        reveal_strlit("0");
        reveal_strlit("1");
        reveal_strlit("2");
        reveal_strlit("3");
        reveal_strlit("4");
        reveal_strlit("5");
        reveal_strlit("6");
        reveal_strlit("7");
        reveal_strlit("8");
        reveal_strlit("9");
    }
    let r: &'static str = if n == 0 {
        "0"
    } else if n == 1 {
        "1"
    } else if n == 2 {
        "2"
    } else if n == 3 {
        "3"
    } else if n == 4 {
        "4"
    } else if n == 5 {
        "5"
    } else if n == 6 {
        "6"
    } else if n == 7 {
        "7"
    } else if n == 8 {
        "8"
    } else {
        "9"
    };
    assert(r@ =~= seq![digit(n as nat)]);
    r
}

/// `n` in decimal notation.
pub fn decimal(n: u64) -> (r: String)
    ensures
        r@ == decimal_text(n as nat),
    decreases n,
{
    if n < 10 {
        digit_text(n).to_owned()
    } else {
        let mut head: String = decimal(n / 10);
        head.append(digit_text(n % 10));
        assert(head@ =~= decimal_text((n / 10) as nat).push(digit((n % 10) as nat)));
        head
    }
}

/// `n` in decimal notation, with a leading minus where it is negative.
pub fn integer(n: i64) -> (r: String)
    ensures
        r@ == integer_text(n as int),
{
    if n >= 0 {
        decimal(n as u64)
    } else if n == i64::MIN {
        joined2("-", decimal(9223372036854775808u64).as_str())
    } else {
        joined2("-", decimal((-n) as u64).as_str())
    }
}

/// A character is a decimal digit.
pub open spec fn is_digit(c: char) -> bool {
    '0' <= c <= '9'
}

/// The number that decimal digits write.
pub open spec fn digits_value(text: Seq<char>) -> nat
    decreases text.len(),
{
    if text.len() == 0 {
        0
    } else {
        10 * digits_value(text.drop_last()) + (text.last() as nat - '0' as nat) as nat
    }
}

/// The digits of a number, without the plus sign that may stand before them.
pub open spec fn unsigned_digits(text: Seq<char>) -> Seq<char> {
    if text.len() > 0 && text[0] == '+' {
        text.skip(1)
    } else {
        text
    }
}

/// The number that a text writes: decimal digits, perhaps after a plus sign, of a value within
/// the range of `u64`.
pub open spec fn unsigned_of(text: Seq<char>) -> Option<u64> {
    let digits = unsigned_digits(text);
    if digits.len() > 0 && (forall|i: int| 0 <= i < digits.len() ==> is_digit(#[trigger] digits[i]))
        && digits_value(digits) <= u64::MAX {
        Some(digits_value(digits) as u64)
    } else {
        None
    }
}

/// A prefix of digits writes no greater number than the whole.
proof fn prefix_value_is_smaller(text: Seq<char>, i: int)
    requires
        0 <= i <= text.len(),
        forall|j: int| 0 <= j < text.len() ==> is_digit(#[trigger] text[j]),
    ensures
        digits_value(text.take(i)) <= digits_value(text),
    decreases text.len(),
{
    if i < text.len() {
        let shorter = text.drop_last();
        assert forall|j: int| 0 <= j < shorter.len() implies is_digit(#[trigger] shorter[j]) by {
            assert(shorter[j] == text[j]);
        }
        prefix_value_is_smaller(shorter, i);
        assert(shorter.take(i) =~= text.take(i));
        assert(is_digit(text[text.len() - 1]));
    } else {
        assert(text.take(i) =~= text);
    }
}

/// The number that a text writes, where it writes one.
pub fn parse_unsigned(text: &str) -> (r: Option<u64>)
    ensures
        r == unsigned_of(text@),
{
    let chars: Vec<char> = chars_of(text);
    let start: usize = if chars.len() > 0 && chars[0] == '+' {
        1
    } else {
        0
    };
    let ghost digits = unsigned_digits(text@);
    assert(forall|j: int| 0 <= j < digits.len() ==> #[trigger] digits[j] == chars@[j + start]);
    if chars.len() == start {
        return None;
    }
    let mut value: u64 = 0;
    let mut i: usize = start;
    while i < chars.len()
        invariant
            start <= i <= chars.len(),
            start <= 1,
            digits.len() == chars@.len() - start,
            digits.len() > 0,
            digits == unsigned_digits(text@),
            forall|j: int| 0 <= j < digits.len() ==> #[trigger] digits[j] == chars@[j + start],
            forall|j: int| 0 <= j < i - start ==> is_digit(#[trigger] digits[j]),
            value == digits_value(digits.take(i - start)),
        decreases chars.len() - i,
    {
        let c: char = chars[i];
        assert(digits[i - start] == c);
        if c < '0' || c > '9' {
            return None;
        }
        let d: u64 = (c as u32 - '0' as u32) as u64;
        let ghost next = digits.take(i - start + 1);
        assert(next.drop_last() =~= digits.take(i - start));
        assert(next.last() == c);
        assert(digits_value(next) == 10 * value + d);
        if value > u64::MAX / 10 || value * 10 > u64::MAX - d {
            proof {
                assert(10 * value + d > u64::MAX);
                if forall|j: int| 0 <= j < digits.len() ==> is_digit(#[trigger] digits[j]) {
                    prefix_value_is_smaller(digits, i - start + 1);
                }
            }
            return None;
        }
        value = value * 10 + d;
        i = i + 1;
    }
    assert(digits.take(i - start) =~= digits);
    Some(value)
}

/// A number is read back from the digits that write it.
pub proof fn decimal_is_read_back(n: u64)
    ensures
        unsigned_of(decimal_text(n as nat)) == Some(n),
{
    decimal_digits(n as nat);
    let text = decimal_text(n as nat);
    assert(is_digit(text[0]));
}

/// The digits that write a number are decimal digits, and write it.
proof fn decimal_digits(n: nat)
    ensures
        decimal_text(n).len() > 0,
        forall|j: int| 0 <= j < decimal_text(n).len() ==> is_digit(#[trigger] decimal_text(n)[j]),
        digits_value(decimal_text(n)) == n,
    decreases n,
{
    let text = decimal_text(n);
    if n < 10 {
        assert(text.drop_last() =~= Seq::<char>::empty());
        assert(digits_value(text.drop_last()) == 0);
    } else {
        decimal_digits(n / 10);
        assert(text.drop_last() =~= decimal_text(n / 10));
    }
}

} // verus!
