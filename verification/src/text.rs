//! Text as a sequence of characters, and the small queries on it that the reader needs.

use std::ops::Range;
use vstd::prelude::*;

verus! {

/// Text of the command line, of a prompt, of a history item.
pub type WString = Vec<char>;

/// The two bounds of a range as integers.
pub open spec fn extent(r: Range<usize>) -> Range<int> {
    Range { start: r.start as int, end: r.end as int }
}

pub open spec fn opt_extent(r: Option<Range<usize>>) -> Option<Range<int>> {
    match r {
        Some(r) => Some(extent(r)),
        None => None,
    }
}

pub open spec fn opt_int(n: Option<usize>) -> Option<int> {
    match n {
        Some(n) => Some(n as int),
        None => None,
    }
}

/// The part of `s` that the range covers.
pub open spec fn part(s: Seq<char>, r: Range<int>) -> Seq<char> {
    s.subrange(r.start, r.end)
}

/// A range that lies inside a text of length `len`.
pub open spec fn inside(r: Range<int>, len: int) -> bool {
    0 <= r.start <= r.end <= len
}

/// `s` with the characters in `r` replaced by `with`.
pub open spec fn splice<T>(s: Seq<T>, r: Range<int>, with: Seq<T>) -> Seq<T> {
    s.subrange(0, r.start) + with + s.subrange(r.end, s.len() as int)
}

/// The character at an index, NUL at the end of the text.
pub open spec fn at(s: Seq<char>, i: int) -> char {
    if 0 <= i < s.len() {
        s[i]
    } else {
        '\0'
    }
}

/// Where the line that holds position `pos` begins: just behind the nearest newline before it.
pub open spec fn line_start(s: Seq<char>, pos: int) -> int
    decreases pos,
{
    if pos <= 0 {
        0
    } else if s[pos - 1] == '\n' {
        pos
    } else {
        line_start(s, pos - 1)
    }
}

/// Where the line that holds position `pos` ends: at the nearest newline at or behind it.
pub open spec fn line_end(s: Seq<char>, pos: int) -> int
    decreases s.len() - pos,
{
    if pos >= s.len() {
        s.len() as int
    } else if s[pos] == '\n' {
        pos
    } else {
        line_end(s, pos + 1)
    }
}

pub open spec fn line_range(s: Seq<char>, pos: int) -> Range<int> {
    Range { start: line_start(s, pos), end: line_end(s, pos) }
}

/// How many backslashes stand directly before `pos`.
pub open spec fn backslashes_before(s: Seq<char>, pos: int) -> nat
    decreases pos,
{
    if pos <= 0 || s[pos - 1] != '\\' {
        0
    } else {
        backslashes_before(s, pos - 1) + 1
    }
}

/// The texts of `parts`, one after the other.
pub open spec fn concat(parts: Seq<Seq<char>>) -> Seq<char>
    decreases parts.len(),
{
    if parts.len() == 0 {
        Seq::empty()
    } else {
        concat(parts.drop_last()) + parts.last()
    }
}

/// The texts of `parts` with `sep` between each two of them.
pub open spec fn joined(parts: Seq<Seq<char>>, sep: char) -> Seq<char>
    decreases parts.len(),
{
    if parts.len() == 0 {
        Seq::empty()
    } else if parts.len() == 1 {
        parts[0]
    } else {
        joined(parts.drop_last(), sep).push(sep) + parts.last()
    }
}

pub open spec fn texts(parts: Seq<WString>) -> Seq<Seq<char>> {
    parts.map_values(|p: WString| p@)
}

/// A line start is a position of the text, and no newline lies between it and `pos`.
pub proof fn lemma_line_start(s: Seq<char>, pos: int)
    requires
        0 <= pos <= s.len(),
    ensures
        0 <= line_start(s, pos) <= pos,
        line_start(s, pos) == 0 || s[line_start(s, pos) - 1] == '\n',
        forall|i: int| line_start(s, pos) <= i < pos ==> s[i] != '\n',
    decreases pos,
{
    if pos > 0 && s[pos - 1] != '\n' {
        lemma_line_start(s, pos - 1);
    }
}

/// A line end is a position of the text, and no newline lies between `pos` and it.
pub proof fn lemma_line_end(s: Seq<char>, pos: int)
    requires
        0 <= pos <= s.len(),
    ensures
        pos <= line_end(s, pos) <= s.len(),
        line_end(s, pos) == s.len() || s[line_end(s, pos)] == '\n',
        forall|i: int| pos <= i < line_end(s, pos) ==> s[i] != '\n',
    decreases s.len() - pos,
{
    if pos < s.len() && s[pos] != '\n' {
        lemma_line_end(s, pos + 1);
    }
}

/// The length of a text. What a text takes in bytes can be counted, hence it holds far fewer
/// characters than that.
pub(crate) fn text_len(s: &Vec<char>) -> (n: usize)
    ensures
        n == s@.len(),
        n <= isize::MAX,
{
    let chars: &[char] = s.as_slice();
    let size: usize = std::mem::size_of_val::<[char]>(chars);
    proof {
        broadcast use {
            vstd::layout::layout_of_primitives,
            vstd::layout::layout_of_slices,
        };

        assert(size == chars@.len() * vstd::layout::size_of::<char>());
        assert(size == chars@.len() * 4);
    }
    s.len()
}

pub fn copy_text(s: &[char]) -> (r: WString)
    ensures
        r@ == s@,
{
    let mut r: WString = Vec::new();
    r.extend_from_slice(s);
    assert(r@ =~= s@);
    r
}

pub fn subtext(s: &[char], from: usize, to: usize) -> (r: WString)
    requires
        from <= to <= s@.len(),
    ensures
        r@ == s@.subrange(from as int, to as int),
{
    copy_text(&s[from..to])
}

/// The text of a string.
pub fn wide(s: &str) -> (r: WString)
    ensures
        r@ == s@,
{
    let n: usize = s.unicode_len();
    let mut r: WString = Vec::new();
    let mut i: usize = 0;
    while i < n
        invariant
            n == s@.len(),
            i <= n,
            r@ == s@.subrange(0, i as int),
        decreases n - i,
    {
        r.push(s.get_char(i));
        i += 1;
    }
    assert(s@.subrange(0, n as int) =~= s@);
    r
}

pub fn text_eq(a: &[char], b: &[char]) -> (r: bool)
    ensures
        r == (a@ == b@),
{
    if a.len() != b.len() {
        return false;
    }
    let mut i: usize = 0;
    while i < a.len()
        invariant
            a@.len() == b@.len(),
            i <= a@.len(),
            forall|j: int| 0 <= j < i ==> a@[j] == b@[j],
        decreases a@.len() - i,
    {
        if a[i] != b[i] {
            return false;
        }
        i += 1;
    }
    assert(a@ =~= b@);
    true
}

pub fn push_text(s: &mut WString, more: &[char])
    ensures
        final(s)@ == old(s)@ + more@,
{
    s.extend_from_slice(more);
    assert(s@ =~= old(s)@ + more@);
}

/// `s` with the characters from `from` to `to` replaced by `with`.
pub fn spliced(s: &[char], from: usize, to: usize, with: &[char]) -> (r: WString)
    requires
        from <= to <= s@.len(),
    ensures
        r@ == splice(s@, Range { start: from as int, end: to as int }, with@),
{
    let mut r = subtext(s, 0, from);
    push_text(&mut r, with);
    push_text(&mut r, &s[to..s.len()]);
    r
}

pub fn char_at(s: &[char], i: usize) -> (c: char)
    requires
        i <= s@.len(),
    ensures
        c == at(s@, i as int),
{
    if i < s.len() {
        s[i]
    } else {
        '\0'
    }
}

pub fn contains_char(s: &[char], c: char) -> (r: bool)
    ensures
        r == s@.contains(c),
{
    let mut i: usize = 0;
    while i < s.len()
        invariant
            i <= s@.len(),
            forall|j: int| 0 <= j < i ==> s@[j] != c,
        decreases s@.len() - i,
    {
        if s[i] == c {
            return true;
        }
        i += 1;
    }
    false
}

/// The range of the line on which the cursor stands, without its newline.
pub fn range_of_line_at_cursor(text: &[char], cursor: usize) -> (r: Range<usize>)
    requires
        cursor <= text@.len(),
    ensures
        extent(r) == line_range(text@, cursor as int),
        inside(extent(r), text@.len() as int),
        r.start <= cursor <= r.end,
{
    proof {
        lemma_line_start(text@, cursor as int);
        lemma_line_end(text@, cursor as int);
    }
    let mut start: usize = cursor;
    while start > 0 && text[start - 1] != '\n'
        invariant
            start <= cursor <= text@.len(),
            line_start(text@, start as int) == line_start(text@, cursor as int),
        decreases start,
    {
        start -= 1;
    }
    let mut end: usize = cursor;
    while end < text.len() && text[end] != '\n'
        invariant
            cursor <= end <= text@.len(),
            line_end(text@, end as int) == line_end(text@, cursor as int),
        decreases text@.len() - end,
    {
        end += 1;
    }
    start..end
}

/// The line on which the cursor stands, without its newline.
pub fn line_at_cursor(text: &[char], cursor: usize) -> (r: WString)
    requires
        cursor <= text@.len(),
    ensures
        r@ == part(text@, line_range(text@, cursor as int)),
{
    let range = range_of_line_at_cursor(text, cursor);
    subtext(text, range.start, range.end)
}

/// Replace the line on which the cursor stands. The cursor moves to the end of the replacement.
pub fn replace_line_at_cursor(
    text: &[char],
    inout_cursor_pos: &mut usize,
    replacement: &[char],
) -> (r: WString)
    requires
        *old(inout_cursor_pos) <= text@.len(),
    ensures
        r@ == splice(text@, line_range(text@, *old(inout_cursor_pos) as int), replacement@),
        *final(inout_cursor_pos) == line_start(text@, *old(inout_cursor_pos) as int)
            + replacement@.len(),
        *final(inout_cursor_pos) <= r@.len(),
{
    let range = range_of_line_at_cursor(text, *inout_cursor_pos);
    let r = spliced(text, range.start, range.end, replacement);
    let bound: usize = r.len();
    assert(range.start + replacement@.len() <= bound);
    *inout_cursor_pos = range.start + replacement.len();
    r
}

pub fn count_preceding_backslashes(s: &[char], pos: usize) -> (n: usize)
    requires
        pos <= s@.len(),
    ensures
        n == backslashes_before(s@, pos as int),
{
    let mut i: usize = pos;
    while i > 0 && s[i - 1] == '\\'
        invariant
            i <= pos <= s@.len(),
            backslashes_before(s@, pos as int) == backslashes_before(s@, i as int) + (pos - i),
        decreases i,
    {
        i -= 1;
    }
    pos - i
}

pub open spec fn backslashed(s: Seq<char>, pos: int) -> bool {
    pos <= s.len() && backslashes_before(s, pos) % 2 == 1
}

/// Test if the specified character in the specified string is backslashed. `pos` may be at the
/// end of the string, which indicates if there is a trailing backslash.
pub fn is_backslashed(s: &[char], pos: usize) -> (r: bool)
    ensures
        r == backslashed(s@, pos as int),
{
    // Note that a position at the end of the string is fine.
    if pos > s.len() {
        return false;
    }
    let count = count_preceding_backslashes(s, pos);
    count % 2 == 1
}

pub open spec fn quote_at(s: Seq<char>, pos: int) -> Option<char> {
    if 0 <= pos < s.len() && (s[pos] == '\'' || s[pos] == '"') && !backslashed(s, pos) {
        Some(s[pos])
    } else {
        None
    }
}

/// The quote character at `pos`, unless a backslash takes its meaning away.
pub fn unescaped_quote(s: &[char], pos: usize) -> (r: Option<char>)
    ensures
        r == quote_at(s@, pos as int),
{
    let mut result = None;
    if pos < s.len() {
        let c = s[pos];
        if (c == '\'' || c == '"') && !is_backslashed(s, pos) {
            result = Some(c);
        }
    }
    result
}

/// The strings one after the other.
pub fn concat_strings(parts: &Vec<WString>) -> (r: WString)
    ensures
        r@ == concat(texts(parts@)),
{
    let mut r: WString = Vec::new();
    let mut i: usize = 0;
    while i < parts.len()
        invariant
            i <= parts@.len(),
            r@ == concat(texts(parts@).take(i as int)),
        decreases parts@.len() - i,
    {
        push_text(&mut r, &parts[i]);
        i += 1;
        assert(texts(parts@).take(i as int).drop_last() =~= texts(parts@).take(i - 1));
    }
    assert(texts(parts@).take(i as int) =~= texts(parts@));
    r
}

/// The strings with `sep` between each two of them.
pub fn join_strings(parts: &Vec<WString>, sep: char) -> (r: WString)
    ensures
        r@ == joined(texts(parts@), sep),
{
    let mut r: WString = Vec::new();
    let mut i: usize = 0;
    while i < parts.len()
        invariant
            i <= parts@.len(),
            r@ == joined(texts(parts@).take(i as int), sep),
        decreases parts@.len() - i,
    {
        if i != 0 {
            r.push(sep);
        }
        push_text(&mut r, &parts[i]);
        i += 1;
        assert(texts(parts@).take(i as int).drop_last() =~= texts(parts@).take(i - 1));
        assert(i == 1 ==> r@ =~= parts@[0]@);
    }
    assert(texts(parts@).take(i as int) =~= texts(parts@));
    r
}

} // verus!
