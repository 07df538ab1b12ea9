//! Text helpers: comparison, decimal rendering, line splitting and joining.

use vstd::prelude::*;
use vstd::string::*;
use vstd::utf8::*;

verus! {

/// `core::str::Utf8Error`, the error of `from_utf8`; nothing is read from
/// it.
#[verifier::external_type_specification]
#[verifier::external_body]
pub struct ExUtf8Error(core::str::Utf8Error);

/// `core::str::from_utf8` succeeds exactly on bytes that are valid UTF-8,
/// and then gives the text that they encode.
pub assume_specification[ core::str::from_utf8 ](v: &[u8]) -> (text: Result<
    &str,
    core::str::Utf8Error,
>)
    ensures
        text is Ok <==> valid_utf8(v@),
        text matches Ok(s) ==> s@ == decode_utf8(v@),
;

/// Whether two string slices hold the same characters.
pub fn str_eq(a: &str, b: &str) -> (same: bool)
    ensures
        same == (a@ == b@),
{
    let x = a.as_bytes();
    let y = b.as_bytes();
    proof {
        encode_utf8_decode_utf8(a@);
        encode_utf8_decode_utf8(b@);
    }
    if x.len() != y.len() {
        return false;
    }
    let mut i: usize = 0;
    while i < x.len()
        invariant
            i <= x.len(),
            x.len() == y.len(),
            x@ == a.spec_bytes(),
            y@ == b.spec_bytes(),
            forall|k: int| 0 <= k < i ==> x@[k] == y@[k],
        decreases x.len() - i,
    {
        if x[i] != y[i] {
            return false;
        }
        i += 1;
    }
    assert(x@ =~= y@);
    true
}

/// The characters of `text`, one by one.
pub fn chars_of(text: &str) -> (chars: Vec<char>)
    ensures
        chars@ == text@,
{
    let mut chars: Vec<char> = Vec::new();
    for c in it: text.chars()
        invariant
            it.seq() == text@,
            chars@ == text@.take(it.index() as int),
    {
        chars.push(c);
    }
    chars
}

/// Where the first line of `text` ends: the place of its first line feed,
/// or the length of `text` where it has none.
pub open spec fn line_end(text: Seq<char>) -> int
    decreases text.len(),
{
    if text.len() == 0 || text[0] == '\n' {
        0
    } else {
        1 + line_end(text.drop_first())
    }
}

/// A line as it stood before its line feed, without the carriage return
/// that may come just before one.
pub open spec fn without_return(line: Seq<char>) -> Seq<char> {
    if line.len() > 0 && line.last() == '\r' {
        line.drop_last()
    } else {
        line
    }
}

/// The lines of `text`. A line ends at a line feed, or at a carriage return
/// followed by one; neither belongs to the line. The last line needs no
/// line feed, and empty text has no lines.
pub open spec fn lines_of(text: Seq<char>) -> Seq<Seq<char>>
    decreases text.len(),
{
    let end = line_end(text);
    if text.len() == 0 {
        Seq::empty()
    } else if 0 <= end < text.len() {
        seq![without_return(text.take(end))] + lines_of(text.skip(end + 1))
    } else {
        seq![text]
    }
}

/// The lines put together again, with one line feed between neighbours.
pub open spec fn join_lines(lines: Seq<Seq<char>>) -> Seq<char>
    decreases lines.len(),
{
    if lines.len() == 0 {
        Seq::empty()
    } else if lines.len() == 1 {
        lines[0]
    } else {
        lines[0] + seq!['\n'] + join_lines(lines.drop_first())
    }
}

/// Whether lines can be told apart again once they are joined: there is
/// one at least, none holds a line feed, none but the last ends in a
/// carriage return, and the last is not empty.
pub open spec fn separable(lines: Seq<Seq<char>>) -> bool {
    &&& lines.len() > 0
    &&& forall|i: int| 0 <= i < lines.len() ==> !(#[trigger] lines[i]).contains('\n')
    &&& forall|i: int|
        0 <= i < lines.len() - 1 ==> without_return(#[trigger] lines[i]) == lines[i]
    &&& lines.last().len() > 0
}

/// The first line feed of a text is found by looking at its characters in
/// turn.
pub proof fn lemma_line_end(text: Seq<char>, end: int)
    requires
        0 <= end <= text.len(),
        forall|k: int| 0 <= k < end ==> text[k] != '\n',
        end < text.len() ==> text[end] == '\n',
    ensures
        line_end(text) == end,
    decreases end,
{
    if end > 0 {
        lemma_line_end(text.drop_first(), end - 1);
    }
}

/// Splits `text` into its lines.
pub fn split_lines(text: &str) -> (lines: Vec<String>)
    ensures
        lines.deep_view() == lines_of(text@),
{
    let chars = chars_of(text);
    let ghost all = text@;
    let mut lines: Vec<String> = Vec::new();
    let mut start: usize = 0;
    let mut i: usize = 0;
    assert(all.skip(0) == all);
    while i < chars.len()
        invariant
            chars@ == all,
            all == text@,
            start <= i <= chars.len(),
            forall|k: int| start <= k < i ==> all[k] != '\n',
            lines_of(all) == lines.deep_view() + lines_of(all.skip(start as int)),
        decreases chars.len() - i,
    {
        if chars[i] == '\n' {
            let end = if start < i && chars[i - 1] == '\r' {
                i - 1
            } else {
                i
            };
            let line = text.substring_char(start, end).to_owned();
            proof {
                let rest = all.skip(start as int);
                lemma_line_end(rest, i - start);
                assert(rest.take(i - start) == all.subrange(start as int, i as int));
                assert(without_return(all.subrange(start as int, i as int)) == all.subrange(
                    start as int,
                    end as int,
                ));
                assert(rest.skip(i - start + 1) == all.skip(i + 1));
            }
            lines.push(line);
            start = i + 1;
        }
        i += 1;
    }
    proof {
        let rest = all.skip(start as int);
        lemma_line_end(rest, rest.len() as int);
    }
    if start < chars.len() {
        let line = text.substring_char(start, chars.len()).to_owned();
        lines.push(line);
    }
    lines
}

/// Joining one more line puts a line feed and the line behind what was
/// joined before.
pub proof fn lemma_join_lines_push(lines: Seq<Seq<char>>, line: Seq<char>)
    ensures
        join_lines(lines.push(line)) == if lines.len() == 0 {
            line
        } else {
            join_lines(lines) + seq!['\n'] + line
        },
    decreases lines.len(),
{
    if lines.len() > 0 {
        assert(lines.push(line).drop_first() == lines.drop_first().push(line));
        lemma_join_lines_push(lines.drop_first(), line);
    }
}

/// Lines that can be told apart come back from their joined text as they
/// were, whether or not one more line feed ends the text.
pub proof fn lemma_lines_of_joined(lines: Seq<Seq<char>>)
    requires
        separable(lines),
    ensures
        lines_of(join_lines(lines)) == lines,
        without_return(lines.last()) == lines.last() ==> lines_of(
            join_lines(lines) + seq!['\n'],
        ) == lines,
    decreases lines.len(),
{
    let first = lines[0];
    let text = join_lines(lines);
    let ended = text + seq!['\n'];
    assert(!first.contains('\n'));
    if lines.len() == 1 {
        lemma_line_end(text, text.len() as int);
        lemma_line_end(ended, text.len() as int);
        assert(ended.take(text.len() as int) == text);
        assert(ended.skip(text.len() as int + 1) == Seq::<char>::empty());
        assert(lines_of(Seq::<char>::empty()) == Seq::<Seq<char>>::empty());
    } else {
        let rest = lines.drop_first();
        assert(separable(rest)) by {
            assert(forall|i: int| 0 <= i < rest.len() ==> #[trigger] rest[i] == lines[i + 1]);
        }
        lemma_lines_of_joined(rest);
        let tail = join_lines(rest);
        lemma_line_end(text, first.len() as int);
        lemma_line_end(ended, first.len() as int);
        assert(text.take(first.len() as int) == first);
        assert(ended.take(first.len() as int) == first);
        assert(text.skip(first.len() as int + 1) == tail);
        assert(ended.skip(first.len() as int + 1) == tail + seq!['\n']);
    }
}

/// Joins `lines` with one line feed between neighbours.
pub fn join(lines: &Vec<String>) -> (text: String)
    ensures
        text@ == join_lines(lines.deep_view()),
{
    let ghost all = lines.deep_view();
    let mut text = String::new();
    let mut i: usize = 0;
    while i < lines.len()
        invariant
            i <= lines.len(),
            all == lines.deep_view(),
            text@ == join_lines(all.take(i as int)),
        decreases lines.len() - i,
    {
        if i > 0 {
            text.append("\n");
        }
        text.append(lines[i].as_str());
        proof {
            reveal_strlit("\n");
            assert(all.take(i + 1) == all.take(i as int).push(lines[i as int]@));
            lemma_join_lines_push(all.take(i as int), lines[i as int]@);
        }
        i += 1;
    }
    assert(all.take(all.len() as int) == all);
    text
}

/// The character that stands for a number below ten.
pub open spec fn digit(value: int) -> char {
    if value == 0 {
        '0'
    } else if value == 1 {
        '1'
    } else if value == 2 {
        '2'
    } else if value == 3 {
        '3'
    } else if value == 4 {
        '4'
    } else if value == 5 {
        '5'
    } else if value == 6 {
        '6'
    } else if value == 7 {
        '7'
    } else if value == 8 {
        '8'
    } else {
        '9'
    }
}

/// A number written in base ten, without leading zeros.
pub open spec fn decimal(value: nat) -> Seq<char>
    decreases value,
{
    if value < 10 {
        seq![digit(value as int)]
    } else {
        decimal(value / 10).push(digit((value % 10) as int))
    }
}

fn digit_text(value: usize) -> (text: &'static str)
    requires
        value < 10,
    ensures
        text@ == seq![digit(value as int)],
{
    proof {
        reveal_strlit("0");
        reveal_strlit("1");
        reveal_strlit("2");
        reveal_strlit("3");
        reveal_strlit("4");
        reveal_strlit("5");
        reveal_strlit("6");
        reveal_strlit("7");
        reveal_strlit("8");
        reveal_strlit("9");
    }
    if value == 0 {
        "0"
    } else if value == 1 {
        "1"
    } else if value == 2 {
        "2"
    } else if value == 3 {
        "3"
    } else if value == 4 {
        "4"
    } else if value == 5 {
        "5"
    } else if value == 6 {
        "6"
    } else if value == 7 {
        "7"
    } else if value == 8 {
        "8"
    } else {
        "9"
    }
}

/// Writes `value` in base ten.
pub fn to_decimal(value: usize) -> (text: String)
    ensures
        text@ == decimal(value as nat),
    decreases value,
{
    if value < 10 {
        digit_text(value).to_owned()
    } else {
        let mut text = to_decimal(value / 10);
        text.append(digit_text(value % 10));
        text
    }
}

} // verus!
