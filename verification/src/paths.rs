//! The names of the files that the tool writes.
//!
//! A capture is saved as `<directory>/<timestamp>.png`. Each crop taken from
//! it is saved beside it, under the capture's name without its extension,
//! followed by `-cropped_at-<timestamp>.png`.

use vstd::prelude::*;

verus! {

/// The index of the last `c` in `s`, or -1 if `s` holds none.
pub open spec fn last_index_of(s: Seq<char>, c: char) -> int
    decreases s.len(),
{
    if s.len() == 0 {
        -1
    } else if s.last() == c {
        s.len() - 1
    } else {
        last_index_of(s.drop_last(), c)
    }
}

/// What stands before the last `c` in `s`; nothing if `s` holds no `c`.
pub open spec fn before_last(s: Seq<char>, c: char) -> Seq<char> {
    let i = last_index_of(s, c);
    if i < 0 {
        Seq::empty()
    } else {
        s.subrange(0, i)
    }
}

/// What stands after the last `c` in `s`; all of `s` if it holds no `c`.
pub open spec fn after_last(s: Seq<char>, c: char) -> Seq<char> {
    let i = last_index_of(s, c);
    if i < 0 {
        s
    } else {
        s.subrange(i + 1, s.len() as int)
    }
}

/// The name under which a crop of the capture saved at `capture` is saved
/// at the time `timestamp`.
pub open spec fn crop_path_of(capture: Seq<char>, timestamp: Seq<char>) -> Seq<char> {
    before_last(capture, '.') + "-cropped_at-"@ + timestamp + ".png"@
}

/// The name under which a capture taken at the time `timestamp` is saved in
/// `directory`.
pub open spec fn capture_path_of(directory: Seq<char>, timestamp: Seq<char>) -> Seq<char> {
    directory + "/"@ + timestamp + ".png"@
}

/// `last_index_of` finds the one position that holds `c` with no `c` after
/// it.
pub proof fn lemma_last_index_of(s: Seq<char>, c: char)
    ensures
        -1 <= last_index_of(s, c) < s.len(),
        last_index_of(s, c) >= 0 ==> s[last_index_of(s, c)] == c,
        forall|j: int| last_index_of(s, c) < j < s.len() ==> s[j] != c,
    decreases s.len(),
{
    if s.len() > 0 && s.last() != c {
        let head = s.drop_last();
        lemma_last_index_of(head, c);
        assert forall|j: int| last_index_of(s, c) < j < s.len() implies s[j] != c by {
            if j < head.len() {
                assert(head[j] == s[j]);
            }
        }
    }
}

/// Splitting at the last `c` loses nothing: where `s` holds a `c`, it is
/// the part before the last one, that `c`, and the part after it. The part
/// after it never holds a `c`.
pub proof fn lemma_split_parts(s: Seq<char>, c: char)
    ensures
        s.contains(c) ==> s == before_last(s, c) + seq![c] + after_last(s, c),
        !s.contains(c) ==> before_last(s, c) == Seq::<char>::empty() && after_last(s, c) == s,
        !after_last(s, c).contains(c),
{
    lemma_last_index_of(s, c);
    let i = last_index_of(s, c);
    if i >= 0 {
        assert(s =~= before_last(s, c) + seq![c] + after_last(s, c));
    }
}

/// Splits `input` at the last `delimiter`: returns what stands before it
/// and what stands after it. An input without the delimiter comes back
/// whole as the second part, with an empty first part.
pub fn reverse_split(input: &str, delimiter: char) -> (parts: (&str, &str))
    ensures
        parts.0@ == before_last(input@, delimiter),
        parts.1@ == after_last(input@, delimiter),
{
    let n: usize = input.unicode_len();
    let mut i: usize = n;
    assert(input@.subrange(0, n as int) =~= input@);
    while i > 0
        invariant
            i <= n,
            n == input@.len(),
            last_index_of(input@, delimiter) == last_index_of(input@.subrange(0, i as int), delimiter),
        decreases i,
    {
        if input.get_char(i - 1) == delimiter {
            return (input.substring_char(0, i - 1), input.substring_char(i, n));
        }
        assert(input@.subrange(0, i as int).drop_last() =~= input@.subrange(0, i - 1));
        i -= 1;
    }
    (input.substring_char(0, 0), input)
}

/// The name of the file that holds a crop of the capture saved at
/// `capture`, taken at the time `timestamp`: the capture's name up to its
/// last `.`, then `-cropped_at-`, the time, and `.png`.
pub fn crop_path(capture: &str, timestamp: &str) -> (path: String)
    ensures
        path@ == crop_path_of(capture@, timestamp@),
{
    let (stem, _) = reverse_split(capture, '.');
    let mut path = String::from_str(stem);
    path.append("-cropped_at-");
    path.append(timestamp);
    path.append(".png");
    path
}

/// The name of the file that holds a capture taken at the time `timestamp`,
/// in `directory`.
pub fn capture_path(directory: &str, timestamp: &str) -> (path: String)
    ensures
        path@ == capture_path_of(directory@, timestamp@),
{
    let mut path = String::from_str(directory);
    path.append("/");
    path.append(timestamp);
    path.append(".png");
    path
}

/// The local time now, to the second, in the form `2024-05-01_14:22:07`:
/// what `chrono::Local::now` returns, formatted with `%F_%T`.
///
/// Trusted, and nothing is claimed of the text: it depends on the clock.
/// chrono does not return if the clock stands before the year 1970.
#[verifier::external_body]
pub(crate) fn get_datetime() -> (stamp: String) {
    chrono::offset::Local::now().format("%F_%T").to_string()
}

/// The name for a crop taken now from the capture saved at `capture`.
pub fn crop_path_now(capture: &str) -> (path: String)
    ensures
        exists|timestamp: Seq<char>| path@ == #[trigger] crop_path_of(capture@, timestamp),
{
    let stamp = get_datetime();
    crop_path(capture, stamp.as_str())
}

} // verus!
