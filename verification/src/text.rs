//! Operations on text, stated over sequences of characters.
//!
//! Every executable function here takes and returns ordinary strings; its
//! contract speaks of their views, which are sequences of `char`.

use vstd::prelude::*;
use vstd::string::StringExecFns;

verus! {

/// `pat` stands in `s` at position `i`.
pub open spec fn occurs_at(s: Seq<char>, pat: Seq<char>, i: int) -> bool {
    0 <= i && i + pat.len() <= s.len() && s.subrange(i, i + pat.len()) == pat
}

/// `pat` stands somewhere in `s`.
pub open spec fn has_substring(s: Seq<char>, pat: Seq<char>) -> bool {
    exists|i: int| occurs_at(s, pat, i)
}

/// `s` begins with `pat`.
pub open spec fn has_prefix(s: Seq<char>, pat: Seq<char>) -> bool {
    occurs_at(s, pat, 0)
}

/// `s` ends with `pat`.
pub open spec fn has_suffix(s: Seq<char>, pat: Seq<char>) -> bool {
    occurs_at(s, pat, s.len() - pat.len())
}

/// The pieces of `s` between occurrences of `sep`. There is always at least
/// one piece; `n` separators give `n + 1` pieces, some of them possibly empty.
pub open spec fn split_on(s: Seq<char>, sep: char) -> Seq<Seq<char>>
    decreases s.len(),
{
    if s.len() == 0 {
        seq![Seq::<char>::empty()]
    } else {
        let before = split_on(s.drop_last(), sep);
        if s.last() == sep {
            before.push(Seq::<char>::empty())
        } else {
            before.drop_last().push(before.last().push(s.last()))
        }
    }
}

/// `s` with every occurrence of the character `from` replaced by `to`.
pub open spec fn replace_char(s: Seq<char>, from: char, to: Seq<char>) -> Seq<char>
    decreases s.len(),
{
    if s.len() == 0 {
        Seq::<char>::empty()
    } else if s.last() == from {
        replace_char(s.drop_last(), from, to) + to
    } else {
        replace_char(s.drop_last(), from, to).push(s.last())
    }
}

/// The parts written one after another with `sep` between neighbours.
pub open spec fn join(parts: Seq<Seq<char>>, sep: Seq<char>) -> Seq<char>
    decreases parts.len(),
{
    if parts.len() == 0 {
        Seq::<char>::empty()
    } else if parts.len() == 1 {
        parts[0]
    } else {
        join(parts.drop_last(), sep) + sep + parts.last()
    }
}

/// The first `n` characters of `s`, or all of `s` if it is shorter.
pub open spec fn prefix_of(s: Seq<char>, n: nat) -> Seq<char> {
    if s.len() <= n {
        s
    } else {
        s.take(n as int)
    }
}

/// `s` without the occurrences of `c` at its end.
pub open spec fn without_trailing(s: Seq<char>, c: char) -> Seq<char>
    decreases s.len(),
{
    if s.len() > 0 && s.last() == c {
        without_trailing(s.drop_last(), c)
    } else {
        s
    }
}

/// `s` without the occurrences of `c` at its beginning.
pub open spec fn without_leading(s: Seq<char>, c: char) -> Seq<char>
    decreases s.len(),
{
    if s.len() > 0 && s[0] == c {
        without_leading(s.drop_first(), c)
    } else {
        s
    }
}

/// `s` without the occurrences of `c` at its beginning and at its end.
pub open spec fn trimmed_of(s: Seq<char>, c: char) -> Seq<char> {
    without_leading(without_trailing(s, c), c)
}

/// `s` without the white space at its end.
pub open spec fn without_trailing_space(s: Seq<char>) -> Seq<char>
    decreases s.len(),
{
    if s.len() > 0 && is_space(s.last()) {
        without_trailing_space(s.drop_last())
    } else {
        s
    }
}

/// `s` without the white space at its beginning.
pub open spec fn without_leading_space(s: Seq<char>) -> Seq<char>
    decreases s.len(),
{
    if s.len() > 0 && is_space(s[0]) {
        without_leading_space(s.drop_first())
    } else {
        s
    }
}

/// `s` without the white space at its beginning and at its end.
pub open spec fn trimmed(s: Seq<char>) -> Seq<char> {
    without_leading_space(without_trailing_space(s))
}

/// A piece of text that a line feed ended, without the carriage return
/// that may stand before the line feed.
pub open spec fn without_return(piece: Seq<char>) -> Seq<char> {
    if piece.len() > 0 && piece.last() == '\r' {
        piece.drop_last()
    } else {
        piece
    }
}

/// The lines of `s`: what stands between line feeds, each without the
/// carriage return before its line feed. What follows the last line feed is
/// a line only if it is not empty.
pub open spec fn lines_of(s: Seq<char>) -> Seq<Seq<char>> {
    let pieces = split_on(s, '\n');
    let ended = Seq::new((pieces.len() - 1) as nat, |i: int| without_return(pieces[i]));
    if pieces.last().len() > 0 {
        ended.push(pieces.last())
    } else {
        ended
    }
}

/// What `str::to_lowercase` makes of a text.
pub uninterp spec fn lowercase(s: Seq<char>) -> Seq<char>;

/// Whether a character is white space: one of the 25 characters with the
/// Unicode property `White_Space`.
pub open spec fn is_space(c: char) -> bool {
    let n = c as u32;
    (0x09 <= n && n <= 0x0D) || n == 0x20 || n == 0x85 || n == 0xA0 || n == 0x1680 || (0x2000 <= n
        && n <= 0x200A) || n == 0x2028 || n == 0x2029 || n == 0x202F || n == 0x205F || n
        == 0x3000
}

/// The pieces of `s` between white-space characters, empty pieces included.
pub open spec fn split_spaces(s: Seq<char>) -> Seq<Seq<char>>
    decreases s.len(),
{
    if s.len() == 0 {
        seq![Seq::<char>::empty()]
    } else {
        let before = split_spaces(s.drop_last());
        if is_space(s.last()) {
            before.push(Seq::<char>::empty())
        } else {
            before.drop_last().push(before.last().push(s.last()))
        }
    }
}

/// The parts that are not empty, in their order.
pub open spec fn nonempty_parts(parts: Seq<Seq<char>>) -> Seq<Seq<char>>
    decreases parts.len(),
{
    if parts.len() == 0 {
        parts
    } else if parts.last().len() > 0 {
        nonempty_parts(parts.drop_last()).push(parts.last())
    } else {
        nonempty_parts(parts.drop_last())
    }
}

/// The words of `s`: its maximal runs of characters that are not white space.
pub open spec fn words(s: Seq<char>) -> Seq<Seq<char>> {
    nonempty_parts(split_spaces(s))
}

/// `str::to_lowercase`, which gives the lower-case equivalent of a text as
/// Unicode defines it. The contract only names the result: it is a function
/// of the argument alone.
#[verifier::external_body]
pub(crate) fn to_lowercase(s: &str) -> (r: String)
    ensures
        r@ == lowercase(s@),
{
    s.to_lowercase()
}

/// Whether a character is white space, as `char::is_whitespace` tells it.
pub fn is_whitespace(c: char) -> (r: bool)
    ensures
        r == is_space(c),
{
    let n: u32 = c as u32;
    (0x09 <= n && n <= 0x0D) || n == 0x20 || n == 0x85 || n == 0xA0 || n == 0x1680 || (0x2000 <= n
        && n <= 0x200A) || n == 0x2028 || n == 0x2029 || n == 0x202F || n == 0x205F || n
        == 0x3000
}

/// Splitting always gives at least one piece.
pub proof fn lemma_split_has_piece(s: Seq<char>, sep: char)
    ensures
        split_on(s, sep).len() >= 1,
    decreases s.len(),
{
    if s.len() > 0 {
        lemma_split_has_piece(s.drop_last(), sep);
    }
}

/// The pieces of a text, joined by the separator again, are the text.
pub proof fn lemma_join_of_split(s: Seq<char>, sep: char)
    ensures
        join(split_on(s, sep), seq![sep]) == s,
    decreases s.len(),
{
    if s.len() > 0 {
        let front = s.drop_last();
        let before = split_on(front, sep);
        lemma_join_of_split(front, sep);
        lemma_split_has_piece(front, sep);
        let pieces = split_on(s, sep);
        if s.last() == sep {
            assert(pieces.drop_last() =~= before);
            assert(join(pieces, seq![sep]) =~= front + seq![sep] + Seq::<char>::empty());
            assert(front + seq![sep] + Seq::<char>::empty() =~= s);
        } else {
            let grown = before.last().push(s.last());
            if before.len() == 1 {
                assert(pieces =~= seq![grown]);
                assert(before[0] == front);
                assert(grown =~= s);
            } else {
                assert(pieces.drop_last() =~= before.drop_last());
                assert(join(pieces, seq![sep]) =~= (join(before.drop_last(), seq![sep]) + seq![
                    sep,
                ] + before.last()).push(s.last()));
                assert(front.push(s.last()) =~= s);
            }
        }
    } else {
        assert(split_on(s, sep)[0] =~= s);
    }
}

/// No piece of a text holds the separator.
pub proof fn lemma_pieces_hold_no_separator(s: Seq<char>, sep: char)
    ensures
        forall|i: int, j: int|
            0 <= i < split_on(s, sep).len() && 0 <= j < split_on(s, sep)[i].len() ==> split_on(
                s,
                sep,
            )[i][j] != sep,
    decreases s.len(),
{
    if s.len() > 0 {
        lemma_pieces_hold_no_separator(s.drop_last(), sep);
        lemma_split_has_piece(s.drop_last(), sep);
    }
}

/// The characters of `s`, in order.
pub fn chars_of(s: &str) -> (v: Vec<char>)
    ensures
        v@ == s@,
{
    let mut v: Vec<char> = Vec::new();
    for c in it: s.chars()
        invariant
            it.seq() == s@,
            v@ == s@.take(it.index() as int),
    {
        v.push(c);
    }
    v
}

/// Whether two strings hold the same characters.
pub fn same_text(a: &str, b: &str) -> (r: bool)
    ensures
        r == (a@ == b@),
{
    let x = chars_of(a);
    let y = chars_of(b);
    if x.len() != y.len() {
        return false;
    }
    let mut i: usize = 0;
    while i < x.len()
        invariant
            i <= x.len(),
            x.len() == y.len(),
            x@ == a@,
            y@ == b@,
            forall|k: int| 0 <= k < i ==> x@[k] == y@[k],
        decreases x.len() - i,
    {
        if x[i] != y[i] {
            return false;
        }
        i += 1;
    }
    assert(x@ =~= y@);
    true
}

fn matches_at(s: &Vec<char>, pat: &Vec<char>, i: usize) -> (r: bool)
    requires
        i + pat.len() <= s.len(),
    ensures
        r == occurs_at(s@, pat@, i as int),
{
    let mut j: usize = 0;
    while j < pat.len()
        invariant
            j <= pat.len(),
            i + pat.len() <= s.len(),
            forall|k: int| 0 <= k < j ==> s@[i + k] == pat@[k],
        decreases pat.len() - j,
    {
        if s[i + j] != pat[j] {
            assert(s@.subrange(i as int, i + pat.len())[j as int] == s@[i + j]);
            return false;
        }
        j += 1;
    }
    assert(s@.subrange(i as int, i + pat.len()) =~= pat@);
    true
}

/// The first position at which `pat` stands in `s`, if there is one.
pub fn find_chars(s: &Vec<char>, pat: &Vec<char>) -> (r: Option<usize>)
    ensures
        match r {
            Some(i) => occurs_at(s@, pat@, i as int) && forall|k: int|
                0 <= k < i ==> !occurs_at(s@, pat@, k),
            None => !has_substring(s@, pat@),
        },
{
    if pat.len() > s.len() {
        return None;
    }
    let last: usize = s.len() - pat.len();
    let mut i: usize = 0;
    loop
        invariant
            i <= last,
            last == s.len() - pat.len(),
            pat.len() <= s.len(),
            forall|k: int| 0 <= k < i ==> !occurs_at(s@, pat@, k),
        decreases last - i,
    {
        if matches_at(s, pat, i) {
            return Some(i);
        }
        if i == last {
            return None;
        }
        i += 1;
    }
}

/// Whether `pat` stands somewhere in `s`. The empty pattern stands in every
/// string.
pub fn contains(s: &str, pat: &str) -> (r: bool)
    ensures
        r == has_substring(s@, pat@),
{
    let x = chars_of(s);
    let y = chars_of(pat);
    find_chars(&x, &y).is_some()
}

/// Whether `s` begins with `pat`.
pub fn starts_with(s: &str, pat: &str) -> (r: bool)
    ensures
        r == has_prefix(s@, pat@),
{
    let x = chars_of(s);
    let y = chars_of(pat);
    if y.len() > x.len() {
        return false;
    }
    matches_at(&x, &y, 0)
}

/// Whether `s` ends with `pat`.
pub fn ends_with(s: &str, pat: &str) -> (r: bool)
    ensures
        r == has_suffix(s@, pat@),
{
    let x = chars_of(s);
    let y = chars_of(pat);
    if y.len() > x.len() {
        return false;
    }
    matches_at(&x, &y, x.len() - y.len())
}

/// The first `n` characters of `s`, or all of `s` if it is shorter.
pub fn take_chars(s: &str, n: usize) -> (r: String)
    ensures
        r@ == prefix_of(s@, n as nat),
{
    let len: usize = s.unicode_len();
    if len <= n {
        String::from_str(s)
    } else {
        String::from_str(s.substring_char(0, n))
    }
}

/// The pieces of `s` between occurrences of `sep`, as `str::split` gives them.
pub fn split(s: &str, sep: char) -> (out: Vec<String>)
    ensures
        out.deep_view() == split_on(s@, sep),
        out@.len() >= 1,
{
    let x = chars_of(s);
    let mut out: Vec<String> = Vec::new();
    let mut start: usize = 0;
    let mut i: usize = 0;
    assert(out.deep_view().push(x@.subrange(0, 0)) =~= split_on(x@.take(0), sep)) by {
        assert(x@.subrange(0, 0) =~= Seq::<char>::empty());
        assert(x@.take(0) =~= Seq::<char>::empty());
        assert(out.deep_view() =~= Seq::<Seq<char>>::empty());
    }
    while i < x.len()
        invariant
            start <= i <= x.len(),
            x@ == s@,
            out.deep_view().push(x@.subrange(start as int, i as int)) == split_on(
                x@.take(i as int),
                sep,
            ),
        decreases x.len() - i,
    {
        let ghost before = split_on(x@.take(i as int), sep);
        assert(x@.take(i + 1).drop_last() =~= x@.take(i as int));
        if x[i] == sep {
            let piece = String::from_str(s.substring_char(start, i));
            let ghost old_out = out.deep_view();
            out.push(piece);
            assert(out.deep_view() =~= old_out.push(piece@));
            start = i + 1;
            assert(x@.subrange(start as int, start as int) =~= Seq::<char>::empty());
        } else {
            assert(before.drop_last() =~= out.deep_view());
            assert(x@.subrange(start as int, i + 1) =~= before.last().push(x@[i as int]));
        }
        i += 1;
    }
    assert(x@.take(i as int) =~= s@);
    let piece = String::from_str(s.substring_char(start, i));
    let ghost old_out = out.deep_view();
    out.push(piece);
    assert(out.deep_view() =~= old_out.push(piece@));
    out
}

/// `s` with every occurrence of the character `from` replaced by `to`.
pub fn replace(s: &str, from: char, to: &str) -> (out: String)
    ensures
        out@ == replace_char(s@, from, to@),
{
    let x = chars_of(s);
    let mut out = String::new();
    let mut i: usize = 0;
    while i < x.len()
        invariant
            i <= x.len(),
            x@ == s@,
            out@ == replace_char(x@.take(i as int), from, to@),
        decreases x.len() - i,
    {
        assert(x@.take(i + 1).drop_last() =~= x@.take(i as int));
        if x[i] == from {
            out.append(to);
        } else {
            let one = s.substring_char(i, i + 1);
            assert(one@ =~= seq![x@[i as int]]);
            out.append(one);
            assert(out@ =~= replace_char(x@.take(i as int), from, to@).push(x@[i as int]));
        }
        i += 1;
    }
    assert(x@.take(i as int) =~= s@);
    out
}

/// The parts written one after another with `sep` between neighbours.
pub fn join_with(parts: &Vec<String>, sep: &str) -> (out: String)
    ensures
        out@ == join(parts.deep_view(), sep@),
{
    let mut out = String::new();
    let mut i: usize = 0;
    let ghost all = parts.deep_view();
    while i < parts.len()
        invariant
            i <= parts.len(),
            all == parts.deep_view(),
            out@ == join(all.take(i as int), sep@),
        decreases parts.len() - i,
    {
        assert(all.take(i + 1).drop_last() =~= all.take(i as int));
        assert(all.take(i + 1).last() == parts@[i as int]@);
        if i > 0 {
            out.append(sep);
        }
        out.append(parts[i].as_str());
        assert(out@ =~= join(all.take(i + 1), sep@)) by {
            if i == 0 {
                assert(all.take(1)[0] == parts@[0]@);
            }
        }
        i += 1;
    }
    assert(all.take(i as int) =~= all);
    out
}

/// The words of `s`, as `str::split_whitespace` gives them.
pub fn split_whitespace(s: &str) -> (out: Vec<String>)
    ensures
        out.deep_view() == words(s@),
{
    let x = chars_of(s);
    let mut out: Vec<String> = Vec::new();
    let mut start: usize = 0;
    let mut i: usize = 0;
    proof {
        assert(x@.subrange(0, 0) =~= Seq::<char>::empty());
        assert(x@.take(0) =~= Seq::<char>::empty());
        assert(out.deep_view() =~= Seq::<Seq<char>>::empty());
        assert(split_spaces(x@.take(0)).drop_last() =~= Seq::<Seq<char>>::empty());
    }
    while i < x.len()
        invariant
            start <= i <= x.len(),
            x@ == s@,
            split_spaces(x@.take(i as int)).len() > 0,
            out.deep_view() == nonempty_parts(split_spaces(x@.take(i as int)).drop_last()),
            x@.subrange(start as int, i as int) == split_spaces(x@.take(i as int)).last(),
        decreases x.len() - i,
    {
        let ghost before = split_spaces(x@.take(i as int));
        assert(x@.take(i + 1).drop_last() =~= x@.take(i as int));
        if is_whitespace(x[i]) {
            assert(before.push(Seq::<char>::empty()).drop_last() =~= before);
            if start < i {
                let piece = String::from_str(s.substring_char(start, i));
                let ghost old_out = out.deep_view();
                out.push(piece);
                assert(out.deep_view() =~= old_out.push(piece@));
            }
            start = i + 1;
            assert(x@.subrange(start as int, start as int) =~= Seq::<char>::empty());
        } else {
            let ghost grown = before.last().push(x@[i as int]);
            assert(before.drop_last().push(grown).drop_last() =~= before.drop_last());
            assert(x@.subrange(start as int, i + 1) =~= grown);
        }
        i += 1;
    }
    assert(x@.take(i as int) =~= s@);
    let ghost all = split_spaces(s@);
    assert(all =~= all.drop_last().push(all.last()));
    if start < i {
        let piece = String::from_str(s.substring_char(start, i));
        let ghost old_out = out.deep_view();
        out.push(piece);
        assert(out.deep_view() =~= old_out.push(piece@));
    }
    out
}

/// Adds a copy of `s` at the end of `out`.
pub fn push_text(out: &mut Vec<String>, s: &str)
    ensures
        final(out).deep_view() == old(out).deep_view().push(s@),
{
    let ghost before = out.deep_view();
    let owned = String::from_str(s);
    out.push(owned);
    assert(out.deep_view() =~= before.push(s@));
}

/// Adds `s` at the end of `out`.
pub fn push_string(out: &mut Vec<String>, s: String)
    ensures
        final(out).deep_view() == old(out).deep_view().push(s@),
{
    let ghost before = out.deep_view();
    out.push(s);
    assert(out.deep_view() =~= before.push(s@));
}

/// Moves all of `more` to the end of `out`, in order.
pub fn push_all(out: &mut Vec<String>, more: Vec<String>)
    ensures
        final(out).deep_view() == old(out).deep_view() + more.deep_view(),
{
    let ghost before = out.deep_view();
    let ghost added = more.deep_view();
    let mut more = more;
    out.append(&mut more);
    assert(out.deep_view() =~= before + added);
}

/// A copy of an optional text.
pub fn clone_optional(text: &Option<String>) -> (r: Option<String>)
    ensures
        r.deep_view() == text.deep_view(),
{
    match text {
        Some(s) => Some(s.clone()),
        None => None,
    }
}

/// `s` without the occurrences of `c` at its beginning and at its end, as
/// `str::trim_matches` gives it for a character.
pub fn trim_matches(s: &str, c: char) -> (r: String)
    ensures
        r@ == trimmed_of(s@, c),
{
    let x = chars_of(s);
    let mut end: usize = x.len();
    assert(x@.take(end as int) =~= x@);
    while end > 0 && x[end - 1] == c
        invariant
            end <= x.len(),
            without_trailing(x@, c) == without_trailing(x@.take(end as int), c),
        decreases end,
    {
        assert(x@.take(end as int).drop_last() =~= x@.take(end - 1));
        end -= 1;
    }
    assert(x@.take(0) =~= Seq::<char>::empty());
    let ghost kept = x@.take(end as int);
    assert(without_trailing(x@, c) == kept);
    let mut start: usize = 0;
    while start < end && x[start] == c
        invariant
            start <= end <= x.len(),
            kept == x@.take(end as int),
            without_leading(kept, c) == without_leading(x@.subrange(start as int, end as int), c),
        decreases end - start,
    {
        assert(x@.subrange(start as int, end as int).drop_first() =~= x@.subrange(
            start + 1,
            end as int,
        ));
        start += 1;
    }
    proof {
        if start == 0 {
            assert(x@.subrange(0, end as int) =~= kept);
        }
    }
    String::from_str(s.substring_char(start, end))
}

/// `s` without the white space at its beginning and at its end, as
/// `str::trim` gives it.
pub fn trim(s: &str) -> (r: String)
    ensures
        r@ == trimmed(s@),
{
    let x = chars_of(s);
    let mut end: usize = x.len();
    assert(x@.take(end as int) =~= x@);
    while end > 0 && is_whitespace(x[end - 1])
        invariant
            end <= x.len(),
            without_trailing_space(x@) == without_trailing_space(x@.take(end as int)),
        decreases end,
    {
        assert(x@.take(end as int).drop_last() =~= x@.take(end - 1));
        end -= 1;
    }
    assert(x@.take(0) =~= Seq::<char>::empty());
    let ghost kept = x@.take(end as int);
    assert(without_trailing_space(x@) == kept);
    let mut start: usize = 0;
    while start < end && is_whitespace(x[start])
        invariant
            start <= end <= x.len(),
            kept == x@.take(end as int),
            without_leading_space(kept) == without_leading_space(
                x@.subrange(start as int, end as int),
            ),
        decreases end - start,
    {
        assert(x@.subrange(start as int, end as int).drop_first() =~= x@.subrange(
            start + 1,
            end as int,
        ));
        start += 1;
    }
    proof {
        if start == 0 {
            assert(x@.subrange(0, end as int) =~= kept);
        }
    }
    String::from_str(s.substring_char(start, end))
}

/// The lines of `s`, as `str::lines` gives them.
pub fn lines(s: &str) -> (out: Vec<String>)
    ensures
        out.deep_view() == lines_of(s@),
{
    let pieces = split(s, '\n');
    let ghost all = pieces.deep_view();
    let n: usize = pieces.len();
    let mut out: Vec<String> = Vec::new();
    let mut i: usize = 0;
    let ghost ended = Seq::new((all.len() - 1) as nat, |k: int| without_return(all[k]));
    while i + 1 < n
        invariant
            i + 1 <= n,
            n == pieces.len(),
            n >= 1,
            all == pieces.deep_view(),
            ended == Seq::new((all.len() - 1) as nat, |k: int| without_return(all[k])),
            out.deep_view() == ended.take(i as int),
        decreases n - i,
    {
        let piece = pieces[i].as_str();
        assert(all[i as int] == piece@);
        let len: usize = piece.unicode_len();
        let line = if len > 0 && piece.get_char(len - 1) == '\r' {
            String::from_str(piece.substring_char(0, len - 1))
        } else {
            String::from_str(piece)
        };
        assert(line@ =~= without_return(piece@));
        let ghost before = out.deep_view();
        out.push(line);
        assert(out.deep_view() =~= before.push(line@));
        assert(out.deep_view() =~= ended.take(i + 1));
        i += 1;
    }
    assert(ended.take(i as int) =~= ended);
    let last = pieces[n - 1].as_str();
    assert(all.last() == last@);
    if !last.is_empty() {
        let ghost before = out.deep_view();
        out.push(String::from_str(last));
        assert(out.deep_view() =~= before.push(last@));
    }
    out
}

} // verus!
