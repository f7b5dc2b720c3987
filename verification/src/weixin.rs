use crate::error::PayError;
use vstd::prelude::*;
use vstd::string::*;

verus! {

/// Whether `pattern` stands in `text` at index `at`.
pub open spec fn occurs_at(text: Seq<char>, pattern: Seq<char>, at: int) -> bool {
    &&& 0 <= at
    &&& at + pattern.len() <= text.len()
    &&& text.subrange(at, at + pattern.len()) == pattern
}

/// Whether `pattern` stands somewhere in `text`.
pub open spec fn holds(text: Seq<char>, pattern: Seq<char>) -> bool {
    exists|at: int| occurs_at(text, pattern, at)
}

/// The index of the first `sep` in `text`, or the length of `text` where it
/// has none.
pub open spec fn first_index(text: Seq<char>, sep: char) -> int
    decreases text.len(),
{
    if text.len() == 0 || text[0] == sep {
        0
    } else {
        1 + first_index(text.drop_first(), sep)
    }
}

/// Of the pieces into which `sep` cuts `text`, the first that holds
/// `pattern`.
pub open spec fn first_piece_holding(text: Seq<char>, sep: char, pattern: Seq<char>) -> Option<
    Seq<char>,
>
    decreases text.len(),
{
    let end = first_index(text, sep);
    if holds(text.take(end), pattern) {
        Some(text.take(end))
    } else if 0 <= end < text.len() {
        first_piece_holding(text.skip(end + 1), sep, pattern)
    } else {
        None
    }
}

/// The link that opens the WeChat client, as a payment page holds it: in
/// the first line that holds `weixin://`, the first piece between double
/// quotes that holds it.
pub open spec fn weixin_link(page: Seq<char>) -> Result<Option<Seq<char>>, PayError> {
    match first_piece_holding(page, '\n', "weixin://"@) {
        Some(text) => Ok(first_piece_holding(text, '"', "weixin://"@)),
        None => Err(PayError::WeixinNotFound),
    }
}

/// The characters of a text, one by one.
fn chars_of(text: &str) -> (res: Vec<char>)
    ensures
        res@ == text@,
{
    let mut out: Vec<char> = Vec::new();
    for c in it: text.chars()
        invariant
            it.seq() == text@,
            out@ == it.seq().take(it.index() as int),
    {
        out.push(c);
    }
    out
}

proof fn lemma_first_index(text: Seq<char>, sep: char, k: int)
    requires
        0 <= k <= text.len(),
        forall|j: int| 0 <= j < k ==> text[j] != sep,
        k == text.len() || text[k] == sep,
    ensures
        first_index(text, sep) == k,
    decreases text.len(),
{
    if k > 0 {
        let rest = text.drop_first();
        assert forall|j: int| 0 <= j < k - 1 implies rest[j] != sep by {
            assert(rest[j] == text[j + 1]);
        }
        lemma_first_index(rest, sep, k - 1);
    }
}

proof fn lemma_first_index_bounds(text: Seq<char>, sep: char)
    ensures
        0 <= first_index(text, sep) <= text.len(),
        forall|j: int| 0 <= j < first_index(text, sep) ==> text[j] != sep,
        first_index(text, sep) < text.len() ==> text[first_index(text, sep)] == sep,
    decreases text.len(),
{
    if !(text.len() == 0 || text[0] == sep) {
        let rest = text.drop_first();
        lemma_first_index_bounds(rest, sep);
        assert forall|j: int| 0 <= j < first_index(text, sep) implies text[j] != sep by {
            if j > 0 {
                assert(text[j] == rest[j - 1]);
            }
        }
    }
}

/// A text that holds a pattern free of `sep` has, among the pieces into
/// which `sep` cuts it, one that holds the pattern.
pub proof fn lemma_some_piece_holds(text: Seq<char>, sep: char, pattern: Seq<char>)
    requires
        holds(text, pattern),
        !pattern.contains(sep),
    ensures
        first_piece_holding(text, sep, pattern) is Some,
    decreases text.len(),
{
    let at = choose|at: int| occurs_at(text, pattern, at);
    let end = first_index(text, sep);
    lemma_first_index_bounds(text, sep);
    if at + pattern.len() <= end {
        assert(text.take(end).subrange(at, at + pattern.len()) =~= text.subrange(
            at,
            at + pattern.len(),
        ));
        assert(occurs_at(text.take(end), pattern, at));
    } else if !holds(text.take(end), pattern) {
        if at <= end {
            assert(text.subrange(at, at + pattern.len())[end - at] == text[end]);
            assert(pattern[end - at] == sep);
        }
        let rest = text.skip(end + 1);
        assert(rest.subrange(at - end - 1, at - end - 1 + pattern.len()) =~= text.subrange(
            at,
            at + pattern.len(),
        ));
        assert(occurs_at(rest, pattern, at - end - 1));
        lemma_some_piece_holds(rest, sep, pattern);
    }
}

fn matches_at(chars: &Vec<char>, pos: usize, pattern: &Vec<char>) -> (res: bool)
    requires
        pos + pattern.len() <= chars.len(),
    ensures
        res == (chars@.subrange(pos as int, pos + pattern.len()) == pattern@),
{
    let ghost window = chars@.subrange(pos as int, pos + pattern.len());
    let mut i: usize = 0;
    while i < pattern.len()
        invariant
            i <= pattern.len(),
            pos + pattern.len() <= chars.len(),
            window == chars@.subrange(pos as int, pos + pattern.len()),
            forall|j: int| 0 <= j < i ==> window[j] == pattern@[j],
        decreases pattern.len() - i,
    {
        if chars[pos + i] != pattern[i] {
            assert(window[i as int] != pattern@[i as int]);
            return false;
        }
        i += 1;
    }
    assert(window =~= pattern@);
    true
}

fn holds_in(chars: &Vec<char>, from: usize, to: usize, pattern: &Vec<char>) -> (res: bool)
    requires
        from <= to <= chars.len(),
    ensures
        res == holds(chars@.subrange(from as int, to as int), pattern@),
{
    let ghost piece = chars@.subrange(from as int, to as int);
    if pattern.len() > to - from {
        return false;
    }
    let last: usize = to - from - pattern.len();
    let mut at: usize = 0;
    loop
        invariant
            from <= to <= chars.len(),
            last == to - from - pattern.len(),
            at <= last,
            piece == chars@.subrange(from as int, to as int),
            forall|k: int| 0 <= k < at ==> !occurs_at(piece, pattern@, k),
        decreases last - at,
    {
        let ghost window = chars@.subrange(from + at, from + at + pattern.len());
        assert(window =~= piece.subrange(at as int, at + pattern.len()));
        if matches_at(chars, from + at, pattern) {
            assert(occurs_at(piece, pattern@, at as int));
            return true;
        }
        if at == last {
            return false;
        }
        at += 1;
    }
}

/// The bounds, within `chars[start..stop]`, of the first piece between two
/// `sep` that holds `pattern`.
fn find_piece(chars: &Vec<char>, start: usize, stop: usize, sep: char, pattern: &Vec<char>) -> (res:
    Option<(usize, usize)>)
    requires
        start <= stop <= chars.len(),
    ensures
        match first_piece_holding(chars@.subrange(start as int, stop as int), sep, pattern@) {
            Some(piece) => res matches Some((a, b)) && start <= a <= b <= stop && chars@.subrange(
                a as int,
                b as int,
            ) == piece,
            None => res is None,
        },
        res matches Some((a, b)) ==> holds(chars@.subrange(a as int, b as int), pattern@),
{
    let ghost whole = chars@.subrange(start as int, stop as int);
    let mut from = start;
    loop
        invariant
            start <= from <= stop <= chars.len(),
            whole == chars@.subrange(start as int, stop as int),
            first_piece_holding(whole, sep, pattern@) == first_piece_holding(
                chars@.subrange(from as int, stop as int),
                sep,
                pattern@,
            ),
        decreases stop - from,
    {
        let ghost rest = chars@.subrange(from as int, stop as int);
        let mut end = from;
        while end < stop && chars[end] != sep
            invariant
                from <= end <= stop <= chars.len(),
                forall|j: int| from <= j < end ==> chars@[j] != sep,
            decreases stop - end,
        {
            end += 1;
        }
        proof {
            assert forall|j: int| 0 <= j < end - from implies rest[j] != sep by {
                assert(rest[j] == chars@[from + j]);
            }
            lemma_first_index(rest, sep, end - from);
            assert(rest.take(end - from) =~= chars@.subrange(from as int, end as int));
        }
        if holds_in(chars, from, end, pattern) {
            return Some((from, end));
        }
        if end >= stop {
            return None;
        }
        proof {
            assert(rest.skip(end - from + 1) =~= chars@.subrange(end + 1, stop as int));
        }
        from = end + 1;
    }
}

/// Looks in a payment page for the link that opens the WeChat client.
///
/// Fails with `PayError::WeixinNotFound` exactly where no line of the page
/// holds `weixin://`; a line that holds it always yields a link.
pub fn find_weixin_link(page: &str) -> (res: Result<Option<String>, PayError>)
    ensures
        match weixin_link(page@) {
            Ok(Some(link)) => res matches Ok(Some(found)) && found@ == link,
            Ok(None) => res matches Ok(None),
            Err(error) => res matches Err(e) && e == error,
        },
        res matches Ok(found) ==> found is Some,
{
    proof {
        reveal_strlit("weixin://");
    }
    let chars = chars_of(page);
    let pattern: Vec<char> = vec!['w', 'e', 'i', 'x', 'i', 'n', ':', '/', '/'];
    assert(pattern@ =~= "weixin://"@);
    assert(chars@.subrange(0, chars.len() as int) =~= chars@);
    match find_piece(&chars, 0, chars.len(), '\n', &pattern) {
        Some((line_start, line_end)) => {
            proof {
                assert(!pattern@.contains('"'));
                lemma_some_piece_holds(
                    chars@.subrange(line_start as int, line_end as int),
                    '"',
                    pattern@,
                );
            }
            match find_piece(&chars, line_start, line_end, '"', &pattern) {
                Some((a, b)) => Ok(Some(page.substring_char(a, b).to_owned())),
                None => Ok(None),
            }
        },
        None => Err(PayError::WeixinNotFound),
    }
}

} // verus!
