//! The naming convention by which a source file declares inline contracts,
//! and the search for it in a text.

use vstd::prelude::*;
use crate::text::chars_of;

verus! {

/// Whether `c` counts as a word character, as `regex_syntax` decides it.
pub uninterp spec fn word_character(c: char) -> bool;

/// `regex_syntax::try_is_word_character`: whether `c` is a Unicode word
/// character (alphabetic, a mark, a decimal number, connector punctuation or a
/// join control).
#[verifier::external_body]
pub(crate) fn is_word_char(c: char) -> (res: bool)
    ensures
        res == word_character(c),
{
    regex_syntax::try_is_word_character(c).unwrap_or(false)
}

/// What follows the identifier of an inline contract.
pub open spec fn contract_marker() -> Seq<char> {
    "_WAT_CONTRACT: &str = r#"@
}

/// What ends the body of an inline contract.
pub open spec fn contract_terminator() -> Seq<char> {
    "#;"@
}

/// `pattern` stands in `text` at `at`.
pub open spec fn occurs_at(text: Seq<char>, pattern: Seq<char>, at: int) -> bool {
    &&& 0 <= at
    &&& at + pattern.len() <= text.len()
    &&& text.subrange(at, at + pattern.len()) == pattern
}

/// The naming convention matches `text` from `start`: an identifier of one or
/// more word characters up to `mark`, there the marker, then a body of at least
/// one character up to `end`, and there the terminator.
pub open spec fn is_match(text: Seq<char>, start: int, mark: int, end: int) -> bool {
    &&& 0 <= start < mark
    &&& forall|k: int| start <= k < mark ==> word_character(#[trigger] text[k])
    &&& occurs_at(text, contract_marker(), mark)
    &&& mark + contract_marker().len() < end
    &&& occurs_at(text, contract_terminator(), end)
}

/// The naming convention matches `text` somewhere from `from` on.
pub open spec fn has_match(text: Seq<char>, from: int) -> bool {
    exists|start: int, mark: int, end: int|
        from <= start && #[trigger] is_match(text, start, mark, end)
}

/// The match that a scan reports next when it has come to `from`: of the
/// matches from there on the one that starts first, of those the one with the
/// longest identifier, and of those the one whose body is shortest, so that
/// the body ends at the first terminator behind it.
pub open spec fn is_next_match(text: Seq<char>, from: int, start: int, mark: int, end: int) -> bool {
    &&& from <= start
    &&& is_match(text, start, mark, end)
    &&& forall|s: int, m: int, e: int| from <= s && #[trigger] is_match(text, s, m, e) ==> start <= s
    &&& forall|m: int, e: int| #[trigger] is_match(text, start, m, e) ==> m <= mark
    &&& forall|e: int| #[trigger] is_match(text, start, mark, e) ==> end <= e
}

/// A scan that has come to `from` has a next match to report.
pub open spec fn has_next_match(text: Seq<char>, from: int) -> bool {
    exists|next: (int, int, int)| is_next_match(text, from, next.0, next.1, next.2)
}

/// The places of the next match of a scan that has come to `from`: where its
/// identifier starts, where its marker stands and where its terminator stands.
pub open spec fn next_match(text: Seq<char>, from: int) -> (int, int, int) {
    choose|next: (int, int, int)| is_next_match(text, from, next.0, next.1, next.2)
}

/// The places of all the matches that a scan from `from` on reports, in the
/// order in which they stand in the text: the next match, and then those of
/// the scan that goes on behind its terminator.
pub open spec fn matches_from(text: Seq<char>, from: int) -> Seq<(int, int, int)>
    decreases text.len() - from,
{
    if has_next_match(text, from) {
        let next = next_match(text, from);
        seq![next] + matches_from(text, next.2 + contract_terminator().len())
    } else {
        Seq::empty()
    }
}

/// The next match of a scan stands at one place only.
pub proof fn lemma_next_match_unique(
    text: Seq<char>,
    from: int,
    a: (int, int, int),
    b: (int, int, int),
)
    requires
        is_next_match(text, from, a.0, a.1, a.2),
        is_next_match(text, from, b.0, b.1, b.2),
    ensures
        a == b,
{
    assert(is_match(text, a.0, a.1, a.2));
    assert(is_match(text, b.0, b.1, b.2));
    assert(a.0 == b.0);
    assert(a.1 == b.1);
}

/// The naming convention matches `text` from `start`, with whatever body.
pub open spec fn starts_match(text: Seq<char>, start: int) -> bool {
    exists|mark: int, end: int| #[trigger] is_match(text, start, mark, end)
}

/// The naming convention matches `text` from `start` with an identifier up
/// to `mark`, with whatever body.
pub open spec fn marks_match(text: Seq<char>, start: int, mark: int) -> bool {
    exists|end: int| #[trigger] is_match(text, start, mark, end)
}

/// The first place between `from` and `start` from which the naming
/// convention matches.
proof fn lemma_leftmost_start(text: Seq<char>, from: int, start: int) -> (first: int)
    requires
        from <= start,
        starts_match(text, start),
    ensures
        from <= first <= start,
        starts_match(text, first),
        forall|earlier: int| from <= earlier < first ==> !starts_match(text, earlier),
    decreases start - from,
{
    if exists|earlier: int| from <= earlier < start && starts_match(text, earlier) {
        let earlier = choose|earlier: int| from <= earlier < start && starts_match(text, earlier);
        lemma_leftmost_start(text, from, earlier)
    } else {
        start
    }
}

/// The last place from `mark` on at which the identifier of a match from
/// `start` ends.
proof fn lemma_longest_identifier(text: Seq<char>, start: int, mark: int) -> (last: int)
    requires
        marks_match(text, start, mark),
    ensures
        mark <= last,
        marks_match(text, start, last),
        forall|later: int| last < later ==> !marks_match(text, start, later),
    decreases text.len() - mark,
{
    if exists|later: int| mark < later && marks_match(text, start, later) {
        let later = choose|later: int| mark < later && marks_match(text, start, later);
        let end = choose|end: int| #[trigger] is_match(text, start, later, end);
        assert(is_match(text, start, later, end));
        lemma_longest_identifier(text, start, later)
    } else {
        mark
    }
}

/// The first place up to `end` at which the body of a match from `start`
/// with the identifier up to `mark` ends.
proof fn lemma_shortest_body(text: Seq<char>, start: int, mark: int, end: int) -> (first: int)
    requires
        is_match(text, start, mark, end),
    ensures
        first <= end,
        is_match(text, start, mark, first),
        forall|earlier: int| earlier < first ==> !is_match(text, start, mark, earlier),
    decreases end - mark,
{
    if exists|earlier: int| earlier < end && is_match(text, start, mark, earlier) {
        let earlier = choose|earlier: int| earlier < end && is_match(text, start, mark, earlier);
        lemma_shortest_body(text, start, mark, earlier)
    } else {
        end
    }
}

/// Where the naming convention matches a text from `from` on, the scan has a
/// next match to report, and only there.
pub proof fn lemma_match_has_next(text: Seq<char>, from: int)
    ensures
        has_match(text, from) <==> has_next_match(text, from),
{
    if has_match(text, from) {
        let (start, mark, end) = choose|start: int, mark: int, end: int|
            from <= start && #[trigger] is_match(text, start, mark, end);
        assert(is_match(text, start, mark, end));
        let first_start = lemma_leftmost_start(text, from, start);
        let (some_mark, some_end) = choose|m: int, e: int| #[trigger]
            is_match(text, first_start, m, e);
        assert(is_match(text, first_start, some_mark, some_end));
        let last_mark = lemma_longest_identifier(text, first_start, some_mark);
        let other_end = choose|e: int| #[trigger] is_match(text, first_start, last_mark, e);
        let first_end = lemma_shortest_body(text, first_start, last_mark, other_end);
        assert forall|s: int, m: int, e: int| from <= s && #[trigger] is_match(
            text,
            s,
            m,
            e,
        ) implies first_start <= s by {
            assert(starts_match(text, s));
        }
        assert forall|m: int, e: int| #[trigger] is_match(text, first_start, m, e) implies m
            <= last_mark by {
            assert(marks_match(text, first_start, m));
        }
        let next = (first_start, last_mark, first_end);
        assert(is_next_match(text, from, next.0, next.1, next.2));
    }
    if has_next_match(text, from) {
        let next = next_match(text, from);
        assert(is_match(text, next.0, next.1, next.2));
    }
}

/// A text in which the marker of the naming convention stands nowhere holds
/// no match.
pub proof fn lemma_no_marker_no_match(text: Seq<char>, from: int)
    requires
        forall|at: int| !occurs_at(text, contract_marker(), at),
    ensures
        !has_match(text, from),
        matches_from(text, from) == Seq::<(int, int, int)>::empty(),
{
    if has_next_match(text, from) {
        let next = next_match(text, from);
        assert(is_match(text, next.0, next.1, next.2));
    }
}

/// The matches of a scan stand one behind the other, none before `from`, and
/// each is the next match of the scan that has come to the end of the one
/// before it.
pub proof fn lemma_matches_in_order(text: Seq<char>, from: int, i: int)
    requires
        0 <= i < matches_from(text, from).len(),
    ensures
        ({
            let found = matches_from(text, from);
            &&& from <= found[i].0
            &&& is_match(text, found[i].0, found[i].1, found[i].2)
            &&& i > 0 ==> found[i - 1].2 + contract_terminator().len() <= found[i].0
            &&& is_next_match(
                text,
                if i == 0 {
                    from
                } else {
                    found[i - 1].2 + contract_terminator().len()
                },
                found[i].0,
                found[i].1,
                found[i].2,
            )
        }),
    decreases i,
{
    let next = next_match(text, from);
    let behind = next.2 + contract_terminator().len();
    let rest = matches_from(text, behind);
    assert(matches_from(text, from) =~= seq![next] + rest);
    if i > 0 {
        lemma_matches_in_order(text, behind, i - 1);
        assert(matches_from(text, from)[i] == rest[i - 1]);
        if i > 1 {
            assert(matches_from(text, from)[i - 1] == rest[i - 2]);
        }
    }
}

/// Whether `pattern` stands in `text` at `at`.
pub fn matches_at(text: &Vec<char>, pattern: &Vec<char>, at: usize) -> (res: bool)
    ensures
        res == occurs_at(text@, pattern@, at as int),
{
    if pattern.len() > text.len() || at > text.len() - pattern.len() {
        return false;
    }
    let mut k: usize = 0;
    while k < pattern.len()
        invariant
            k <= pattern.len(),
            at + pattern.len() <= text.len(),
            forall|j: int| 0 <= j < k ==> text@[at + j] == pattern@[j],
        decreases pattern.len() - k,
    {
        if text[at + k] != pattern[k] {
            assert(text@.subrange(at as int, at + pattern.len())[k as int] != pattern@[k as int]);
            return false;
        }
        k += 1;
    }
    assert(text@.subrange(at as int, at + pattern.len()) =~= pattern@);
    true
}

/// The last place at which `pattern` stands in `text`.
pub fn find_last(text: &Vec<char>, pattern: &Vec<char>) -> (res: Option<usize>)
    ensures
        match res {
            Some(at) => occurs_at(text@, pattern@, at as int) && forall|later: int|
                at < later ==> !occurs_at(text@, pattern@, later),
            None => forall|at: int| !occurs_at(text@, pattern@, at),
        },
{
    if pattern.len() > text.len() {
        return None;
    }
    let mut at: usize = text.len() - pattern.len();
    loop
        invariant
            at + pattern.len() <= text.len(),
            forall|later: int| at < later ==> !occurs_at(text@, pattern@, later),
        decreases at,
    {
        if matches_at(text, pattern, at) {
            return Some(at);
        }
        if at == 0 {
            return None;
        }
        at -= 1;
    }
}

/// The first place from `from` on at which `pattern` stands in `text`.
pub fn find_first(text: &Vec<char>, pattern: &Vec<char>, from: usize) -> (res: Option<usize>)
    ensures
        match res {
            Some(at) => from <= at && occurs_at(text@, pattern@, at as int) && forall|earlier: int|
                from <= earlier < at ==> !occurs_at(text@, pattern@, earlier),
            None => forall|at: int| from <= at ==> !occurs_at(text@, pattern@, at),
        },
{
    if pattern.len() > text.len() {
        return None;
    }
    let limit = text.len() - pattern.len();
    let mut at: usize = from;
    while at <= limit
        invariant
            from <= at,
            limit == text.len() - pattern.len(),
            forall|earlier: int| from <= earlier < at ==> !occurs_at(text@, pattern@, earlier),
        decreases limit - at,
    {
        if matches_at(text, pattern, at) {
            return Some(at);
        }
        if at == limit {
            return None;
        }
        at += 1;
    }
    None
}

/// The marker stands at `mark` behind a word character that a scan from
/// `from` on may take, and leaves room for a body before the terminator at
/// `last`.
pub open spec fn is_candidate(text: Seq<char>, from: int, mark: int, last: int) -> bool {
    &&& from < mark
    &&& occurs_at(text, contract_marker(), mark)
    &&& word_character(text[mark - 1])
    &&& mark + contract_marker().len() < last
}

/// Every character of `text` from `from` up to `to` is a word character.
pub open spec fn is_word_run(text: Seq<char>, from: int, to: int) -> bool {
    forall|k: int| from <= k < to ==> word_character(#[trigger] text[k])
}

/// The first place behind `from` at which a contract's marker follows a word
/// character and leaves room for a body before `last`.
fn first_candidate(text: &Vec<char>, marker: &Vec<char>, from: usize, last: usize) -> (res: Option<
    usize,
>)
    requires
        marker@ == contract_marker(),
        last <= text.len(),
    ensures
        match res {
            Some(mark) => is_candidate(text@, from as int, mark as int, last as int) && forall|
                m: int,
            |
                m < mark ==> !is_candidate(text@, from as int, m, last as int),
            None => forall|m: int| !is_candidate(text@, from as int, m, last as int),
        },
{
    if marker.len() >= last || from >= last - marker.len() {
        return None;
    }
    let limit = last - marker.len();
    let mut mark: usize = from + 1;
    while mark < limit
        invariant
            from < mark,
            limit == last - marker.len(),
            marker@ == contract_marker(),
            last <= text.len(),
            forall|m: int| m < mark ==> !is_candidate(text@, from as int, m, last as int),
        decreases limit - mark,
    {
        if matches_at(text, marker, mark) && is_word_char(text[mark - 1]) {
            return Some(mark);
        }
        mark += 1;
    }
    None
}

/// Where the word characters that end just before `mark` begin, as far as a
/// scan from `from` on may take them.
fn identifier_start(text: &Vec<char>, from: usize, mark: usize) -> (start: usize)
    requires
        from < mark <= text.len(),
        word_character(text@[mark - 1]),
    ensures
        from <= start < mark,
        is_word_run(text@, start as int, mark as int),
        start == from || !word_character(text@[start - 1]),
{
    let mut start: usize = mark - 1;
    while start > from && is_word_char(text[start - 1])
        invariant
            from <= start < mark <= text.len(),
            is_word_run(text@, start as int, mark as int),
        decreases start,
    {
        start -= 1;
    }
    start
}

/// The last place at which a contract's marker ends the word characters that
/// begin at `start` and leaves room for a body before `last`.
fn last_candidate(
    text: &Vec<char>,
    marker: &Vec<char>,
    from: usize,
    start: usize,
    first: usize,
    last: usize,
) -> (mark: usize)
    requires
        marker@ == contract_marker(),
        last <= text.len(),
        from <= start < first,
        is_candidate(text@, from as int, first as int, last as int),
        is_word_run(text@, start as int, first as int),
    ensures
        first <= mark,
        is_candidate(text@, from as int, mark as int, last as int),
        is_word_run(text@, start as int, mark as int),
        forall|m: int|
            mark < m && is_candidate(text@, from as int, m, last as int) ==> !is_word_run(
                text@,
                start as int,
                m,
            ),
{
    let limit = last - marker.len();
    let mut mark: usize = first;
    let mut next: usize = first + 1;
    while next < limit
        invariant
            from <= start < first <= mark < next,
            limit == last - marker.len(),
            marker@ == contract_marker(),
            last <= text.len(),
            is_candidate(text@, from as int, mark as int, last as int),
            is_word_run(text@, start as int, mark as int),
            is_word_run(text@, start as int, next - 1),
            forall|m: int|
                mark < m < next && is_candidate(text@, from as int, m, last as int)
                    ==> !is_word_run(text@, start as int, m),
        decreases limit - next,
    {
        if !is_word_char(text[next - 1]) {
            assert forall|m: int|
                mark < m && is_candidate(text@, from as int, m, last as int) implies !is_word_run(
                text@,
                start as int,
                m,
            ) by {
                if next <= m && is_word_run(text@, start as int, m) {
                    assert(word_character(text@[next - 1]));
                }
            }
            return mark;
        }
        if matches_at(text, marker, next) {
            mark = next;
        }
        next += 1;
    }
    mark
}

/// Looks for the next match of the naming convention from `from` on, and
/// gives the places at which its identifier starts, its marker stands and its
/// terminator stands. `last` is where the last terminator of the text stands.
fn find_contract(text: &Vec<char>, from: usize, last: usize) -> (res: Option<
    (usize, usize, usize),
>)
    requires
        occurs_at(text@, contract_terminator(), last as int),
        forall|later: int| last < later ==> !occurs_at(text@, contract_terminator(), later),
    ensures
        match res {
            Some((start, mark, end)) => is_next_match(
                text@,
                from as int,
                start as int,
                mark as int,
                end as int,
            ),
            None => !has_match(text@, from as int),
        },
{
    let marker = chars_of("_WAT_CONTRACT: &str = r#");
    let terminator = chars_of("#;");
    assert forall|s: int, m: int, e: int| from <= s && #[trigger] is_match(text@, s, m, e) implies e
        <= last && is_candidate(text@, from as int, m, last as int) by {
        assert(word_character(text@[m - 1]));
    }
    let first = match first_candidate(text, &marker, from, last) {
        Some(first) => first,
        None => {
            return None;
        },
    };
    let start = identifier_start(text, from, first);
    let mark = last_candidate(text, &marker, from, start, first, last);
    let end = match find_first(text, &terminator, mark + marker.len() + 1) {
        Some(end) => end,
        None => {
            assert(false);
            return None;
        },
    };
    assert forall|s: int, m: int, e: int| from <= s && #[trigger] is_match(text@, s, m, e) implies start
        <= s by {
        if s < start {
            assert(word_character(text@[start - 1]));
        }
    }
    assert forall|m: int, e: int| #[trigger] is_match(text@, start as int, m, e) implies m
        <= mark by {
        assert(word_character(text@[m - 1]));
        assert(is_candidate(text@, from as int, m, last as int));
        assert(is_word_run(text@, start as int, m));
    }
    Some((start, mark, end))
}

/// The three places of a match as numbers without bound.
pub open spec fn places_of(place: (usize, usize, usize)) -> (int, int, int) {
    (place.0 as int, place.1 as int, place.2 as int)
}

/// Looks for every match of the naming convention in `text`, and gives for
/// each, in the order of the text, the places at which its identifier
/// starts, its marker stands and its terminator stands.
pub fn find_contracts(text: &Vec<char>) -> (found: Vec<(usize, usize, usize)>)
    ensures
        found@.map_values(|place: (usize, usize, usize)| places_of(place)) == matches_from(
            text@,
            0,
        ),
{
    let mut found: Vec<(usize, usize, usize)> = Vec::new();
    let terminator = chars_of("#;");
    let last = match find_last(text, &terminator) {
        Some(last) => last,
        None => {
            proof {
                if has_next_match(text@, 0) {
                    let next = next_match(text@, 0);
                    assert(is_match(text@, next.0, next.1, next.2));
                }
            }
            assert(found@.map_values(|place: (usize, usize, usize)| places_of(place))
                =~= matches_from(text@, 0));
            return found;
        },
    };
    let mut from: usize = 0;
    let ghost placed: Seq<(int, int, int)> = Seq::empty();
    assert(placed + matches_from(text@, 0) =~= matches_from(text@, 0));
    loop
        invariant
            terminator@ == contract_terminator(),
            from <= text.len(),
            occurs_at(text@, contract_terminator(), last as int),
            forall|later: int| last < later ==> !occurs_at(text@, contract_terminator(), later),
            matches_from(text@, 0) == placed + matches_from(text@, from as int),
            placed == found@.map_values(|place: (usize, usize, usize)| places_of(place)),
        decreases text.len() - from,
    {
        match find_contract(text, from, last) {
            None => {
                proof {
                    lemma_match_has_next(text@, from as int);
                    assert(placed + Seq::<(int, int, int)>::empty() =~= placed);
                }
                return found;
            },
            Some((start, mark, end)) => {
                proof {
                    let here = (start as int, mark as int, end as int);
                    assert(is_next_match(text@, from as int, here.0, here.1, here.2));
                    lemma_next_match_unique(text@, from as int, here, next_match(text@, from as int));
                    let behind = end + contract_terminator().len();
                    assert(matches_from(text@, from as int) == seq![here] + matches_from(
                        text@,
                        behind,
                    ));
                    assert(placed + (seq![here] + matches_from(text@, behind)) =~= placed.push(
                        here,
                    ) + matches_from(text@, behind));
                    placed = placed.push(here);
                }
                let ghost before = found@;
                found.push((start, mark, end));
                assert(found@.map_values(|place: (usize, usize, usize)| places_of(place))
                    =~= before.map_values(|place: (usize, usize, usize)| places_of(place)).push(
                    places_of((start, mark, end)),
                ));
                from = end + terminator.len();
            },
        }
    }
}

} // verus!
