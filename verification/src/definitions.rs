use crate::outcome::{
    all_named, declared, lemma_outcomes_push, outcomes, Outcome, TestInfo,
};
use crate::text::{
    contains, from_chars, has_infix, has_prefix, lines, matches_at, occurs_at, split_lines,
    starts_with, to_chars, trim, trimmed, views,
};
use vstd::prelude::*;

verus! {

/// What a regular expression captures in a text: for each match of `pattern`
/// in `haystack`, from left to right and without overlap, the text of its
/// first capture group, or `None` where the pattern has no such group or
/// the group took no part in the match. The whole is `None` where `pattern`
/// is no regular expression that can be compiled.
pub uninterp spec fn first_groups(pattern: Seq<char>, haystack: Seq<char>) -> Option<
    Seq<Option<Seq<char>>>,
>;

/// Why a pattern could not be used: the error of the `regex` crate.
#[verifier::external_type_specification]
#[verifier::external_body]
pub struct ExRegexError(regex::Error);

/// Compiles `pattern` with `regex::Regex::new` and walks `haystack` with
/// `Regex::captures_iter`, taking `Captures::get(1)` of each match. The
/// contract gives the result the name `first_groups`: it claims that the
/// result depends on the two texts alone, that an error comes exactly where
/// the name is `None`, and nothing else.
#[verifier::external_body]
pub(crate) fn capture_first_groups(pattern: &str, haystack: &str) -> (r: Result<
    Vec<Option<String>>,
    regex::Error,
>)
    ensures
        match r {
            Ok(found) => first_groups(pattern@, haystack@) == Some(found.deep_view()),
            Err(_) => first_groups(pattern@, haystack@) is None,
        },
{
    match regex::Regex::new(pattern) {
        Ok(re) => Ok(
            re.captures_iter(haystack).map(|c| c.get(1).map(|m| m.as_str().to_string())).collect(),
        ),
        Err(e) => Err(e),
    }
}

/// The pattern of a call that declares one test case, with its quoted
/// description as the first group.
pub open spec fn case_pattern() -> Seq<char> {
    "(?:test|it)\\s*\\(\\s*['\"](.+?)['\"]"@
}

/// The pattern of a call that declares a group of test cases, with its
/// quoted description as the first group.
pub open spec fn group_pattern() -> Seq<char> {
    "describe\\s*\\(\\s*['\"](.+?)['\"]"@
}

/// Whether one of `os` has the name `name`.
pub open spec fn has_name(os: Seq<Outcome>, name: Seq<char>) -> bool {
    exists|i: int| 0 <= i < os.len() && (#[trigger] os[i]).name == name
}

/// `os`, and after them a test declared as `name` unless one of them has
/// that name already.
pub open spec fn add_declared(os: Seq<Outcome>, name: Seq<char>) -> Seq<Outcome> {
    if has_name(os, name) {
        os
    } else {
        os.push(declared(name))
    }
}

/// `os` after each captured description of `found`, trimmed, was added in
/// turn. A description that is blank once trimmed names no test and is
/// passed over.
pub open spec fn add_all(os: Seq<Outcome>, found: Seq<Option<Seq<char>>>) -> Seq<Outcome>
    decreases found.len(),
{
    if found.len() == 0 {
        os
    } else {
        let before = add_all(os, found.drop_last());
        match found.last() {
            Some(g) => if trimmed(g).len() == 0 {
                before
            } else {
                add_declared(before, trimmed(g))
            },
            None => before,
        }
    }
}

/// `os` after the descriptions that `pattern` captures in `line` were added.
pub open spec fn add_found(os: Seq<Outcome>, pattern: Seq<char>, line: Seq<char>) -> Seq<
    Outcome,
> {
    match first_groups(pattern, line) {
        Some(found) => add_all(os, found),
        None => os,
    }
}

/// Where a scan of a source text stands: the tests found, and whether the
/// scan is inside a block comment.
pub ghost struct SourceScan {
    /// The tests found, in the order in which they were first seen.
    pub found: Seq<Outcome>,
    /// Whether a block comment is open.
    pub in_comment: bool,
}

/// The text that opens a block comment.
pub open spec fn comment_open() -> Seq<char> {
    seq!['/', '*']
}

/// The text that closes a block comment.
pub open spec fn comment_close() -> Seq<char> {
    seq!['*', '/']
}

/// The text that starts a line comment.
pub open spec fn comment_line() -> Seq<char> {
    seq!['/', '/']
}

/// Whether a block comment is open after the part of `line` from `i` on,
/// where `open` says whether one is open at `i`: an opening outside a
/// comment opens one, and a closing inside a comment closes it.
pub open spec fn comment_after(line: Seq<char>, i: int, open: bool) -> bool
    decreases line.len() - i,
{
    if i < 0 || i + 2 > line.len() {
        open
    } else if open && occurs_at(line, comment_close(), i) {
        comment_after(line, i + 2, false)
    } else if !open && occurs_at(line, comment_open(), i) {
        comment_after(line, i + 2, true)
    } else {
        comment_after(line, i + 1, open)
    }
}

/// Whether a trimmed line is searched for tests by a scan for which
/// `in_comment` says whether a block comment is open: the line is not
/// blank, no comment is open, and the line neither begins a line comment
/// nor holds the opening or the closing of a block comment.
pub open spec fn is_searched(line: Seq<char>, in_comment: bool) -> bool {
    &&& line.len() > 0
    &&& !in_comment
    &&& !starts_with(line, comment_line())
    &&& !contains(line, comment_open())
    &&& !contains(line, comment_close())
}

/// The scan after one more line of source. A blank line changes nothing,
/// and so does a line comment outside a block comment. On a line that is
/// searched the descriptions of test cases are added, then those of groups.
/// Every other line is passed over, and the block comments that it opens
/// and closes decide whether one is open after it.
pub open spec fn scan_source_line(scan: SourceScan, raw: Seq<char>) -> SourceScan {
    let line = trimmed(raw);
    if line.len() == 0 || (!scan.in_comment && starts_with(line, comment_line())) {
        scan
    } else if is_searched(line, scan.in_comment) {
        SourceScan {
            found: add_found(add_found(scan.found, case_pattern(), line), group_pattern(), line),
            in_comment: false,
        }
    } else {
        SourceScan { found: scan.found, in_comment: comment_after(line, 0, scan.in_comment) }
    }
}

/// The scan after the lines `ls`, begun with the tests `os`.
pub open spec fn scan_source(os: Seq<Outcome>, ls: Seq<Seq<char>>) -> SourceScan
    decreases ls.len(),
{
    if ls.len() == 0 {
        SourceScan { found: os, in_comment: false }
    } else {
        scan_source_line(scan_source(os, ls.drop_last()), ls.last())
    }
}

/// The tests that a source text declares, each once, in the order in which
/// they are first seen.
pub open spec fn declared_outcomes(text: Seq<char>) -> Seq<Outcome> {
    scan_source(Seq::empty(), lines(text)).found
}

/// Decides `has_name`.
pub fn holds_name(tests: &Vec<TestInfo>, name: &String) -> (b: bool)
    ensures
        b == has_name(outcomes(tests@), name@),
{
    let mut i: usize = 0;
    while i < tests.len()
        invariant
            i <= tests@.len(),
            forall|j: int| 0 <= j < i ==> (#[trigger] outcomes(tests@)[j]).name != name@,
        decreases tests@.len() - i,
    {
        if tests[i].name == *name {
            assert(outcomes(tests@)[i as int].name == name@);
            return true;
        }
        i += 1;
    }
    false
}

/// Adds the captured descriptions `found` to `tests`: each is trimmed, and
/// added as a declared test unless it is blank or `tests` holds that name
/// already.
pub fn add_descriptions(tests: &mut Vec<TestInfo>, found: &Vec<Option<String>>)
    ensures
        outcomes(final(tests)@) == add_all(outcomes(old(tests)@), found.deep_view()),
{
    let mut i: usize = 0;
    assert(found.deep_view().subrange(0, 0) =~= Seq::<Option<Seq<char>>>::empty());
    while i < found.len()
        invariant
            i <= found@.len(),
            found.deep_view().len() == found@.len(),
            outcomes(tests@) == add_all(
                outcomes(old(tests)@),
                found.deep_view().subrange(0, i as int),
            ),
        decreases found@.len() - i,
    {
        proof {
            let upto = found.deep_view().subrange(0, i + 1);
            assert(upto.drop_last() =~= found.deep_view().subrange(0, i as int));
            assert(upto.last() == found@[i as int].deep_view());
        }
        match &found[i] {
            Some(g) => {
                let chars = to_chars(g.as_str());
                let description = trim(chars.as_slice());
                let name = from_chars(description.as_slice());
                if description.len() > 0 && !holds_name(tests, &name) {
                    let t = TestInfo { name, passed: false, error: None, duration: None };
                    proof {
                        lemma_outcomes_push(tests@, t);
                    }
                    tests.push(t);
                }
            },
            None => {},
        }
        i += 1;
    }
    assert(found.deep_view().subrange(0, i as int) =~= found.deep_view());
}

/// Adds to `tests` the descriptions that `pattern` captures in `line`.
fn add_matches(tests: &mut Vec<TestInfo>, pattern: &str, line: &str)
    ensures
        outcomes(final(tests)@) == add_found(outcomes(old(tests)@), pattern@, line@),
{
    match capture_first_groups(pattern, line) {
        Ok(found) => {
            add_descriptions(tests, &found);
        },
        Err(_) => {},
    }
}

/// Computes `comment_after` for a whole line.
pub fn comment_state_after(line: &[char], open: bool) -> (after: bool)
    ensures
        after == comment_after(line@, 0, open),
{
    let opening: Vec<char> = vec!['/', '*'];
    let closing: Vec<char> = vec!['*', '/'];
    assert(opening@ =~= comment_open());
    assert(closing@ =~= comment_close());
    let n = line.len();
    let mut state = open;
    let mut i: usize = 0;
    while i < n && n - i >= 2
        invariant
            n == line@.len(),
            i <= n,
            opening@ == comment_open(),
            closing@ == comment_close(),
            comment_after(line@, i as int, state) == comment_after(line@, 0, open),
        decreases n - i,
    {
        if state && matches_at(line, closing.as_slice(), i) {
            state = false;
            i += 2;
        } else if !state && matches_at(line, opening.as_slice(), i) {
            state = true;
            i += 2;
        } else {
            i += 1;
        }
    }
    state
}

/// A block comment that is open stays open over a part of a line that
/// holds no closing.
pub proof fn lemma_comment_stays_open(line: Seq<char>, i: int)
    requires
        0 <= i,
        forall|j: int| j >= i ==> !occurs_at(line, comment_close(), j),
    ensures
        comment_after(line, i, true),
    decreases line.len() - i,
{
    if i + 2 <= line.len() {
        lemma_comment_stays_open(line, i + 1);
    }
}

/// Outside a block comment no comment is open after a part of a line that
/// holds no opening.
pub proof fn lemma_comment_stays_closed(line: Seq<char>, i: int)
    requires
        0 <= i,
        forall|j: int| j >= i ==> !occurs_at(line, comment_open(), j),
    ensures
        !comment_after(line, i, false),
    decreases line.len() - i,
{
    if i + 2 <= line.len() {
        lemma_comment_stays_closed(line, i + 1);
    }
}

/// A line outside a block comment opens one where it holds an opening, at
/// `k` first, with no closing after it: also where code stands before the
/// opening.
pub proof fn lemma_comment_opens(line: Seq<char>, i: int, k: int)
    requires
        0 <= i <= k,
        occurs_at(line, comment_open(), k),
        forall|j: int| i <= j < k ==> !occurs_at(line, comment_open(), j),
        forall|j: int| j >= k + 2 ==> !occurs_at(line, comment_close(), j),
    ensures
        comment_after(line, i, false),
    decreases k - i,
{
    if i < k {
        lemma_comment_opens(line, i + 1, k);
    } else {
        lemma_comment_stays_open(line, k + 2);
    }
}

/// A line inside a block comment closes it where it holds a closing, at `k`
/// first, with no opening after it.
pub proof fn lemma_comment_closes(line: Seq<char>, i: int, k: int)
    requires
        0 <= i <= k,
        occurs_at(line, comment_close(), k),
        forall|j: int| i <= j < k ==> !occurs_at(line, comment_close(), j),
        forall|j: int| j >= k + 2 ==> !occurs_at(line, comment_open(), j),
    ensures
        !comment_after(line, i, true),
    decreases k - i,
{
    if i < k {
        lemma_comment_closes(line, i + 1, k);
    } else {
        lemma_comment_stays_closed(line, k + 2);
    }
}

/// A line that lies in a block comment, or that holds the opening or the
/// closing of one, adds no test, whatever the patterns would capture in it.
pub proof fn lemma_comments_add_nothing(scan: SourceScan, raw: Seq<char>)
    requires
        scan.in_comment || contains(trimmed(raw), comment_open()) || contains(
            trimmed(raw),
            comment_close(),
        ),
    ensures
        scan_source_line(scan, raw).found == scan.found,
{
}

/// Adding captured descriptions gives no test an empty name.
pub proof fn lemma_add_all_named(os: Seq<Outcome>, found: Seq<Option<Seq<char>>>)
    requires
        all_named(os),
    ensures
        all_named(add_all(os, found)),
    decreases found.len(),
{
    if found.len() > 0 {
        lemma_add_all_named(os, found.drop_last());
    }
}

/// Scanning source lines gives no test an empty name.
pub proof fn lemma_scan_source_named(os: Seq<Outcome>, ls: Seq<Seq<char>>)
    requires
        all_named(os),
    ensures
        all_named(scan_source(os, ls).found),
    decreases ls.len(),
{
    if ls.len() > 0 {
        lemma_scan_source_named(os, ls.drop_last());
        let before = scan_source(os, ls.drop_last());
        let line = trimmed(ls.last());
        let cases = add_found(before.found, case_pattern(), line);
        match first_groups(case_pattern(), line) {
            Some(found) => lemma_add_all_named(before.found, found),
            None => {},
        }
        match first_groups(group_pattern(), line) {
            Some(found) => lemma_add_all_named(cases, found),
            None => {},
        }
    }
}

/// Every test that a source text declares has a name that is not empty.
pub proof fn lemma_declared_are_named(text: Seq<char>)
    ensures
        all_named(declared_outcomes(text)),
{
    lemma_scan_source_named(Seq::empty(), lines(text));
}

/// The tests that a source text declares, without running them. The text is
/// read line by line; blank lines, line comments and every line that a block
/// comment touches are passed over; each description is kept once, in the
/// order in which it is first seen.
pub fn parse_declared(text: &str) -> (out: Vec<TestInfo>)
    ensures
        outcomes(out@) == declared_outcomes(text@),
{
    let chars = to_chars(text);
    let ls = split_lines(chars.as_slice());
    let mut tests: Vec<TestInfo> = Vec::new();
    let mut in_comment = false;
    let mut i: usize = 0;
    assert(views(ls@).subrange(0, 0) =~= Seq::<Seq<char>>::empty());
    assert(outcomes(tests@) =~= Seq::<Outcome>::empty());
    while i < ls.len()
        invariant
            i <= ls@.len(),
            views(ls@) == lines(text@),
            (SourceScan { found: outcomes(tests@), in_comment }) == scan_source(
                Seq::empty(),
                views(ls@).subrange(0, i as int),
            ),
        decreases ls@.len() - i,
    {
        proof {
            let upto = views(ls@).subrange(0, i + 1);
            assert(upto.drop_last() =~= views(ls@).subrange(0, i as int));
            assert(upto.last() == ls@[i as int]@);
        }
        let line = trim(ls[i].as_slice());
        let opening: Vec<char> = vec!['/', '*'];
        let closing: Vec<char> = vec!['*', '/'];
        let slashes: Vec<char> = vec!['/', '/'];
        assert(opening@ =~= comment_open());
        assert(closing@ =~= comment_close());
        assert(slashes@ =~= comment_line());
        if line.len() == 0 || (!in_comment && has_prefix(line.as_slice(), slashes.as_slice())) {
        } else if !in_comment && !has_infix(line.as_slice(), opening.as_slice()) && !has_infix(
            line.as_slice(),
            closing.as_slice(),
        ) {
            let text_line = from_chars(line.as_slice());
            add_matches(&mut tests, "(?:test|it)\\s*\\(\\s*['\"](.+?)['\"]", text_line.as_str());
            add_matches(&mut tests, "describe\\s*\\(\\s*['\"](.+?)['\"]", text_line.as_str());
        } else {
            in_comment = comment_state_after(line.as_slice(), in_comment);
        }
        i += 1;
    }
    assert(views(ls@).subrange(0, i as int) =~= views(ls@));
    tests
}

} // verus!
