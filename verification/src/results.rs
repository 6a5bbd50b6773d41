use crate::outcome::{all_named, lemma_outcomes_push, outcomes, Outcome, TestInfo};
use crate::text::{
    contains, find, from_chars, has_infix, has_prefix, index_of, lemma_find_from, lines,
    number_of, parse_u64, slice_chars, split_lines, starts_with, to_chars, trim, trimmed, views,
};
use vstd::prelude::*;

verus! {

/// The glyph that a run prints before a test that passed.
pub open spec fn pass_glyph() -> Seq<char> {
    seq!['\u{2713}']
}

/// The word that a run prints before what passed.
pub open spec fn pass_word() -> Seq<char> {
    seq!['P', 'A', 'S', 'S']
}

/// The glyph that a run prints before a test that failed.
pub open spec fn fail_glyph() -> Seq<char> {
    seq!['\u{d7}']
}

/// The word that a run prints before what failed.
pub open spec fn fail_word() -> Seq<char> {
    seq!['F', 'A', 'I', 'L']
}

/// The text that marks a line of failure detail.
pub open spec fn error_tag() -> Seq<char> {
    seq!['E', 'r', 'r', 'o', 'r', ':']
}

/// Whether a trimmed line reports a test that passed.
pub open spec fn pass_marker(line: Seq<char>) -> bool {
    starts_with(line, pass_glyph()) || starts_with(line, pass_word())
}

/// Whether a trimmed line reports a test that failed.
pub open spec fn fail_marker(line: Seq<char>) -> bool {
    starts_with(line, fail_glyph()) || starts_with(line, fail_word())
}

/// What follows the first space of `line`.
pub open spec fn after_first_space(line: Seq<char>) -> Option<Seq<char>> {
    match find(line, seq![' ']) {
        Some(k) => Some(line.subrange(k + 1, line.len() as int)),
        None => None,
    }
}

/// Where the bracketed part of a name field opens and closes: its first
/// opening bracket and its first closing bracket, where that one comes
/// later.
pub open spec fn bracketed(field: Seq<char>) -> Option<(int, int)> {
    match (find(field, seq!['(']), find(field, seq![')'])) {
        (Some(open), Some(close)) => if open < close {
            Some((open, close))
        } else {
            None
        },
        _ => None,
    }
}

/// The duration that a name field reports: the number before `ms` in its
/// bracketed part.
pub open spec fn reported_duration(field: Seq<char>) -> Option<u64> {
    match bracketed(field) {
        Some((open, close)) => {
            let inner = field.subrange(open + 1, close);
            match find(inner, seq!['m', 's']) {
                Some(m) => number_of(trimmed(inner.subrange(0, m))),
                None => None,
            }
        },
        None => None,
    }
}

/// The name that a name field holds: what stands before its bracketed part.
pub open spec fn reported_name(field: Seq<char>) -> Seq<char> {
    match bracketed(field) {
        Some((open, close)) => trimmed(field.subrange(0, open)),
        None => field,
    }
}

/// The outcome that a marker line starts, if its name field holds a name.
pub open spec fn started(line: Seq<char>, passed: bool) -> Option<Outcome> {
    match after_first_space(line) {
        Some(rest) => {
            let field = trimmed(rest);
            if reported_name(field).len() == 0 {
                None
            } else {
                Some(
                    Outcome {
                        name: reported_name(field),
                        passed,
                        error: if passed {
                            None
                        } else {
                            Some(Seq::empty())
                        },
                        duration: reported_duration(field),
                    },
                )
            }
        },
        None => None,
    }
}

/// Where a scan of a run's output stands: the outcomes that are complete,
/// and the one that the last marker started.
pub ghost struct Scan {
    /// The outcomes that are complete, in the order of their markers.
    pub done: Seq<Outcome>,
    /// The outcome that is still gathering failure detail.
    pub current: Option<Outcome>,
}

/// The complete outcomes once the one in progress is added to them.
pub open spec fn flushed(scan: Scan) -> Seq<Outcome> {
    match scan.current {
        Some(o) => scan.done.push(o),
        None => scan.done,
    }
}

/// `o` with one more line of failure detail.
pub open spec fn with_detail(o: Outcome, line: Seq<char>) -> Outcome {
    Outcome {
        error: match o.error {
            Some(e) => Some(e + line + seq!['\n']),
            None => None,
        },
        ..o
    }
}

/// The scan after one more line of output.
pub open spec fn scan_line(scan: Scan, raw: Seq<char>) -> Scan {
    let line = trimmed(raw);
    if pass_marker(line) {
        Scan { done: flushed(scan), current: started(line, true) }
    } else if fail_marker(line) {
        Scan { done: flushed(scan), current: started(line, false) }
    } else {
        match scan.current {
            Some(o) => if !o.passed && contains(line, error_tag()) {
                Scan { done: scan.done, current: Some(with_detail(o, line)) }
            } else {
                scan
            },
            None => scan,
        }
    }
}

/// The scan after the lines `ls`.
pub open spec fn scan_lines(ls: Seq<Seq<char>>) -> Scan
    decreases ls.len(),
{
    if ls.len() == 0 {
        Scan { done: Seq::empty(), current: None }
    } else {
        scan_line(scan_lines(ls.drop_last()), ls.last())
    }
}

/// The outcomes that the output of a run reports, in the order of their
/// markers.
pub open spec fn executed_outcomes(text: Seq<char>) -> Seq<Outcome> {
    flushed(scan_lines(lines(text)))
}

/// Whatever the lines, each outcome of a scan has a name that is not empty:
/// the complete ones and the one in progress.
pub proof fn lemma_scan_lines_named(ls: Seq<Seq<char>>)
    ensures
        all_named(scan_lines(ls).done),
        scan_lines(ls).current is Some ==> scan_lines(ls).current->0.name.len() > 0,
    decreases ls.len(),
{
    if ls.len() > 0 {
        lemma_scan_lines_named(ls.drop_last());
    }
}

/// Every outcome that the output of a run reports has a name that is not
/// empty.
pub proof fn lemma_executed_are_named(text: Seq<char>)
    ensures
        all_named(executed_outcomes(text)),
{
    lemma_scan_lines_named(lines(text));
}

/// An outcome that is still gathering failure detail.
struct Pending {
    name: Vec<char>,
    passed: bool,
    detail: Vec<char>,
    duration: Option<u64>,
}

impl Pending {
    /// The outcome that this stands for.
    spec fn model(&self) -> Outcome {
        Outcome {
            name: self.name@,
            passed: self.passed,
            error: if self.passed {
                None
            } else {
                Some(self.detail@)
            },
            duration: self.duration,
        }
    }

    /// The finished test case.
    fn finish(&self) -> (out: TestInfo)
        ensures
            out@ == self.model(),
    {
        let error = if self.passed {
            None
        } else {
            Some(from_chars(self.detail.as_slice()))
        };
        TestInfo {
            name: from_chars(self.name.as_slice()),
            passed: self.passed,
            error,
            duration: self.duration,
        }
    }
}

/// The outcome in progress, as the model has it.
spec fn model_of(current: Option<Pending>) -> Option<Outcome> {
    match current {
        Some(p) => Some(p.model()),
        None => None,
    }
}

/// Decides `pass_marker`.
pub fn is_pass_marker(line: &[char]) -> (b: bool)
    ensures
        b == pass_marker(line@),
{
    let glyph: Vec<char> = vec!['\u{2713}'];
    let word: Vec<char> = vec!['P', 'A', 'S', 'S'];
    assert(glyph@ =~= pass_glyph());
    assert(word@ =~= pass_word());
    has_prefix(line, glyph.as_slice()) || has_prefix(line, word.as_slice())
}

/// Decides `fail_marker`.
pub fn is_fail_marker(line: &[char]) -> (b: bool)
    ensures
        b == fail_marker(line@),
{
    let glyph: Vec<char> = vec!['\u{d7}'];
    let word: Vec<char> = vec!['F', 'A', 'I', 'L'];
    assert(glyph@ =~= fail_glyph());
    assert(word@ =~= fail_word());
    has_prefix(line, glyph.as_slice()) || has_prefix(line, word.as_slice())
}

/// Whether a trimmed line holds failure detail.
pub fn has_error_tag(line: &[char]) -> (b: bool)
    ensures
        b == contains(line@, error_tag()),
{
    let tag: Vec<char> = vec!['E', 'r', 'r', 'o', 'r', ':'];
    assert(tag@ =~= error_tag());
    has_infix(line, tag.as_slice())
}

/// Computes `bracketed`.
fn bracket_bounds(field: &[char]) -> (r: Option<(usize, usize)>)
    ensures
        match r {
            Some((open, close)) => bracketed(field@) == Some((open as int, close as int)) && open
                < close < field@.len(),
            None => bracketed(field@) is None,
        },
{
    let opening: Vec<char> = vec!['('];
    let closing: Vec<char> = vec![')'];
    assert(opening@ =~= seq!['(']);
    assert(closing@ =~= seq![')']);
    proof {
        lemma_find_from(field@, seq![')'], 0);
    }
    match (index_of(field, opening.as_slice()), index_of(field, closing.as_slice())) {
        (Some(open), Some(close)) => if open < close {
            Some((open, close))
        } else {
            None
        },
        _ => None,
    }
}

/// Computes `reported_duration`.
pub fn duration_in(field: &[char]) -> (r: Option<u64>)
    ensures
        r == reported_duration(field@),
{
    match bracket_bounds(field) {
        Some((open, close)) => {
            let inner = slice_chars(field, open + 1, close);
            let unit: Vec<char> = vec!['m', 's'];
            assert(unit@ =~= seq!['m', 's']);
            proof {
                lemma_find_from(inner@, seq!['m', 's'], 0);
            }
            match index_of(inner.as_slice(), unit.as_slice()) {
                Some(m) => {
                    let digits = slice_chars(inner.as_slice(), 0, m);
                    let number = trim(digits.as_slice());
                    parse_u64(number.as_slice())
                },
                None => None,
            }
        },
        None => None,
    }
}

/// Computes `reported_name`.
pub fn name_in(field: &[char]) -> (r: Vec<char>)
    ensures
        r@ == reported_name(field@),
{
    match bracket_bounds(field) {
        Some((open, close)) => {
            let before = slice_chars(field, 0, open);
            trim(before.as_slice())
        },
        None => {
            let whole = slice_chars(field, 0, field.len());
            assert(field@.subrange(0, field@.len() as int) =~= field@);
            whole
        },
    }
}

/// Computes `started`.
fn start(line: &[char], passed: bool) -> (r: Option<Pending>)
    ensures
        model_of(r) == started(line@, passed),
{
    let space: Vec<char> = vec![' '];
    assert(space@ =~= seq![' ']);
    proof {
        lemma_find_from(line@, seq![' '], 0);
    }
    match index_of(line, space.as_slice()) {
        Some(k) => {
            let n = line.len();
            assert(crate::text::occurs_at(line@, seq![' '], k as int));
            let rest = slice_chars(line, k + 1, n);
            let field = trim(rest.as_slice());
            let name = name_in(field.as_slice());
            if name.len() == 0 {
                None
            } else {
                let duration = duration_in(field.as_slice());
                let p = Pending { name, passed, detail: Vec::new(), duration };
                assert(p.model() == started(line@, passed)->0);
                Some(p)
            }
        },
        None => None,
    }
}

/// Appends the characters `src` to `dst`.
pub fn append_chars(dst: &mut Vec<char>, src: &[char])
    ensures
        final(dst)@ == old(dst)@ + src@,
{
    let mut i: usize = 0;
    assert(dst@ =~= old(dst)@ + src@.subrange(0, 0));
    while i < src.len()
        invariant
            i <= src@.len(),
            dst@ == old(dst)@ + src@.subrange(0, i as int),
        decreases src@.len() - i,
    {
        dst.push(src[i]);
        assert(dst@ =~= old(dst)@ + src@.subrange(0, i + 1));
        i += 1;
    }
    assert(src@.subrange(0, i as int) =~= src@);
}

/// The test outcomes that the output of a run reports. A line that begins,
/// after white space, with a pass or fail marker starts an outcome; the
/// lines up to the next marker that hold the error tag are the failure
/// detail of a failed one; every other line is passed over.
pub fn parse_executed(text: &str) -> (out: Vec<TestInfo>)
    ensures
        outcomes(out@) == executed_outcomes(text@),
{
    let chars = to_chars(text);
    let ls = split_lines(chars.as_slice());
    let mut done: Vec<TestInfo> = Vec::new();
    let mut current: Option<Pending> = None;
    let mut i: usize = 0;
    assert(views(ls@).subrange(0, 0) =~= Seq::<Seq<char>>::empty());
    assert(outcomes(done@) =~= Seq::<Outcome>::empty());
    while i < ls.len()
        invariant
            i <= ls@.len(),
            views(ls@) == lines(text@),
            (Scan { done: outcomes(done@), current: model_of(current) }) == scan_lines(
                views(ls@).subrange(0, i as int),
            ),
        decreases ls@.len() - i,
    {
        let ghost before = Scan { done: outcomes(done@), current: model_of(current) };
        proof {
            let upto = views(ls@).subrange(0, i + 1);
            assert(upto.drop_last() =~= views(ls@).subrange(0, i as int));
            assert(upto.last() == ls@[i as int]@);
        }
        let line = trim(ls[i].as_slice());
        let pass = is_pass_marker(line.as_slice());
        let fail = !pass && is_fail_marker(line.as_slice());
        if pass || fail {
            match &current {
                Some(p) => {
                    let t = p.finish();
                    proof {
                        lemma_outcomes_push(done@, t);
                    }
                    done.push(t);
                },
                None => {},
            }
            current = start(line.as_slice(), pass);
        } else {
            match current {
                Some(mut p) => {
                    if !p.passed && has_error_tag(line.as_slice()) {
                        let ghost earlier = p.detail@;
                        append_chars(&mut p.detail, line.as_slice());
                        p.detail.push('\n');
                        assert(p.detail@ =~= earlier + line@ + seq!['\n']);
                        assert(p.model() == with_detail(before.current->0, line@));
                    }
                    current = Some(p);
                },
                None => {},
            }
        }
        assert((Scan { done: outcomes(done@), current: model_of(current) }) == scan_line(
            before,
            ls@[i as int]@,
        ));
        i += 1;
    }
    assert(views(ls@).subrange(0, i as int) =~= views(ls@));
    match &current {
        Some(p) => {
            let t = p.finish();
            proof {
                lemma_outcomes_push(done@, t);
            }
            done.push(t);
        },
        None => {},
    }
    done
}

} // verus!
