use vstd::prelude::*;

verus! {

/// What is known of one test case, as a mathematical value.
pub ghost struct Outcome {
    /// The description that the test was declared with.
    pub name: Seq<char>,
    /// Whether the test passed.
    pub passed: bool,
    /// The failure detail gathered for the test.
    pub error: Option<Seq<char>>,
    /// How long the test ran, in milliseconds.
    pub duration: Option<u64>,
}

/// One test case: found in a source file, or reported by a run.
#[derive(Debug, Clone)]
pub struct TestInfo {
    /// The description that the test was declared with.
    pub name: String,
    /// Whether the test passed.
    pub passed: bool,
    /// The failure detail gathered for the test.
    pub error: Option<String>,
    /// How long the test ran, in milliseconds.
    pub duration: Option<u64>,
}

impl View for TestInfo {
    type V = Outcome;

    open spec fn view(&self) -> Outcome {
        Outcome {
            name: self.name@,
            passed: self.passed,
            error: match self.error {
                Some(e) => Some(e@),
                None => None,
            },
            duration: self.duration,
        }
    }
}

/// The outcomes that a list of test cases holds.
pub open spec fn outcomes(v: Seq<TestInfo>) -> Seq<Outcome> {
    Seq::new(v.len(), |i: int| v[i]@)
}

/// `outcomes` goes through `push`.
pub proof fn lemma_outcomes_push(v: Seq<TestInfo>, t: TestInfo)
    ensures
        outcomes(v.push(t)) == outcomes(v).push(t@),
{
    assert(outcomes(v.push(t)) =~= outcomes(v).push(t@));
}

/// A test case that was declared and has not run: not passed, no failure
/// detail, no duration.
pub open spec fn declared(name: Seq<char>) -> Outcome {
    Outcome { name, passed: false, error: None, duration: None }
}

/// Whether each of `os` has a name that is not empty.
pub open spec fn all_named(os: Seq<Outcome>) -> bool {
    forall|i: int| 0 <= i < os.len() ==> (#[trigger] os[i]).name.len() > 0
}

} // verus!
