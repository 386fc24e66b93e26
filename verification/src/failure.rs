//! The failure of a check: what went wrong, and on the way to what.

use vstd::prelude::*;

verus! {

/// A failure as plain text: the message, and the contexts that were laid
/// around it, the first of them nearest to the message.
pub struct FailureView {
    pub message: Seq<char>,
    pub context: Seq<Seq<char>>,
}

/// Why a check failed.
#[derive(Debug)]
pub struct Failure {
    pub message: String,
    pub context: Vec<String>,
}

impl View for Failure {
    type V = FailureView;

    open spec fn view(&self) -> FailureView {
        FailureView { message: self.message@, context: self.context.deep_view() }
    }
}

/// A failure that carries `message` and no context.
pub open spec fn bare(message: Seq<char>) -> FailureView {
    FailureView { message, context: Seq::empty() }
}

/// The failure `inner` with `context` laid around it.
pub open spec fn wrapped(inner: FailureView, context: Seq<char>) -> FailureView {
    FailureView { message: inner.message, context: inner.context.push(context) }
}

/// The text of two values that should have been equal and were not.
pub open spec fn mismatch_text(observed: Seq<char>, expected: Seq<char>) -> Seq<char> {
    "Failed asserting that "@ + observed + " equals "@ + expected
}

/// A failure on one line: the contexts from the outermost inwards, then the
/// message, with a colon and a space between each two.
pub open spec fn rendered(failure: FailureView) -> Seq<char>
    decreases failure.context.len(),
{
    if failure.context.len() == 0 {
        failure.message
    } else {
        failure.context.last() + ": "@ + rendered(
            FailureView { message: failure.message, context: failure.context.drop_last() },
        )
    }
}

/// A context that is laid around a failure goes before all that the
/// failure showed until then.
pub proof fn lemma_rendered_wrapped(inner: FailureView, context: Seq<char>)
    ensures
        rendered(wrapped(inner, context)) == context + ": "@ + rendered(inner),
{
    let outer = wrapped(inner, context);
    assert(outer.context.last() == context);
    assert(outer.context.drop_last() =~= inner.context);
}

/// What went wrong in a check that has run: nothing, or its failure.
pub open spec fn failure_of(outcome: Result<(), Failure>) -> Option<FailureView> {
    match outcome {
        Ok(_) => None,
        Err(failure) => Some(failure@),
    }
}

/// The failure, if there is one, with `context` laid around it.
pub open spec fn in_context(failure: Option<FailureView>, context: Seq<char>) -> Option<
    FailureView,
> {
    match failure {
        None => None,
        Some(inner) => Some(wrapped(inner, context)),
    }
}

/// The first of two checks that failed.
pub open spec fn or_else(first: Option<FailureView>, second: Option<FailureView>) -> Option<
    FailureView,
> {
    if first is Some {
        first
    } else {
        second
    }
}

/// The failure of the first of the checks `0 .. count` that fails.
pub open spec fn first_failure(count: int, check: spec_fn(int) -> Option<FailureView>) -> Option<
    FailureView,
>
    decreases count,
{
    if count <= 0 {
        None
    } else {
        or_else(first_failure(count - 1, check), check(count - 1))
    }
}

/// Once one of the checks has failed, those that follow change nothing.
pub proof fn lemma_first_failure_stays(
    upto: int,
    count: int,
    check: spec_fn(int) -> Option<FailureView>,
)
    requires
        upto <= count,
        first_failure(upto, check) is Some,
    ensures
        first_failure(count, check) == first_failure(upto, check),
    decreases count - upto,
{
    if upto < count {
        lemma_first_failure_stays(upto, count - 1, check);
    }
}

/// The checks `0 .. count` pass together exactly when each of them passes.
pub proof fn lemma_first_failure_none(count: int, check: spec_fn(int) -> Option<FailureView>)
    ensures
        first_failure(count, check) is None <==> forall|i: int|
            0 <= i < count ==> (#[trigger] check(i)) is None,
    decreases count,
{
    if count > 0 {
        lemma_first_failure_none(count - 1, check);
        if first_failure(count, check) is None {
            assert forall|i: int| 0 <= i < count implies (#[trigger] check(i)) is None by {
                if i < count - 1 {
                } else {
                    assert(i == count - 1);
                }
            }
        }
    }
}

/// Where the checks `0 .. count` fail together, the failure is that of
/// one of them, and all before that one pass.
pub proof fn lemma_first_failure_is_one_of(
    count: int,
    check: spec_fn(int) -> Option<FailureView>,
) -> (at: int)
    requires
        first_failure(count, check) is Some,
    ensures
        0 <= at < count,
        check(at) == first_failure(count, check),
        forall|i: int| 0 <= i < at ==> (#[trigger] check(i)) is None,
    decreases count,
{
    if first_failure(count - 1, check) is Some {
        lemma_first_failure_is_one_of(count - 1, check)
    } else {
        lemma_first_failure_none(count - 1, check);
        count - 1
    }
}

/// Checks that yield the same one by one fail together in the same way.
pub proof fn lemma_first_failure_same(
    count: int,
    check: spec_fn(int) -> Option<FailureView>,
    other: spec_fn(int) -> Option<FailureView>,
)
    requires
        forall|i: int| 0 <= i < count ==> #[trigger] check(i) == other(i),
    ensures
        first_failure(count, check) == first_failure(count, other),
    decreases count,
{
    if count > 0 {
        lemma_first_failure_same(count - 1, check, other);
        assert(check(count - 1) == other(count - 1));
    }
}

/// Lays `context` around the failure of a check, if it failed.
pub fn wrap_err(outcome: Result<(), Failure>, context: &str) -> (wrapped: Result<(), Failure>)
    ensures
        failure_of(wrapped) == in_context(failure_of(outcome), context@),
{
    match outcome {
        Ok(done) => Ok(done),
        Err(failure) => Err(failure.wrap(String::from_str(context))),
    }
}

/// Lays a context around the failure of a check, if it failed: `what`
/// followed by `name`.
pub fn wrap_err_for(outcome: Result<(), Failure>, what: &str, name: &str) -> (wrapped: Result<
    (),
    Failure,
>)
    ensures
        failure_of(wrapped) == in_context(failure_of(outcome), what@ + name@),
{
    match outcome {
        Ok(done) => Ok(done),
        Err(failure) => {
            let mut context = String::from_str(what);
            context.append(name);
            Err(failure.wrap(context))
        },
    }
}

impl Failure {
    /// A failure with the given message.
    pub fn msg(message: String) -> (failure: Failure)
        ensures
            failure@ == bare(message@),
    {
        let failure = Failure { message, context: Vec::new() };
        assert(failure.context.deep_view() =~= Seq::<Seq<char>>::empty());
        failure
    }

    /// The failure of two values that should have been equal: `observed` and
    /// `expected` are the values as text.
    pub fn mismatch(observed: &str, expected: &str) -> (failure: Failure)
        ensures
            failure@ == bare(mismatch_text(observed@, expected@)),
    {
        let mut message = String::from_str("Failed asserting that ");
        message.append(observed);
        message.append(" equals ");
        message.append(expected);
        Failure::msg(message)
    }

    /// Lays `context` around the failure.
    pub fn wrap(self, context: String) -> (failure: Failure)
        ensures
            failure@ == wrapped(self@, context@),
    {
        let mut layers = self.context;
        let ghost before = layers.deep_view();
        layers.push(context);
        assert(layers.deep_view() =~= before.push(context@));
        Failure { message: self.message, context: layers }
    }

    /// The failure on one line.
    pub fn render(&self) -> (line: String)
        ensures
            line@ == rendered(self@),
    {
        let mut line = String::new();
        let mut left: usize = self.context.len();
        proof {
            let layers = self.context.deep_view();
            assert(layers.take(left as int) =~= layers);
            assert(line@ + rendered(self@) =~= rendered(self@));
        }
        while left > 0
            invariant
                left <= self.context.len(),
                line@ + rendered(
                    FailureView {
                        message: self.message@,
                        context: self.context.deep_view().take(left as int),
                    },
                ) == rendered(self@),
            decreases left,
        {
            let ghost layers = self.context.deep_view().take(left as int);
            left = left - 1;
            line.append(self.context[left].as_str());
            line.append(": ");
            proof {
                assert(layers.last() == self.context[left as int]@);
                assert(layers.drop_last() =~= self.context.deep_view().take(left as int));
            }
        }
        line.append(self.message.as_str());
        proof {
            assert(self.context.deep_view().take(0) =~= Seq::<Seq<char>>::empty());
        }
        line
    }
}

} // verus!
