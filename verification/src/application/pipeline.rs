//! The pipeline: an ordered list of stages, run one after the other.

use std::sync::Arc;
use vstd::prelude::*;
use crate::domain::models::error::{DomainError, DomainErrorView};
use crate::domain::models::exchange::{Exchange, ExchangeView};
use crate::domain::ports::processor::{outcome_of, Outcome, Processor};

verus! {

/// Whether the stages, run in order on `input`, may hand back `output`.
///
/// With no stage left, the input itself comes out. Otherwise the first stage
/// runs: if it fails, its failure is the output and no later stage has a say;
/// if it hands back an exchange, the remaining stages run on that exchange.
pub open spec fn runs_to(
    stages: Seq<Arc<dyn Processor>>,
    input: ExchangeView,
    output: Outcome,
) -> bool
    decreases stages.len(),
{
    if stages.len() == 0 {
        output == Outcome::Ok(input)
    } else {
        ||| output is Err && stages[0].yields(input, output)
        ||| exists|middle: ExchangeView| #[trigger]
            stages[0].yields(input, Ok(middle)) && runs_to(stages.skip(1), middle, output)
    }
}

/// Whether the stages, run in order on `input`, all succeed and hand the
/// exchanges of `trail` from one to the next: `trail[0]` is the input, and
/// `trail[i + 1]` is what stage `i` made of `trail[i]`.
pub open spec fn passes_along(
    stages: Seq<Arc<dyn Processor>>,
    input: ExchangeView,
    trail: Seq<ExchangeView>,
) -> bool {
    &&& trail.len() == stages.len() + 1
    &&& trail[0] == input
    &&& forall|i: int| 0 <= i < stages.len() ==> #[trigger] stages[i].yields(trail[i], Ok(trail[i + 1]))
}

/// Puts `item` at the end of `list`.
fn append<T>(item: T, list: &mut Vec<T>)
    ensures
        final(list)@ == old(list)@ + seq![item],
{
    list.push(item);
    assert(final(list)@ =~= old(list)@ + seq![item]);
}

/// An ordered list of stages. Running it hands an exchange from stage to
/// stage, in the order in which the stages were added, and stops at the first
/// stage that fails.
pub struct ProcessorPipeline {
    processors: Vec<Arc<dyn Processor>>,
}

impl ProcessorPipeline {
    /// The stages, in the order in which they run.
    pub closed spec fn view(&self) -> Seq<Arc<dyn Processor>> {
        self.processors@
    }

    /// A pipeline without stages.
    pub fn new() -> (pipeline: Self)
        ensures
            pipeline@ == Seq::<Arc<dyn Processor>>::empty(),
    {
        ProcessorPipeline { processors: Vec::new() }
    }

    /// Adds `processor` as the last stage. The stages before it stay as they
    /// are, also where the same processor is among them already.
    pub fn add_processor(&mut self, processor: Arc<dyn Processor>)
        ensures
            final(self)@.len() == old(self)@.len() + 1,
            final(self)@.drop_last() == old(self)@,
            final(self)@.last() == processor,
    {
        append(processor, &mut self.processors);
        assert(final(self)@.drop_last() =~= old(self)@);
    }

    /// The number of stages.
    pub fn len(&self) -> (count: usize)
        ensures
            count == self@.len(),
    {
        self.processors.len()
    }

    /// Runs the stages in order on `exchange`: each stage gets what the stage
    /// before it handed back, the first one gets `exchange`. The first failure
    /// ends the run and is handed back as it is.
    pub fn process(&self, exchange: Exchange) -> (result: Result<Exchange, DomainError>)
        ensures
            runs_to(self@, exchange@, outcome_of(result)),
    {
        let mut current = exchange;
        let mut i: usize = 0;
        assert(self@.skip(0) =~= self@);
        while i < self.processors.len()
            invariant
                0 <= i <= self.processors.len(),
                forall|output: Outcome| #[trigger]
                    runs_to(self@.skip(i as int), current@, output) ==> runs_to(
                        self@,
                        exchange@,
                        output,
                    ),
            decreases self.processors.len() - i,
        {
            let ghost rest = self@.skip(i as int);
            let ghost before = current@;
            proof {
                assert(rest[0] == self@[i as int]);
                assert(rest.skip(1) =~= self@.skip(i + 1));
            }
            match self.processors[i].process(current) {
                Ok(next) => {
                    proof {
                        assert forall|output: Outcome| #[trigger]
                            runs_to(self@.skip(i + 1), next@, output) implies runs_to(
                            self@,
                            exchange@,
                            output,
                        ) by {
                            assert(rest[0].yields(before, Ok(next@)));
                            assert(runs_to(rest, before, output));
                        }
                    }
                    current = next;
                },
                Err(error) => {
                    proof {
                        assert(runs_to(rest, before, Err(error@)));
                    }
                    return Err(error);
                },
            }
            i += 1;
        }
        proof {
            assert(self@.skip(i as int).len() == 0);
            assert(runs_to(self@.skip(i as int), current@, Ok(current@)));
        }
        Ok(current)
    }
}

/// A pipeline without stages hands every exchange back as it came in.
pub proof fn lemma_no_stage_changes_nothing(
    stages: Seq<Arc<dyn Processor>>,
    input: ExchangeView,
    output: Outcome,
)
    requires
        stages.len() == 0,
    ensures
        runs_to(stages, input, output) <==> output == Outcome::Ok(input),
{
}

/// A pipeline of one stage does what that stage does.
pub proof fn lemma_single_stage(
    stages: Seq<Arc<dyn Processor>>,
    input: ExchangeView,
    output: Outcome,
)
    requires
        stages.len() == 1,
    ensures
        runs_to(stages, input, output) <==> stages[0].yields(input, output),
{
    assert(stages.skip(1).len() == 0);
    if runs_to(stages, input, output) && !(output is Err && stages[0].yields(input, output)) {
        let middle = choose|middle: ExchangeView| #[trigger]
            stages[0].yields(input, Ok(middle)) && runs_to(stages.skip(1), middle, output);
        assert(output == Outcome::Ok(middle));
    }
    if stages[0].yields(input, output) && output is Ok {
        let middle = output->Ok_0;
        assert(stages[0].yields(input, Ok(middle)) && runs_to(stages.skip(1), middle, output));
    }
}

/// Running one list of stages after another is running the two lists as one:
/// a failure among the first stages is the outcome, and the later stages have
/// no say; an exchange that the first stages hand back goes into the later
/// ones.
pub proof fn lemma_stages_compose(
    first: Seq<Arc<dyn Processor>>,
    later: Seq<Arc<dyn Processor>>,
    input: ExchangeView,
    output: Outcome,
)
    ensures
        runs_to(first + later, input, output) <==> {
            ||| output is Err && runs_to(first, input, output)
            ||| exists|middle: ExchangeView| #[trigger]
                runs_to(first, input, Ok(middle)) && runs_to(later, middle, output)
        },
    decreases first.len(),
{
    let all = first + later;
    if first.len() == 0 {
        assert(all =~= later);
        if runs_to(later, input, output) {
            assert(runs_to(first, input, Ok(input)) && runs_to(later, input, output));
        }
    } else {
        assert(all[0] == first[0]);
        assert(all.skip(1) =~= first.skip(1) + later);
        if runs_to(all, input, output) {
            if !(output is Err && all[0].yields(input, output)) {
                let step = choose|step: ExchangeView| #[trigger]
                    all[0].yields(input, Ok(step)) && runs_to(all.skip(1), step, output);
                lemma_stages_compose(first.skip(1), later, step, output);
                if output is Err && runs_to(first.skip(1), step, output) {
                    assert(first[0].yields(input, Ok(step)) && runs_to(
                        first.skip(1),
                        step,
                        output,
                    ));
                } else {
                    let middle = choose|middle: ExchangeView| #[trigger]
                        runs_to(first.skip(1), step, Ok(middle)) && runs_to(later, middle, output);
                    assert(first[0].yields(input, Ok(step)) && runs_to(
                        first.skip(1),
                        step,
                        Ok(middle),
                    ));
                    assert(runs_to(first, input, Ok(middle)) && runs_to(later, middle, output));
                }
            }
        }
        if output is Err && runs_to(first, input, output) {
            if !first[0].yields(input, output) {
                let step = choose|step: ExchangeView| #[trigger]
                    first[0].yields(input, Ok(step)) && runs_to(first.skip(1), step, output);
                lemma_stages_compose(first.skip(1), later, step, output);
                assert(all[0].yields(input, Ok(step)) && runs_to(all.skip(1), step, output));
            }
        }
        if exists|middle: ExchangeView| #[trigger]
            runs_to(first, input, Ok(middle)) && runs_to(later, middle, output) {
            let middle = choose|middle: ExchangeView| #[trigger]
                runs_to(first, input, Ok(middle)) && runs_to(later, middle, output);
            let step = choose|step: ExchangeView| #[trigger]
                first[0].yields(input, Ok(step)) && runs_to(first.skip(1), step, Ok(middle));
            lemma_stages_compose(first.skip(1), later, step, output);
            assert(runs_to(first.skip(1), step, Ok(middle)) && runs_to(later, middle, output));
            assert(all[0].yields(input, Ok(step)) && runs_to(all.skip(1), step, output));
        }
    }
}

/// A pipeline fails exactly when one of its stages fails on what the stages
/// before it made of the input, and its failure is the failure of that stage.
/// The stages after it have no say in the outcome.
pub proof fn lemma_failure_is_of_one_stage(
    stages: Seq<Arc<dyn Processor>>,
    input: ExchangeView,
    failure: DomainErrorView,
)
    ensures
        runs_to(stages, input, Err(failure)) <==> exists|k: int, middle: ExchangeView|
            {
                &&& 0 <= k < stages.len()
                &&& #[trigger] runs_to(stages.take(k), input, Ok(middle))
                &&& stages[k].yields(middle, Err(failure))
            },
{
    let output = Outcome::Err(failure);
    if runs_to(stages, input, output) {
        lemma_failing_stage_exists(stages, input, failure);
    }
    if exists|k: int, middle: ExchangeView|
        {
            &&& 0 <= k < stages.len()
            &&& #[trigger] runs_to(stages.take(k), input, Ok(middle))
            &&& stages[k].yields(middle, Err(failure))
        } {
        let (k, middle) = choose|k: int, middle: ExchangeView|
            {
                &&& 0 <= k < stages.len()
                &&& #[trigger] runs_to(stages.take(k), input, Ok(middle))
                &&& stages[k].yields(middle, Err(failure))
            };
        let rest = stages.skip(k);
        assert(stages =~= stages.take(k) + rest);
        assert(rest[0] == stages[k]);
        assert(runs_to(rest, middle, output));
        lemma_stages_compose(stages.take(k), rest, input, output);
    }
}

/// Where a pipeline fails, one of its stages failed with that failure on what
/// the stages before it made of the input.
proof fn lemma_failing_stage_exists(
    stages: Seq<Arc<dyn Processor>>,
    input: ExchangeView,
    failure: DomainErrorView,
)
    requires
        runs_to(stages, input, Err(failure)),
    ensures
        exists|k: int, middle: ExchangeView|
            {
                &&& 0 <= k < stages.len()
                &&& #[trigger] runs_to(stages.take(k), input, Ok(middle))
                &&& stages[k].yields(middle, Err(failure))
            },
    decreases stages.len(),
{
    let output = Outcome::Err(failure);
    if stages[0].yields(input, output) {
        assert(stages.take(0).len() == 0);
        assert(runs_to(stages.take(0), input, Ok(input)));
    } else {
        let step = choose|step: ExchangeView| #[trigger]
            stages[0].yields(input, Ok(step)) && runs_to(stages.skip(1), step, output);
        let rest = stages.skip(1);
        lemma_failing_stage_exists(rest, step, failure);
        let (k, middle) = choose|k: int, middle: ExchangeView|
            {
                &&& 0 <= k < rest.len()
                &&& #[trigger] runs_to(rest.take(k), step, Ok(middle))
                &&& rest[k].yields(middle, Err(failure))
            };
        let front = stages.take(k + 1);
        assert(front[0] == stages[0]);
        assert(front.skip(1) =~= rest.take(k));
        assert(front[0].yields(input, Ok(step)) && runs_to(front.skip(1), step, Ok(middle)));
        assert(runs_to(stages.take(k + 1), input, Ok(middle)));
        assert(stages[k + 1] == rest[k]);
    }
}

/// A pipeline succeeds exactly when its stages hand exchanges along from the
/// input to the outcome: the outcome is what the last stage made of what the
/// stage before it made, and so on back to the first stage and the input.
pub proof fn lemma_success_passes_along(
    stages: Seq<Arc<dyn Processor>>,
    input: ExchangeView,
    out: ExchangeView,
)
    ensures
        runs_to(stages, input, Ok(out)) <==> exists|trail: Seq<ExchangeView>| #[trigger]
            passes_along(stages, input, trail) && trail.last() == out,
    decreases stages.len(),
{
    let output = Outcome::Ok(out);
    if stages.len() == 0 {
        if runs_to(stages, input, output) {
            let trail = seq![input];
            assert(passes_along(stages, input, trail) && trail.last() == out);
        }
    } else {
        let rest = stages.skip(1);
        if runs_to(stages, input, output) {
            let step = choose|step: ExchangeView| #[trigger]
                stages[0].yields(input, Ok(step)) && runs_to(rest, step, output);
            lemma_success_passes_along(rest, step, out);
            let tail = choose|tail: Seq<ExchangeView>| #[trigger]
                passes_along(rest, step, tail) && tail.last() == out;
            let trail = seq![input] + tail;
            assert forall|i: int| 0 <= i < stages.len() implies #[trigger] stages[i].yields(
                trail[i],
                Ok(trail[i + 1]),
            ) by {
                if i > 0 {
                    assert(rest[i - 1].yields(tail[i - 1], Ok(tail[i])));
                    assert(stages[i] == rest[i - 1]);
                }
            }
            assert(passes_along(stages, input, trail) && trail.last() == out);
        }
        if exists|trail: Seq<ExchangeView>| #[trigger]
            passes_along(stages, input, trail) && trail.last() == out {
            let trail = choose|trail: Seq<ExchangeView>| #[trigger]
                passes_along(stages, input, trail) && trail.last() == out;
            let tail = trail.skip(1);
            let step = trail[1];
            let start: int = 0;
            assert(stages[start].yields(trail[start], Ok(trail[start + 1])));
            assert forall|i: int| 0 <= i < rest.len() implies #[trigger] rest[i].yields(
                tail[i],
                Ok(tail[i + 1]),
            ) by {
                assert(stages[i + 1].yields(trail[i + 1], Ok(trail[i + 1 + 1])));
            }
            assert(passes_along(rest, step, tail) && tail.last() == out);
            lemma_success_passes_along(rest, step, out);
            assert(stages[0].yields(input, Ok(step)) && runs_to(rest, step, output));
        }
    }
}

/// Stages of which none can fail do not fail together: whatever the
/// pipeline hands back is an exchange.
pub proof fn lemma_unfailing_stages_succeed(
    stages: Seq<Arc<dyn Processor>>,
    input: ExchangeView,
    output: Outcome,
)
    requires
        forall|i: int, before: ExchangeView, after: Outcome|
            0 <= i < stages.len() && #[trigger] stages[i].yields(before, after) ==> after is Ok,
        runs_to(stages, input, output),
    ensures
        output is Ok,
    decreases stages.len(),
{
    if stages.len() > 0 {
        let rest = stages.skip(1);
        assert(stages[0].yields(input, output) ==> output is Ok);
        if !(output is Err && stages[0].yields(input, output)) {
            let step = choose|step: ExchangeView| #[trigger]
                stages[0].yields(input, Ok(step)) && runs_to(rest, step, output);
            assert forall|i: int, before: ExchangeView, after: Outcome|
                0 <= i < rest.len() && #[trigger] rest[i].yields(before, after) implies after is Ok by {
                assert(rest[i] == stages[i + 1]);
            }
            lemma_unfailing_stages_succeed(rest, step, output);
        }
    }
}

/// What every stage keeps, the pipeline keeps: where `keeps` relates every
/// exchange to itself, carries over from step to step, and holds between what
/// goes into a stage and what the stage hands back, it holds between what goes
/// into the pipeline and what the pipeline hands back.
pub proof fn lemma_stages_keep(
    stages: Seq<Arc<dyn Processor>>,
    keeps: spec_fn(ExchangeView, ExchangeView) -> bool,
    input: ExchangeView,
    out: ExchangeView,
)
    requires
        forall|x: ExchangeView| #[trigger] keeps(x, x),
        forall|x: ExchangeView, y: ExchangeView, z: ExchangeView|
            #[trigger] keeps(x, y) && #[trigger] keeps(y, z) ==> keeps(x, z),
        forall|i: int, before: ExchangeView, after: ExchangeView|
            0 <= i < stages.len() && #[trigger] stages[i].yields(before, Ok(after)) ==> keeps(
                before,
                after,
            ),
        runs_to(stages, input, Ok(out)),
    ensures
        keeps(input, out),
    decreases stages.len(),
{
    if stages.len() > 0 {
        let rest = stages.skip(1);
        let step = choose|step: ExchangeView| #[trigger]
            stages[0].yields(input, Ok(step)) && runs_to(rest, step, Outcome::Ok(out));
        assert forall|i: int, before: ExchangeView, after: ExchangeView|
            0 <= i < rest.len() && #[trigger] rest[i].yields(before, Ok(after)) implies keeps(
            before,
            after,
        ) by {
            assert(rest[i] == stages[i + 1]);
        }
        lemma_stages_keep(rest, keeps, step, out);
        assert(keeps(input, step) && keeps(step, out));
    }
}

} // verus!
