//! Runs of a handler.
use vstd::prelude::*;

use crate::protocol::{Reply, RequestView, StepView};

verus! {

/// A world in which equal requests get equal replies, as long as a run takes.
pub type World = spec_fn(RequestView) -> Reply;

/// Where a handler stands after at most `n` replies of the world.
pub open spec fn run<S>(
    resume: spec_fn(S, Reply) -> StepView<S>,
    world: World,
    step: StepView<S>,
    n: nat,
) -> StepView<S>
    decreases n,
{
    match step {
        StepView::Ask(state, request) if n > 0 => run(
            resume,
            world,
            resume(state, world(request)),
            (n - 1) as nat,
        ),
        _ => step,
    }
}

/// The handler reaches `end` after some replies of the world.
pub open spec fn comes_to<S>(
    resume: spec_fn(S, Reply) -> StepView<S>,
    world: World,
    step: StepView<S>,
    end: StepView<S>,
) -> bool {
    exists|n: nat| #[trigger] run(resume, world, step, n) == end
}

/// A run is made of its beginning and the run from there.
pub proof fn lemma_run_run<S>(
    resume: spec_fn(S, Reply) -> StepView<S>,
    world: World,
    step: StepView<S>,
    m: nat,
    n: nat,
)
    ensures
        run(resume, world, run(resume, world, step, m), n) == run(resume, world, step, m + n),
    decreases m,
{
    if m > 0 {
        if let StepView::Ask(state, request) = step {
            lemma_run_run(resume, world, resume(state, world(request)), (m - 1) as nat, n);
        }
    }
}

/// What follows a place that is reached is reached.
pub proof fn lemma_comes_to_trans<S>(
    resume: spec_fn(S, Reply) -> StepView<S>,
    world: World,
    start: StepView<S>,
    middle: StepView<S>,
    end: StepView<S>,
)
    requires
        comes_to(resume, world, start, middle),
        comes_to(resume, world, middle, end),
    ensures
        comes_to(resume, world, start, end),
{
    let m = choose|m: nat| #[trigger] run(resume, world, start, m) == middle;
    let n = choose|n: nat| #[trigger] run(resume, world, middle, n) == end;
    lemma_run_run(resume, world, start, m, n);
    assert(run(resume, world, start, m + n) == end);
}

/// What the next reply leads to is reached.
pub proof fn lemma_comes_to_next<S>(
    resume: spec_fn(S, Reply) -> StepView<S>,
    world: World,
    state: S,
    request: RequestView,
    end: StepView<S>,
)
    requires
        comes_to(resume, world, resume(state, world(request)), end),
    ensures
        comes_to(resume, world, StepView::Ask(state, request), end),
{
    let next = resume(state, world(request));
    let n = choose|n: nat| #[trigger] run(resume, world, next, n) == end;
    assert(run(resume, world, StepView::Ask(state, request), n + 1) == end);
}

/// A handler has reached the place where it stands.
pub proof fn lemma_comes_to_self<S>(
    resume: spec_fn(S, Reply) -> StepView<S>,
    world: World,
    step: StepView<S>,
)
    ensures
        comes_to(resume, world, step, step),
{
    assert(run(resume, world, step, 0) == step);
}

/// Where a handler stands after the given replies, whatever they are; replies after its
/// end are left aside.
pub open spec fn replay<S>(
    resume: spec_fn(S, Reply) -> StepView<S>,
    start: StepView<S>,
    replies: Seq<Reply>,
) -> StepView<S>
    decreases replies.len(),
{
    if replies.len() == 0 {
        start
    } else {
        match replay(resume, start, replies.drop_last()) {
            StepView::Ask(state, request) => resume(state, replies.last()),
            end => end,
        }
    }
}

/// The requests of a handler, each with its reply.
pub open spec fn exchanges<S>(
    resume: spec_fn(S, Reply) -> StepView<S>,
    start: StepView<S>,
    replies: Seq<Reply>,
) -> Seq<(RequestView, Reply)>
    decreases replies.len(),
{
    if replies.len() == 0 {
        Seq::empty()
    } else {
        let before = exchanges(resume, start, replies.drop_last());
        match replay(resume, start, replies.drop_last()) {
            StepView::Ask(state, request) => before.push((request, replies.last())),
            _ => before,
        }
    }
}

/// The exchanges are in the order of the replies, and as long as a handler asks, each
/// reply counts.
pub proof fn lemma_exchanges<S>(
    resume: spec_fn(S, Reply) -> StepView<S>,
    start: StepView<S>,
    replies: Seq<Reply>,
)
    ensures
        exchanges(resume, start, replies).len() <= replies.len(),
        replay(resume, start, replies) is Ask ==> exchanges(resume, start, replies).len()
            == replies.len(),
        forall|i: int|
            0 <= i < exchanges(resume, start, replies).len() ==> (#[trigger] exchanges(
                resume,
                start,
                replies,
            )[i]).1 == replies[i],
    decreases replies.len(),
{
    if replies.len() > 0 {
        lemma_exchanges(resume, start, replies.drop_last());
    }
}

/// How often `request` has been asked for and has succeeded.
pub open spec fn times_done(exchanges: Seq<(RequestView, Reply)>, request: RequestView) -> nat
    decreases exchanges.len(),
{
    if exchanges.len() == 0 {
        0
    } else {
        let last = exchanges.last();
        times_done(exchanges.drop_last(), request) + if last.0 == request && last.1.done() is Ok {
            1nat
        } else {
            0nat
        }
    }
}

} // verus!
