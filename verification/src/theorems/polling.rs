use vstd::prelude::*;
use crate::auth::SEARCH_PATH;
use crate::dom::empty_looks;
use crate::poll::{PollStage, PollStepView, PollerView};
use crate::search::{PhaseView, SearchView, StepView};
use crate::surface::{CommandView, Handle, ReplyView};
use crate::theorems::steps::paths_differ;

verus! {

/// Handing over a first answer and then the rest is handing over all.
proof fn poll_feed_first(step: PollStepView, first: ReplyView, rest: Seq<ReplyView>)
    ensures
        step.feed(seq![first] + rest) == match step {
            PollStepView::Continue(poller, _) => poller.next(first).feed(rest),
            PollStepView::Done(_) => step,
        },
{
    let all = seq![first] + rest;
    assert(all[0] == first);
    assert(all.drop_first() =~= rest);
}

/// Handing over one list of answers and then another is handing over
/// both in a row.
proof fn poll_feed_append(step: PollStepView, first: Seq<ReplyView>, second: Seq<ReplyView>)
    ensures
        step.feed(first + second) == step.feed(first).feed(second),
    decreases first.len(),
{
    if first.len() == 0 {
        assert(first + second =~= second);
    } else {
        assert((first + second).drop_first() =~= first.drop_first() + second);
        match step {
            PollStepView::Continue(poller, _) => {
                poll_feed_append(poller.next(first[0]), first.drop_first(), second);
            },
            PollStepView::Done(_) => {
                assert(step.feed(second) == step) by {
                    if second.len() > 0 {
                    }
                }
            },
        }
    }
}

/// Handing over a first answer and then the rest is handing over all.
pub(crate) proof fn search_feed_first(step: StepView, first: ReplyView, rest: Seq<ReplyView>)
    ensures
        step.feed(seq![first] + rest) == match step {
            StepView::Continue(search, _) => search.next(first).feed(rest),
            StepView::Finished(_) => step,
        },
{
    let all = seq![first] + rest;
    assert(all[0] == first);
    assert(all.drop_first() =~= rest);
}

/// Where a poller stands after looks that all found the container empty:
/// while its budget lasts it looks again, with one attempt less for each
/// look; once the budget is used up it has ended, without nodes and
/// without an error.
pub proof fn polling_an_empty_page(poller: PollerView, containers: Seq<Handle>)
    requires
        poller.wf(),
        poller.stage == PollStage::Container,
        containers.len() <= poller.remaining,
    ensures
        PollStepView::Continue(poller, PollerView::look()).feed(empty_looks(containers)) == if containers.len()
            < poller.remaining {
            PollStepView::Continue(
                PollerView { remaining: (poller.remaining - containers.len()) as nat, ..poller },
                PollerView::look(),
            )
        } else {
            PollStepView::Done(Ok(None))
        },
    decreases containers.len(),
{
    if containers.len() > 0 {
        let found = ReplyView::Element(Some(containers[0]));
        let none = ReplyView::Elements(Seq::empty());
        let rest = empty_looks(containers.drop_first());
        let start = PollStepView::Continue(poller, PollerView::look());
        assert(empty_looks(containers) =~= seq![found] + (seq![none] + (seq![ReplyView::Done] + rest)));
        poll_feed_first(start, found, seq![none] + (seq![ReplyView::Done] + rest));
        poll_feed_first(poller.next(found), none, seq![ReplyView::Done] + rest);
        let paused = PollerView { stage: PollStage::Pause, ..poller };
        poll_feed_first(PollStepView::Continue(paused, CommandView::Pause(poller.interval)), ReplyView::Done, rest);
        if poller.remaining > 1 {
            let again = PollerView { remaining: (poller.remaining - 1) as nat, ..poller };
            polling_an_empty_page(again, containers.drop_first());
        } else {
            assert(containers.drop_first().len() == 0);
        }
    }
}

/// A poller that finds the results container empty at every look of its
/// budget ends without nodes and without an error; it does not end before
/// the budget is used up.
pub proof fn polling_gives_up_quietly(attempts: u32, interval: u64, containers: Seq<Handle>)
    requires
        containers.len() <= attempts,
    ensures
        containers.len() == attempts ==> PollerView::begin(attempts, interval).feed(empty_looks(containers))
            == PollStepView::Done(Ok(None)),
        containers.len() < attempts ==> PollerView::begin(attempts, interval).feed(empty_looks(containers))
            is Continue,
{
    if attempts > 0 {
        let poller = PollerView { remaining: attempts as nat, interval, stage: PollStage::Container };
        polling_an_empty_page(poller, containers);
    }
}

/// A poller ends with the first nodes it finds: after looks that found the
/// container empty, fewer than its budget, a look that finds nodes ends
/// polling with those nodes, in their order.
pub proof fn polling_ends_with_the_first_nodes(
    attempts: u32,
    interval: u64,
    containers: Seq<Handle>,
    container: Handle,
    nodes: Seq<Handle>,
)
    requires
        containers.len() < attempts,
        nodes.len() > 0,
    ensures
        PollerView::begin(attempts, interval).feed(
            empty_looks(containers) + seq![ReplyView::Element(Some(container)), ReplyView::Elements(nodes)],
        ) == PollStepView::Done(Ok(Some(nodes))),
{
    let found = ReplyView::Element(Some(container));
    let listed = ReplyView::Elements(nodes);
    let start = PollerView::begin(attempts, interval);
    let poller = PollerView { remaining: attempts as nat, interval, stage: PollStage::Container };
    polling_an_empty_page(poller, containers);
    poll_feed_append(start, empty_looks(containers), seq![found, listed]);
    let looking = start.feed(empty_looks(containers));
    assert(seq![found, listed] =~= seq![found] + (seq![listed] + Seq::empty()));
    poll_feed_first(looking, found, seq![listed] + Seq::empty());
    poll_feed_first(looking->Continue_0.next(found), listed, Seq::empty());
}

/// Where a search stands that is waiting for results, after looks that all
/// found the container empty: as its poller does, it looks again while the
/// budget lasts, and then ends without records and without an error.
pub proof fn searching_an_empty_page(search: SearchView, poller: PollerView, containers: Seq<Handle>)
    requires
        poller.wf(),
        poller.stage == PollStage::Container,
        containers.len() <= poller.remaining,
    ensures
        StepView::Continue(search.enter(PhaseView::Polling(poller)), PollerView::look()).feed(
            empty_looks(containers),
        ) == if containers.len() < poller.remaining {
            StepView::Continue(
                search.enter(
                    PhaseView::Polling(
                        PollerView { remaining: (poller.remaining - containers.len()) as nat, ..poller },
                    ),
                ),
                PollerView::look(),
            )
        } else {
            StepView::Finished(Ok(None))
        },
    decreases containers.len(),
{
    if containers.len() > 0 {
        let found = ReplyView::Element(Some(containers[0]));
        let none = ReplyView::Elements(Seq::empty());
        let rest = empty_looks(containers.drop_first());
        let looking = search.enter(PhaseView::Polling(poller));
        assert(empty_looks(containers) =~= seq![found] + (seq![none] + (seq![ReplyView::Done] + rest)));
        search_feed_first(
            StepView::Continue(looking, PollerView::look()),
            found,
            seq![none] + (seq![ReplyView::Done] + rest),
        );
        search_feed_first(looking.next(found), none, seq![ReplyView::Done] + rest);
        let counting = search.enter(PhaseView::Polling(PollerView { stage: PollStage::Nodes, ..poller }));
        search_feed_first(counting.next(none), ReplyView::Done, rest);
        if poller.remaining > 1 {
            let again = PollerView { remaining: (poller.remaining - 1) as nat, ..poller };
            searching_an_empty_page(search, again, containers.drop_first());
        } else {
            assert(containers.drop_first().len() == 0);
        }
    }
}

/// A search that has reached the results page and finds the results
/// container empty at every look of its budget ends with the sign that
/// there are no results. It does not end with an error.
pub proof fn no_results_is_no_error(search: SearchView, containers: Seq<Handle>)
    requires
        search.phase is Navigating,
        containers.len() == search.config.max_retries,
    ensures
        search.landed(Ok(SEARCH_PATH@)).feed(empty_looks(containers)) == StepView::Finished(Ok(None)),
{
    paths_differ();
    if search.config.max_retries > 0 {
        let poller = PollerView {
            remaining: search.config.max_retries as nat,
            interval: search.config.retry_interval,
            stage: PollStage::Container,
        };
        searching_an_empty_page(search, poller, containers);
    }
}

} // verus!
