use vstd::prelude::*;
use crate::credential::AuthTypeView;
use crate::search::{SearchView, StepView};
use crate::session::KagiView;
use crate::surface::{CommandView, ReplyView};
use crate::theorems::polling::search_feed_first;
use crate::theorems::steps::paths_differ;

verus! {

/// Whether the first of two ranks is the smaller: ranks are compared by
/// their first number, then by their second, then by their third.
pub open spec fn closer(a: (nat, nat, nat), b: (nat, nat, nat)) -> bool {
    a.0 < b.0 || (a.0 == b.0 && (a.1 < b.1 || (a.1 == b.1 && a.2 < b.2)))
}

/// Every answer brings a search closer to its end: if the search goes on
/// after it, its parts still fit together and its rank is smaller.
pub proof fn every_answer_brings_the_end_closer(search: SearchView, reply: ReplyView)
    requires
        search.wf(),
    ensures
        search.next(reply) matches StepView::Continue(after, _) ==> after.wf() && closer(
            after.rank(),
            search.rank(),
        ),
{
    paths_differ();
}

/// The first `count` answers of an endless supply of answers.
pub open spec fn supply(answers: spec_fn(nat) -> ReplyView, count: nat) -> Seq<ReplyView> {
    Seq::new(count, |i: int| answers(i as nat))
}

/// Every search ends: whatever the surface answers, and however long it
/// goes on answering, after a number of answers the search has finished,
/// with records, without, or with an error. In particular a service that
/// sends the search to the sign-in page again and again does not keep it
/// going for ever.
pub proof fn every_search_ends(
    search: SearchView,
    command: CommandView,
    answers: spec_fn(nat) -> ReplyView,
) -> (count: nat)
    requires
        search.wf(),
    ensures
        StepView::Continue(search, command).feed(supply(answers, count)) is Finished,
    decreases search.rank().0, search.rank().1, search.rank().2,
{
    let later = |i: nat| answers(i + 1);
    every_answer_brings_the_end_closer(search, answers(0));
    match search.next(answers(0)) {
        StepView::Finished(_) => {
            assert(supply(answers, 1) =~= seq![answers(0)] + Seq::empty());
            search_feed_first(StepView::Continue(search, command), answers(0), Seq::empty());
            1
        },
        StepView::Continue(after, asked) => {
            let rest = every_search_ends(after, asked, later);
            assert(supply(answers, rest + 1) =~= seq![answers(0)] + supply(later, rest));
            search_feed_first(StepView::Continue(search, command), answers(0), supply(later, rest));
            rest + 1
        },
    }
}

/// Every search of a session ends, whatever its credential, its query and
/// its limit are, and whatever the surface answers.
pub proof fn every_search_of_a_session_ends(
    kagi: KagiView,
    query: Seq<char>,
    limit: nat,
    single: Option<AuthTypeView>,
    answers: spec_fn(nat) -> ReplyView,
) -> (count: nat)
    ensures
        kagi.search(query, limit, single).feed(supply(answers, count)) is Finished,
{
    match kagi.search(query, limit, single) {
        StepView::Continue(search, command) => every_search_ends(search, command, answers),
        StepView::Finished(_) => {
            assert(supply(answers, 0).len() == 0);
            0
        },
    }
}

} // verus!
