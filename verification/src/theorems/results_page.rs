use vstd::prelude::*;
use crate::auth::SEARCH_PATH;
use crate::credential::AuthTypeView;
use crate::search::{SearchView, StepView};
use crate::session::KagiView;
use crate::surface::{CommandView, ReplyView};
use crate::theorems::steps::paths_differ;

verus! {

/// Whether the command only looks at the page: it asks for elements, reads
/// from one, or lets time pass. It loads no address, opens no page, clicks
/// on nothing and types nothing.
pub open spec fn looks(command: CommandView) -> bool {
    ||| command is Find
    ||| command is FindAll
    ||| command is ReadText
    ||| command is ReadAttribute
    ||| command is Pause
}

/// Whether the search is on the results page: it waits for the results or
/// reads them.
pub open spec fn on_results(search: SearchView) -> bool {
    search.phase is Polling || search.phase is Extracting
}

/// A search does not leave the results page: once it waits for results or
/// reads them, it goes on doing so until it ends. Its commands only look
/// at the page, and none of its rounds of signing in is used.
pub proof fn results_page_is_not_left(search: SearchView, reply: ReplyView)
    requires
        search.wf(),
        on_results(search),
    ensures
        search.next(reply) matches StepView::Continue(after, command) ==> {
            &&& after.wf()
            &&& on_results(after)
            &&& after.rounds == search.rounds
            &&& looks(command)
        },
{
}

/// Whether the search, if it goes on, is on the results page with the
/// given number of rounds of signing in left and with a command in hand
/// that only looks at the page.
pub open spec fn stays(step: StepView, rounds: nat) -> bool {
    step matches StepView::Continue(search, command) ==> {
        &&& search.wf()
        &&& on_results(search)
        &&& search.rounds == rounds
        &&& looks(command)
    }
}

/// From the results page on a search signs in nowhere and loads nothing:
/// whatever the page answers, every command that follows only looks at the
/// page, and as long as the search goes on it has all the rounds of
/// signing in that it had.
pub proof fn no_signing_in_from_the_results_page(step: StepView, rounds: nat, replies: Seq<ReplyView>)
    requires
        stays(step, rounds),
    ensures
        stays(step.feed(replies), rounds),
        forall|i: int| 0 <= i < step.commands(replies).len() ==> looks(#[trigger] step.commands(replies)[i]),
    decreases replies.len(),
{
    if replies.len() > 0 {
        match step {
            StepView::Continue(search, command) => {
                let after = search.next(replies[0]);
                let rest = replies.drop_first();
                results_page_is_not_left(search, replies[0]);
                no_signing_in_from_the_results_page(after, rounds, rest);
                let all = step.commands(replies);
                assert(all =~= seq![command] + after.commands(rest));
                assert forall|i: int| 0 <= i < all.len() implies looks(#[trigger] all[i]) by {
                    if i > 0 {
                        assert(all[i] == after.commands(rest)[i - 1]);
                    }
                }
            },
            StepView::Finished(_) => {},
        }
    }
}

/// A session whose first landing is on the results page signs in nowhere.
///
/// A search of an open session that is given no credential of its own
/// opens its page and then loads the search address. If the browser lands
/// on the results page, then whatever the page answers from there on, the
/// search hands out no other command that loads an address and no command
/// of a handshake: every further command only looks at the page, and none
/// of the rounds of signing in is used. This is so for every credential,
/// and so for a session that was seeded with cookies which the service
/// still honours; its cookies are the seeded ones, all of them and in
/// their order.
pub proof fn landing_on_the_results_page_needs_no_sign_in(
    kagi: KagiView,
    query: Seq<char>,
    limit: nat,
    replies: Seq<ReplyView>,
)
    requires
        !kagi.closed,
    ensures
        kagi.auth_type matches AuthTypeView::Cookies(cookies) ==> kagi.auth_type.cookies() == Some(cookies),
        kagi.search(query, limit, None) matches StepView::Continue(_, first) && first == (CommandView::OpenPage {
            private: kagi.auth_type is Icognito,
        }),
        kagi.search(query, limit, None) matches StepView::Continue(opening, _) ==> (opening.next(ReplyView::Done)
            matches StepView::Continue(loading, second) ==> {
            &&& second is Navigate
            &&& stays(loading.landed(Ok(SEARCH_PATH@)).feed(replies), kagi.config.max_signin_rounds as nat)
            &&& forall|i: int|
                0 <= i < loading.landed(Ok(SEARCH_PATH@)).commands(replies).len() ==> looks(
                    #[trigger] loading.landed(Ok(SEARCH_PATH@)).commands(replies)[i],
                )
        }),
{
    paths_differ();
    match kagi.search(query, limit, None) {
        StepView::Continue(opening, _) => {
            match opening.next(ReplyView::Done) {
                StepView::Continue(loading, _) => {
                    let landed = loading.landed(Ok(SEARCH_PATH@));
                    assert(stays(landed, kagi.config.max_signin_rounds as nat));
                    no_signing_in_from_the_results_page(landed, kagi.config.max_signin_rounds as nat, replies);
                },
                StepView::Finished(_) => {},
            }
        },
        StepView::Finished(_) => {},
    }
}

} // verus!
