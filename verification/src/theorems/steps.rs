use vstd::prelude::*;
use crate::auth::{
    code_required, invalid_token, token_verdict, LoginStage, LoginStepView, LoginView, HOME_PATH, SEARCH_PATH,
    SIGNIN_PATH,
};
use crate::error::ErrorView;
use crate::search::{invalid_credentials, too_many_redirects, PhaseView, SearchView, StepView};
use crate::record::SearchResultView;
use crate::session::{closed_session, KagiView};
use crate::surface::ReplyView;

verus! {

/// The three paths that decide where a session stands are different paths.
pub proof fn paths_differ()
    ensures
        HOME_PATH@ != SIGNIN_PATH@,
        HOME_PATH@ != SEARCH_PATH@,
        SIGNIN_PATH@ != SEARCH_PATH@,
{
    reveal_strlit("/");
    reveal_strlit("/signin");
    reveal_strlit("/search");
    assert(HOME_PATH@.len() == 1);
    assert(SIGNIN_PATH@.len() == 7);
    assert(SEARCH_PATH@.len() == 7);
    assert(SIGNIN_PATH@[2] == 'i');
    assert(SEARCH_PATH@[2] == 'e');
}

/// A search whose credential is a set of cookies or the incognito identity,
/// and that was given no other for itself, cannot sign in: whenever the
/// service sends it to the sign-in page, it ends with the authentication
/// error for invalid credentials. It never ends without records instead.
pub proof fn redirect_without_handshake_fails(search: SearchView)
    requires
        search.phase is Navigating,
        search.handshake is Unavailable,
    ensures
        search.landed(Ok(SIGNIN_PATH@)) == StepView::Finished(Err(invalid_credentials())),
{
}

/// A session with cookies or with the incognito identity starts every
/// search that is given no credential of its own without a handshake.
pub proof fn passive_credential_has_no_handshake(kagi: KagiView, query: Seq<char>, limit: nat)
    requires
        !kagi.closed,
        kagi.auth_type is Cookies || kagi.auth_type is Icognito,
    ensures
        kagi.search(query, limit, None) matches StepView::Continue(search, _) && search.handshake is Unavailable,
{
}

/// A search keeps the handshake it started with as long as it runs.
pub proof fn handshake_is_kept(search: SearchView, reply: ReplyView)
    ensures
        search.next(reply) matches StepView::Continue(after, _) ==> after.handshake == search.handshake,
{
}

/// A token is accepted if and only if presenting it leaves the browser on
/// the home page. Landing anywhere else is the authentication error for an
/// invalid token; the results page is no exception.
pub proof fn token_needs_home_page(path: Seq<char>)
    ensures
        token_verdict(Ok(path)) is Ok <==> path == HOME_PATH@,
        path != HOME_PATH@ ==> token_verdict(Ok(path)) == Err::<(), ErrorView>(invalid_token()),
        token_verdict(Ok(SEARCH_PATH@)) == Err::<(), ErrorView>(invalid_token()),
{
    paths_differ();
}

/// A login without a one-time code, of which the service asks a second
/// factor after the form was submitted, ends there with the authentication
/// error that says so. No command follows: nothing is typed, nothing is
/// submitted again.
pub proof fn second_factor_without_code_fails(login: LoginView)
    requires
        login.stage == LoginStage::Landing,
        login.code is None,
    ensures
        login.landed(Ok(SIGNIN_PATH@)) == LoginStepView::Done(Err(code_required())),
{
}

/// Closing a session twice is closing it once: once the browser has taken
/// the request to shut down, the session is closed, and closing it again
/// asks for nothing and changes nothing. A close that the browser did not
/// take leaves the session open, so that it can be closed later.
pub proof fn closing_twice_is_closing_once(kagi: KagiView, fault: chromiumoxide::error::CdpError)
    ensures
        kagi.shut(Ok(())).0.closed,
        !kagi.shut(Ok(())).0.close(),
        kagi.shut(Ok(())).0.shut(Ok(())) == (kagi.shut(Ok(())).0, Ok::<(), ErrorView>(())),
        kagi.shut(Err(fault)).0 == kagi,
        kagi.shut(Err(fault)).1 is Err,
{
}

/// Closing the session fails the search that is under way: when a fault
/// ends a search of a session that was closed, the search has failed with
/// the browser error that says the browser was closed.
pub proof fn closing_fails_the_search_under_way(kagi: KagiView, fault: chromiumoxide::error::CdpError)
    requires
        kagi.closed,
    ensures
        kagi.conclude(Err(ErrorView::CdpError(fault))) == Err::<Option<Seq<SearchResultView>>, ErrorView>(
            closed_session(),
        ),
{
}

/// A search opens its page when it starts and never again.
pub proof fn one_page_per_search(search: SearchView, reply: ReplyView)
    ensures
        search.next(reply) matches StepView::Continue(_, command) ==> !(command is OpenPage),
{
}

/// A search that has presented its token goes on if and only if the
/// browser has landed on the home page; anywhere else it ends with the
/// authentication error for an invalid token.
pub proof fn token_search_needs_home_page(search: SearchView, path: Seq<char>)
    requires
        search.phase is Token,
    ensures
        path == HOME_PATH@ ==> search.landed(Ok(path)) == search.signed_in(),
        path != HOME_PATH@ ==> search.landed(Ok(path)) == StepView::Finished(Err(invalid_token())),
{
}

/// A search whose login has no one-time code ends when the service asks
/// for a second factor, with the authentication error that says so.
pub proof fn search_without_code_fails_at_second_factor(search: SearchView, login: LoginView)
    requires
        search.phase == PhaseView::Login(login),
        login.stage == LoginStage::Landing,
        login.code is None,
    ensures
        search.landed(Ok(SIGNIN_PATH@)) == StepView::Finished(Err(code_required())),
{
}

/// A session with cookies or with the incognito identity, searching with
/// no other credential: once its page is open and the search address is
/// loaded, landing on the sign-in page ends the search with the
/// authentication error for invalid credentials.
pub proof fn passive_session_fails_at_signin(kagi: KagiView, query: Seq<char>, limit: nat)
    requires
        !kagi.closed,
        kagi.auth_type is Cookies || kagi.auth_type is Icognito,
    ensures
        kagi.search(query, limit, None) matches StepView::Continue(opening, _) && (opening.next(ReplyView::Done)
            matches StepView::Continue(loading, _) ==> loading.landed(Ok(SIGNIN_PATH@)) == StepView::Finished(
            Err(invalid_credentials()),
        )),
{
}

/// A search that has used up its rounds of signing in ends when the
/// service sends it to the sign-in page once more, with the authentication
/// error for too many redirects, whether its credential is a token or a
/// login.
pub proof fn no_round_left_ends_the_search(search: SearchView)
    requires
        search.phase is Navigating,
        !(search.handshake is Unavailable),
        search.rounds == 0,
    ensures
        search.landed(Ok(SIGNIN_PATH@)) == StepView::Finished(Err(too_many_redirects())),
{
}

/// A fault of the automation surface ends a search at once, with that
/// fault, whatever the search is busy with.
pub proof fn faults_surface_at_once(search: SearchView, fault: chromiumoxide::error::CdpError)
    ensures
        search.next(ReplyView::Fault(fault)) == StepView::Finished(Err(ErrorView::CdpError(fault))),
{
}

/// The phases of a search run in their order: opening the page, loading
/// the search address, signing in, waiting for the results, reading them.
/// A search only ever goes back to loading the search address, and only
/// after it has signed in, which uses up one of its rounds. Once it waits
/// for results it does not sign in any more.
pub proof fn phases_run_in_order(search: SearchView, reply: ReplyView)
    requires
        search.wf(),
    ensures
        search.next(reply) matches StepView::Continue(after, _) ==> {
            ||| after.phase.ordinal() >= search.phase.ordinal() && after.rounds == search.rounds
            ||| (search.phase is Token || search.phase is Login) && after.phase is Navigating && after.rounds
                + 1 == search.rounds
        },
{
    paths_differ();
}

} // verus!
