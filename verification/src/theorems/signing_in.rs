use vstd::prelude::*;
use crate::auth::{code_required, LoginStage, LoginStepView, LoginView, SIGNIN_PATH};
use crate::surface::{CommandView, Handle, ReplyView, Selector};

verus! {

/// Handing over a first answer and then the rest is handing over all.
proof fn login_feed_first(step: LoginStepView, first: ReplyView, rest: Seq<ReplyView>)
    ensures
        step.feed(seq![first] + rest) == match step {
            LoginStepView::Continue(login, _) => login.next(first).feed(rest),
            LoginStepView::Done(_) => step,
        },
        step.commands(seq![first] + rest) == match step {
            LoginStepView::Continue(login, command) => seq![command] + login.next(first).commands(rest),
            LoginStepView::Done(_) => Seq::empty(),
        },
{
    let all = seq![first] + rest;
    assert(all[0] == first);
    assert(all.drop_first() =~= rest);
}

/// What the page answers while the sign-in form is filled in and
/// submitted, if nothing is missing: the form, the e-mail field, that it
/// was clicked and typed into, the same of the password field, the button,
/// and that it was clicked.
pub open spec fn form_answers(form: Handle, email: Handle, password: Handle, button: Handle) -> Seq<ReplyView> {
    seq![
        ReplyView::Element(Some(form)),
        ReplyView::Element(Some(email)),
        ReplyView::Done,
        ReplyView::Done,
        ReplyView::Element(Some(password)),
        ReplyView::Done,
        ReplyView::Done,
        ReplyView::Element(Some(button)),
        ReplyView::Done,
    ]
}

/// What a login asks of such a page: for the form; in it for the e-mail
/// field, to click it and to type the e-mail; for the password field, to
/// click it and to type the password; for the button and to click it; and
/// then to wait for the navigation.
pub open spec fn form_commands(
    login: Seq<char>,
    secret: Seq<char>,
    form: Handle,
    email: Handle,
    password: Handle,
    button: Handle,
) -> Seq<CommandView> {
    seq![
        CommandView::Find { within: None, selector: Selector::SignInForm },
        CommandView::Find { within: Some(form), selector: Selector::EmailInput },
        CommandView::Click(email),
        CommandView::TypeText(email, login),
        CommandView::Find { within: Some(form), selector: Selector::PasswordInput },
        CommandView::Click(password),
        CommandView::TypeText(password, secret),
        CommandView::Find { within: Some(form), selector: Selector::SubmitButton },
        CommandView::Click(button),
        CommandView::AwaitNavigation,
    ]
}

/// A login fills in the form and submits it once: on a page where nothing
/// is missing it hands out exactly the commands for that, in their order,
/// and then waits for the browser to land.
pub proof fn login_fills_in_the_form(
    login: Seq<char>,
    secret: Seq<char>,
    code: Option<Seq<char>>,
    form: Handle,
    email: Handle,
    password: Handle,
    button: Handle,
)
    ensures
        LoginView::begin(login, secret, code).feed(form_answers(form, email, password, button))
            == LoginStepView::Continue(
            LoginView {
                email: login,
                password: secret,
                code,
                stage: LoginStage::Landing,
                form: Some(form),
                field: Some(button),
            },
            CommandView::AwaitNavigation,
        ),
        LoginView::begin(login, secret, code).commands(form_answers(form, email, password, button))
            == form_commands(login, secret, form, email, password, button),
{
    let a0 = ReplyView::Element(Some(form));
    let a1 = ReplyView::Element(Some(email));
    let a4 = ReplyView::Element(Some(password));
    let a7 = ReplyView::Element(Some(button));
    let done = ReplyView::Done;
    let r8 = seq![done] + Seq::empty();
    let r7 = seq![a7] + r8;
    let r6 = seq![done] + r7;
    let r5 = seq![done] + r6;
    let r4 = seq![a4] + r5;
    let r3 = seq![done] + r4;
    let r2 = seq![done] + r3;
    let r1 = seq![a1] + r2;
    assert(form_answers(form, email, password, button) =~= seq![a0] + r1);
    let s0 = LoginView::begin(login, secret, code);
    login_feed_first(s0, a0, r1);
    let s1 = s0->Continue_0.next(a0);
    login_feed_first(s1, a1, r2);
    let s2 = s1->Continue_0.next(a1);
    login_feed_first(s2, done, r3);
    let s3 = s2->Continue_0.next(done);
    login_feed_first(s3, done, r4);
    let s4 = s3->Continue_0.next(done);
    login_feed_first(s4, a4, r5);
    let s5 = s4->Continue_0.next(a4);
    login_feed_first(s5, done, r6);
    let s6 = s5->Continue_0.next(done);
    login_feed_first(s6, done, r7);
    let s7 = s6->Continue_0.next(done);
    login_feed_first(s7, a7, r8);
    let s8 = s7->Continue_0.next(a7);
    login_feed_first(s8, done, Seq::empty());
    let s9 = s8->Continue_0.next(done);
    assert(s9.commands(Seq::empty()) =~= seq![CommandView::AwaitNavigation]);
    assert(s0.commands(form_answers(form, email, password, button)) =~= form_commands(
        login,
        secret,
        form,
        email,
        password,
        button,
    ));
}

/// A login without a one-time code of which the service asks a second
/// factor: the form is filled in and submitted once, and when the browser
/// lands on the sign-in page again the login ends with the authentication
/// error that says a code is required. Nothing is typed or submitted after
/// the first submit.
pub proof fn second_factor_without_code_ends_the_login(
    login: Seq<char>,
    secret: Seq<char>,
    form: Handle,
    email: Handle,
    password: Handle,
    button: Handle,
)
    ensures
        LoginView::begin(login, secret, None).feed(form_answers(form, email, password, button))
            matches LoginStepView::Continue(waiting, _) && waiting.landed(Ok(SIGNIN_PATH@))
            == LoginStepView::Done(Err(code_required())),
{
    login_fills_in_the_form(login, secret, None, form, email, password, button);
}

} // verus!
