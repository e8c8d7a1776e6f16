//! The settings of a session.
use vstd::prelude::*;

use crate::error::{db_error, db_error_answer};
use crate::lookup::{
    config_request, csrf_token, get_csrf_token, get_payment_service_url, get_user,
    payment_service_url, payment_url, token_of, user_id_request, user_step, UserLookup, UserStep,
    UserStepView,
};
use crate::model::{shown_session_user, ResSetting, SettingView, User};
use crate::protocol::{
    bind_views, Bind, Body, BodyView, Query, QueryView, Reply, Request, RequestView, Step,
    StepView, Via,
};

verus! {

/// The request for all categories.
pub open spec fn categories_request() -> RequestView {
    RequestView::Categories(
        QueryView { via: Via::Pool, sql: "SELECT * FROM categories"@, binds: seq![] },
    )
}

fn ask_categories() -> (request: Request)
    ensures
        request@ == categories_request(),
{
    let binds: Vec<Bind> = Vec::new();
    assert(bind_views(binds@) =~= seq![]);
    Request::Categories(Query::new(Via::Pool, "SELECT * FROM categories", binds))
}

/// A handler of a request for the settings.
#[derive(Debug, PartialEq, Eq)]
pub enum Settings {
    /// The token of the session has been asked for.
    Token,
    /// A connection has been asked for; the token is known.
    Acquire(String),
    /// The user of the session is being looked up.
    User(String, UserLookup),
    /// The address of the payment service has been asked for; the user, where there is
    /// one, is known.
    Payment(String, Option<User>),
    /// The categories have been asked for; the address of the payment service is known.
    Categories(String, Option<User>, String),
}

/// The model of the handler.
pub enum SettingsState {
    Token,
    Acquire(Seq<char>),
    User(Seq<char>, UserLookup),
    Payment(Seq<char>, Option<User>),
    Categories(Seq<char>, Option<User>, Seq<char>),
}

impl View for Settings {
    type V = SettingsState;

    open spec fn view(&self) -> SettingsState {
        match *self {
            Settings::Token => SettingsState::Token,
            Settings::Acquire(token) => SettingsState::Acquire(token@),
            Settings::User(token, lookup) => SettingsState::User(token@, lookup),
            Settings::Payment(token, user) => SettingsState::Payment(token@, user),
            Settings::Categories(token, user, url) => {
                SettingsState::Categories(token@, user, url@)
            },
        }
    }
}

/// How the handler begins.
pub open spec fn settings_start() -> StepView<SettingsState> {
    StepView::Ask(SettingsState::Token, RequestView::SessionText("csrf_token"@))
}

/// How the handler continues with a reply.
pub open spec fn settings_step(state: SettingsState, reply: Reply) -> StepView<SettingsState> {
    match state {
        SettingsState::Token => StepView::Ask(
            SettingsState::Acquire(token_of(reply.session_text())),
            RequestView::Acquire,
        ),
        SettingsState::Acquire(token) => match reply.done() {
            Ok(_) => StepView::Ask(
                SettingsState::User(token, UserLookup::Session(Via::Connection)),
                user_id_request(),
            ),
            Err(_) => StepView::Abort,
        },
        SettingsState::User(token, lookup) => match user_step(lookup, reply) {
            UserStepView::Ask(lookup, request) => StepView::Ask(
                SettingsState::User(token, lookup),
                request,
            ),
            UserStepView::Found(found) => StepView::Ask(
                SettingsState::Payment(
                    token,
                    match found {
                        Ok(user) => Some(user),
                        Err(_) => None,
                    },
                ),
                config_request("payment_service_url"@),
            ),
        },
        SettingsState::Payment(token, user) => StepView::Ask(
            SettingsState::Categories(token, user, payment_url(reply.config())),
            categories_request(),
        ),
        SettingsState::Categories(token, user, url) => match reply.categories() {
            Ok(categories) => StepView::Answer(
                Ok(
                    BodyView::Settings(
                        SettingView {
                            csrf_token: token,
                            payment_service_url: url,
                            user: shown_session_user(user),
                            categories: categories@,
                        },
                    ),
                ),
            ),
            Err(_) => StepView::Answer(Err(db_error_answer())),
        },
    }
}

/// Begins the answer to a request for the settings.
pub fn get_settings() -> (step: Step<Settings>)
    ensures
        step@ == settings_start(),
{
    Step::Ask(Settings::Token, get_csrf_token())
}

impl Settings {
    /// Continues with the reply to the last request.
    pub fn resume(self, reply: Reply) -> (step: Step<Settings>)
        ensures
            step@ == settings_step(self@, reply),
    {
        match self {
            Settings::Token => {
                Step::Ask(Settings::Acquire(csrf_token(reply.session_text())), Request::Acquire)
            },
            Settings::Acquire(token) => match reply.done() {
                Ok(_) => {
                    let (lookup, request) = get_user(Via::Connection);
                    Step::Ask(Settings::User(token, lookup), request)
                },
                Err(_) => Step::Abort,
            },
            Settings::User(token, lookup) => match lookup.resume(reply) {
                UserStep::Ask(lookup, request) => Step::Ask(Settings::User(token, lookup), request),
                UserStep::Found(Ok(user)) => {
                    Step::Ask(Settings::Payment(token, Some(user)), get_payment_service_url())
                },
                UserStep::Found(Err(_)) => {
                    Step::Ask(Settings::Payment(token, None), get_payment_service_url())
                },
            },
            Settings::Payment(token, user) => {
                let url = payment_service_url(reply.config());
                Step::Ask(Settings::Categories(token, user, url), ask_categories())
            },
            Settings::Categories(token, user, url) => match reply.categories() {
                Ok(categories) => Step::Answer(
                    Ok(
                        Body::Settings(
                            ResSetting {
                                csrf_token: token,
                                payment_service_url: url,
                                user: match user {
                                    Some(user) => Some(user.shown()),
                                    None => None,
                                },
                                categories,
                            },
                        ),
                    ),
                ),
                Err(_) => Step::Answer(Err(db_error())),
            },
        }
    }
}

} // verus!
