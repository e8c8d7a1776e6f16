//! What the short handlers ask for and answer, whatever the replies.
use vstd::prelude::*;

use crate::error::{ErrorView, StatusCode};
use crate::initialize::{initialize_start, store_request, InitializeState};
use crate::laws::entries::reports_on;
use crate::laws::run::{exchanges, lemma_exchanges, replay};
use crate::laws::session::{resume_initialize, resume_reports, resume_settings};
use crate::lookup::{
    config_request, payment_url, token_of, user_id_request, user_request, UserLookup,
};
use crate::model::{shown_session_user, SettingView, User};
use crate::protocol::{BindView, BodyView, Reply, RequestView, StepView, Via};
use crate::reports::reports_start;
use crate::settings::{categories_request, settings_start, SettingsState};

verus! {

/// The session names a user in this reply.
pub open spec fn names_user(reply: Reply) -> bool {
    reply matches Reply::SessionInteger(Ok(Some(_)))
}

/// The number of exchanges before the one on the address of the payment service: one
/// more where the session names a user.
pub open spec fn exchanges_on_user(done: Seq<(RequestView, Reply)>) -> int {
    if done.len() > 2 && names_user(done[2].1) {
        4
    } else {
        3
    }
}

/// The user that was found for the session, where one was.
spec fn user_in(done: Seq<(RequestView, Reply)>) -> Option<User> {
    if names_user(done[2].1) {
        match done[3].1 {
            Reply::User(Ok(user)) => Some(user),
            _ => None,
        }
    } else {
        None
    }
}

/// What a handler of a request for the settings has asked for so far.
spec fn settings_asked(done: Seq<(RequestView, Reply)>) -> bool {
    let p = exchanges_on_user(done);
    &&& done.len() <= p + 2
    &&& done.len() > 0 ==> done[0].0 == RequestView::SessionText("csrf_token"@)
    &&& done.len() > 1 ==> done[1].0 == RequestView::Acquire
    &&& done.len() > 2 ==> done[1].1.done() is Ok && done[2].0 == user_id_request()
    &&& done.len() > 3 && p == 4 ==> done[3].0 == user_request(
        Via::Connection,
        done[2].1->SessionInteger_0->Ok_0->Some_0,
    )
    &&& done.len() > p ==> done[p].0 == config_request("payment_service_url"@)
    &&& done.len() > p + 1 ==> done[p + 1].0 == categories_request()
}

spec fn settings_books(step: StepView<SettingsState>, done: Seq<(RequestView, Reply)>) -> bool {
    let p = exchanges_on_user(done);
    &&& settings_asked(done)
    &&& match step {
        StepView::Ask(SettingsState::Token, request) => {
            &&& done.len() == 0
            &&& request == RequestView::SessionText("csrf_token"@)
        },
        StepView::Ask(SettingsState::Acquire(token), request) => {
            &&& done.len() == 1
            &&& token == token_of(done[0].1.session_text())
            &&& request == RequestView::Acquire
        },
        StepView::Ask(SettingsState::User(token, UserLookup::Session(via)), request) => {
            &&& done.len() == 2
            &&& done[1].1.done() is Ok
            &&& token == token_of(done[0].1.session_text())
            &&& via == Via::Connection
            &&& request == user_id_request()
        },
        StepView::Ask(SettingsState::User(token, UserLookup::Row), request) => {
            &&& done.len() == 3
            &&& p == 4
            &&& token == token_of(done[0].1.session_text())
            &&& request == user_request(
                Via::Connection,
                done[2].1->SessionInteger_0->Ok_0->Some_0,
            )
        },
        StepView::Ask(SettingsState::Payment(token, user), request) => {
            &&& done.len() == p
            &&& token == token_of(done[0].1.session_text())
            &&& user == user_in(done)
            &&& request == config_request("payment_service_url"@)
        },
        StepView::Ask(SettingsState::Categories(token, user, url), request) => {
            &&& done.len() == p + 1
            &&& token == token_of(done[0].1.session_text())
            &&& user == user_in(done)
            &&& url == payment_url(done[p].1.config())
            &&& request == categories_request()
        },
        StepView::Answer(Ok(body)) => {
            &&& done.len() == p + 2
            &&& done[p + 1].1 matches Reply::Categories(Ok(categories)) && body
                == BodyView::Settings(
                SettingView {
                    csrf_token: token_of(done[0].1.session_text()),
                    payment_service_url: payment_url(done[p].1.config()),
                    user: shown_session_user(user_in(done)),
                    categories: categories@,
                },
            )
        },
        StepView::Answer(Err(e)) => {
            &&& done.len() == p + 2
            &&& !(done[p + 1].1 matches Reply::Categories(Ok(_)))
            &&& e == (ErrorView { status: StatusCode::InternalServerError, message: "db error"@ })
        },
        StepView::Abort => done.len() == 2 && done[1].1.done() is Err,
    }
}

proof fn lemma_settings_books(replies: Seq<Reply>)
    ensures
        settings_books(
            replay(resume_settings(), settings_start(), replies),
            exchanges(resume_settings(), settings_start(), replies),
        ),
    decreases replies.len(),
{
    if replies.len() > 0 {
        let before = exchanges(resume_settings(), settings_start(), replies.drop_last());
        let now = exchanges(resume_settings(), settings_start(), replies);
        lemma_settings_books(replies.drop_last());
        assert forall|i: int| 0 <= i < before.len() implies #[trigger] now[i] == before[i] by {}
    }
}

/// What a request for the settings asks for, one after the other: the token of the
/// session, a connection, the id of the user of the session, where there is one that
/// user, the setting with the address of the payment service, and the categories.
pub proof fn law_settings_requests(replies: Seq<Reply>)
    ensures
        ({
            let done = exchanges(resume_settings(), settings_start(), replies);
            let p = if done.len() > 2 && done[2].1 matches Reply::SessionInteger(Ok(Some(_))) {
                4int
            } else {
                3int
            };
            &&& done.len() <= p + 2
            &&& done.len() > 0 ==> done[0].0 == RequestView::SessionText("csrf_token"@)
            &&& done.len() > 1 ==> done[1].0 == RequestView::Acquire
            &&& done.len() > 2 ==> done[2].0 == RequestView::SessionInteger("user_id"@)
            &&& done.len() > 3 && p == 4 ==> {
                &&& done[3].0 is User
                &&& done[3].0->User_0.via == Via::Connection
                &&& done[3].0->User_0.sql == "SELECT * FROM `users` WHERE `id` = ?"@
                &&& done[3].0->User_0.binds =~= seq![
                    BindView::Int(done[2].1->SessionInteger_0->Ok_0->Some_0 as int),
                ]
            }
            &&& done.len() > p ==> {
                &&& done[p].0 is Config
                &&& done[p].0->Config_0.via == Via::Pool
                &&& done[p].0->Config_0.sql == "SELECT * FROM `configs` WHERE `name` = ?"@
                &&& done[p].0->Config_0.binds =~= seq![BindView::Text("payment_service_url"@)]
            }
            &&& done.len() > p + 1 ==> {
                &&& done[p + 1].0 is Categories
                &&& done[p + 1].0->Categories_0.sql == "SELECT * FROM categories"@
                &&& done[p + 1].0->Categories_0.binds.len() == 0
            }
        }),
{
    lemma_settings_books(replies);
}

/// The settings hold the whole token of the session, and an empty one where it has none;
/// the whole address that is stored for the payment service, and the default one where
/// none could be read; the user that was found for the session, by id, name, address and
/// number of items, and none where none was found; and all categories that were read.
/// They are answered exactly where a connection could be had and the categories be read.
pub proof fn law_settings_answer(replies: Seq<Reply>)
    ensures
        ({
            let done = exchanges(resume_settings(), settings_start(), replies);
            let p = if done.len() > 2 && done[2].1 matches Reply::SessionInteger(Ok(Some(_))) {
                4int
            } else {
                3int
            };
            &&& forall|i: int| 0 <= i < done.len() ==> (#[trigger] done[i]).1 == replies[i]
            &&& match replay(resume_settings(), settings_start(), replies) {
                StepView::Ask(_, _) => done.len() == replies.len() && done.len() < p + 2,
                StepView::Abort => done.len() == 2 && !(done[1].1 matches Reply::Done(Ok(_))),
                StepView::Answer(Err(e)) => {
                    &&& done.len() == p + 2
                    &&& !(done[p + 1].1 matches Reply::Categories(Ok(_)))
                    &&& e.status is InternalServerError
                    &&& e.message == "db error"@
                },
                StepView::Answer(Ok(body)) => {
                    &&& done.len() == p + 2
                    &&& body is Settings
                    &&& done[1].1 matches Reply::Done(Ok(_))
                    &&& done[p + 1].1 matches Reply::Categories(Ok(rows))
                        && body->Settings_0.categories == rows@
                    &&& match done[0].1 {
                        Reply::SessionText(Ok(Some(token))) => body->Settings_0.csrf_token
                            == token@,
                        _ => body->Settings_0.csrf_token.len() == 0,
                    }
                    &&& match done[p].1 {
                        Reply::Config(Ok(config)) => body->Settings_0.payment_service_url
                            == config.val@,
                        _ => body->Settings_0.payment_service_url == "http://localhost:5555"@,
                    }
                    &&& match done[3].1 {
                        Reply::User(Ok(user)) if p == 4 => {
                            &&& body->Settings_0.user is Some
                            &&& body->Settings_0.user->0.id == user.id
                            &&& body->Settings_0.user->0.account_name == user.account_name@
                            &&& body->Settings_0.user->0.address == user.address@
                            &&& body->Settings_0.user->0.num_sell_items == user.num_sell_items
                        },
                        _ => body->Settings_0.user is None,
                    }
                },
            }
        }),
{
    lemma_settings_books(replies);
    lemma_exchanges(resume_settings(), settings_start(), replies);
    reveal_strlit("");
}

/// What an initialization asks for: it runs the script, and stores the address of the
/// payment service and then that of the shipment service, each of them whole and under its
/// own name. It goes on as long as all succeeds, and what fails decides the error.
pub proof fn law_initialize_answer(payment: Seq<char>, shipment: Seq<char>, replies: Seq<Reply>)
    ensures
        ({
            let done = exchanges(resume_initialize(), initialize_start(payment, shipment), replies);
            &&& forall|i: int| 0 <= i < done.len() ==> (#[trigger] done[i]).1 == replies[i]
            &&& done.len() <= 3
            &&& done.len() > 0 ==> done[0].0 == RequestView::Run("../sql/init.sh"@)
            &&& done.len() > 1 ==> {
                &&& done[0].1 matches Reply::Done(Ok(_))
                &&& done[1].0 is Execute
                &&& done[1].0->Execute_0.via == Via::Pool
                &&& done[1].0->Execute_0.sql
                    == "INSERT INTO `configs` (`name`, `val`) VALUES (?, ?) ON DUPLICATE KEY UPDATE `val` = VALUES(`val`)"@
                &&& done[1].0->Execute_0.binds =~= seq![
                    BindView::Text("payment_service_url"@),
                    BindView::Text(payment),
                ]
            }
            &&& done.len() > 2 ==> {
                &&& done[1].1 matches Reply::Done(Ok(_))
                &&& done[2].0 is Execute
                &&& done[2].0->Execute_0.via == Via::Pool
                &&& done[2].0->Execute_0.sql
                    == "INSERT INTO `configs` (`name`, `val`) VALUES (?, ?) ON DUPLICATE KEY UPDATE `val` = VALUES(`val`)"@
                &&& done[2].0->Execute_0.binds =~= seq![
                    BindView::Text("shipment_service_url"@),
                    BindView::Text(shipment),
                ]
            }
            &&& match replay(resume_initialize(), initialize_start(payment, shipment), replies) {
                StepView::Ask(_, _) => done.len() == replies.len() && done.len() < 3,
                StepView::Abort => false,
                StepView::Answer(Ok(body)) => {
                    &&& done.len() == 3
                    &&& done[2].1 matches Reply::Done(Ok(_))
                    &&& body == BodyView::Initialize(0, "Rust"@)
                },
                StepView::Answer(Err(e)) => {
                    &&& done.len() > 0
                    &&& !(done.last().1 matches Reply::Done(Ok(_)))
                    &&& e.status is InternalServerError
                    &&& e.message == if done.len() == 1 {
                        "exec init.sh error"@
                    } else {
                        "db error"@
                    }
                },
            }
        }),
{
    lemma_initialize_books(payment, shipment, replies);
    lemma_exchanges(resume_initialize(), initialize_start(payment, shipment), replies);
}

spec fn initialize_books(
    step: StepView<InitializeState>,
    done: Seq<(RequestView, Reply)>,
    payment: Seq<char>,
    shipment: Seq<char>,
) -> bool {
    let script = RequestView::Run("../sql/init.sh"@);
    let pay = store_request("payment_service_url"@, payment);
    let ship = store_request("shipment_service_url"@, shipment);
    &&& done.len() <= 3
    &&& done.len() > 0 ==> done[0].0 == script
    &&& done.len() > 1 ==> done[1].0 == pay && done[0].1.done() is Ok
    &&& done.len() > 2 ==> done[2].0 == ship && done[1].1.done() is Ok
    &&& match step {
        StepView::Ask(InitializeState::Script(p, s), request) => {
            done.len() == 0 && request == script && p == payment && s == shipment
        },
        StepView::Ask(InitializeState::Payment(s), request) => {
            done.len() == 1 && request == pay && s == shipment && done[0].1.done() is Ok
        },
        StepView::Ask(InitializeState::Shipment, request) => {
            done.len() == 2 && request == ship && done[1].1.done() is Ok
        },
        StepView::Abort => false,
        StepView::Answer(Ok(body)) => {
            &&& done.len() == 3
            &&& done[2].1.done() is Ok
            &&& body == BodyView::Initialize(0, "Rust"@)
        },
        StepView::Answer(Err(e)) => {
            &&& done.len() > 0
            &&& done.last().1.done() is Err
            &&& e.status == StatusCode::InternalServerError
            &&& e.message == if done.len() == 1 {
                "exec init.sh error"@
            } else {
                "db error"@
            }
        },
    }
}

proof fn lemma_initialize_books(payment: Seq<char>, shipment: Seq<char>, replies: Seq<Reply>)
    ensures
        initialize_books(
            replay(resume_initialize(), initialize_start(payment, shipment), replies),
            exchanges(resume_initialize(), initialize_start(payment, shipment), replies),
            payment,
            shipment,
        ),
    decreases replies.len(),
{
    if replies.len() > 0 {
        let start = initialize_start(payment, shipment);
        let before = exchanges(resume_initialize(), start, replies.drop_last());
        let now = exchanges(resume_initialize(), start, replies);
        lemma_initialize_books(payment, shipment, replies.drop_last());
        assert forall|i: int| 0 <= i < before.len() implies #[trigger] now[i] == before[i] by {}
    }
}

/// The report asks for the evidences with an id above 15007, and shows each row that comes
/// back, in their order and column by column. A failure is one of the database.
pub proof fn law_report_answer(replies: Seq<Reply>)
    ensures
        ({
            let done = exchanges(resume_reports(), reports_start(), replies);
            &&& done.len() <= 1
            &&& done.len() > 0 ==> {
                &&& done[0].1 == replies[0]
                &&& done[0].0 is Reports
                &&& done[0].0->Reports_0.via == Via::Pool
                &&& done[0].0->Reports_0.sql
                    == "SELECT * FROM `transaction_evidences` WHERE `id` > 15007"@
                &&& done[0].0->Reports_0.binds.len() == 0
            }
            &&& match replay(resume_reports(), reports_start(), replies) {
                StepView::Ask(_, _) => replies.len() == 0,
                StepView::Abort => false,
                StepView::Answer(Ok(body)) => {
                    &&& replies.len() > 0
                    &&& body is Reports
                    &&& replies[0] matches Reply::Reports(Ok(rows)) && {
                        &&& body->Reports_0.len() == rows@.len()
                        &&& forall|i: int|
                            0 <= i < rows@.len() ==> reports_on(
                                #[trigger] body->Reports_0[i],
                                rows@[i],
                            )
                    }
                },
                StepView::Answer(Err(e)) => {
                    &&& replies.len() > 0
                    &&& !(replies[0] matches Reply::Reports(Ok(_)))
                    &&& e.status is InternalServerError
                    &&& e.message == "db error"@
                },
            }
        }),
    decreases replies.len(),
{
    lemma_exchanges(resume_reports(), reports_start(), replies);
    if replies.len() == 1 {
        reveal_with_fuel(replay, 2);
        reveal_with_fuel(exchanges, 2);
    } else if replies.len() > 1 {
        law_report_answer(replies.drop_last());
    }
}

} // verus!
