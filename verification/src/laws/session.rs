//! What the short handlers come to: the settings of a session, the initialization, the
//! report.
use vstd::prelude::*;

use crate::error::{db_error_answer, error_answer, ErrorView, StatusCode};
use crate::initialize::{initialize_start, initialize_step, store_request, InitializeState};
use crate::laws::run::{comes_to, exchanges, replay, run, World};
use crate::lookup::{
    config_request, config_value, payment_url, token_of, user_found, user_id_request, user_request,
};
use crate::model::{
    shown_evidence, shown_evidences, shown_session_user, shown_user, SettingView,
    TransactionEvidence, User,
};
use crate::protocol::{BindView, BodyView, Reply, RequestView, StepView, Via};
use crate::reports::{reports_request, reports_start, reports_step, Reports};
use crate::settings::{categories_request, settings_start, settings_step, SettingsState};

verus! {

/// The user of the session: an error where the session names none, where there is no
/// such user, and where the database fails.
pub open spec fn session_user(world: World, via: Via) -> Result<User, ErrorView> {
    match world(user_id_request()).session_integer() {
        Ok(Some(user_id)) => user_found(world(user_request(via, user_id)).user()),
        _ => Err(error_answer(StatusCode::NotFound, "no session"@)),
    }
}

/// The steps of a handler of a request for the settings.
pub open spec fn resume_settings() -> spec_fn(SettingsState, Reply) -> StepView<SettingsState> {
    |state: SettingsState, reply: Reply| settings_step(state, reply)
}

/// What a request for the settings comes to.
pub open spec fn settings_end(world: World) -> StepView<SettingsState> {
    if world(RequestView::Acquire).done() is Err {
        StepView::Abort
    } else {
        StepView::Answer(
            match world(categories_request()).categories() {
                Ok(categories) => Ok(
                    BodyView::Settings(
                        SettingView {
                            csrf_token: token_of(
                                world(RequestView::SessionText("csrf_token"@)).session_text(),
                            ),
                            payment_service_url: payment_url(
                                world(config_request("payment_service_url"@)).config(),
                            ),
                            user: shown_session_user(
                                match session_user(world, Via::Connection) {
                                    Ok(user) => Some(user),
                                    Err(_) => None,
                                },
                            ),
                            categories: categories@,
                        },
                    ),
                ),
                Err(_) => Err(db_error_answer()),
            },
        )
    }
}

/// A request for the settings is answered with the token, the user, the address of the
/// payment service and the categories. A missing token, user or address is no error.
pub proof fn law_settings(world: World)
    ensures
        comes_to(resume_settings(), world, settings_start(), settings_end(world)),
{
    reveal_with_fuel(run, 8);
    assert(run(resume_settings(), world, settings_start(), 6) == settings_end(world));
}

/// Two replies are alike to someone who sees of users only what the settings show: they
/// differ at most in the passwords and the times of users.
pub open spec fn alike(a: Reply, b: Reply) -> bool {
    match (a, b) {
        (Reply::User(Ok(user)), Reply::User(Ok(other))) => shown_user(user) == shown_user(other),
        _ => a == b,
    }
}

/// Two steps of a handler of a request for the settings are alike.
spec fn steps_alike(a: StepView<SettingsState>, b: StepView<SettingsState>) -> bool {
    match (a, b) {
        (StepView::Ask(state, request), StepView::Ask(other, other_request)) => {
            &&& request == other_request
            &&& match (state, other) {
                (
                    SettingsState::Payment(token, user),
                    SettingsState::Payment(other_token, other_user),
                ) => token == other_token && shown_session_user(user) == shown_session_user(
                    other_user,
                ),
                (
                    SettingsState::Categories(token, user, url),
                    SettingsState::Categories(other_token, other_user, other_url),
                ) => token == other_token && url == other_url && shown_session_user(user)
                    == shown_session_user(other_user),
                _ => state == other,
            }
        },
        _ => a == b,
    }
}

proof fn lemma_settings_alike(a: Seq<Reply>, b: Seq<Reply>)
    requires
        a.len() == b.len(),
        forall|i: int| 0 <= i < a.len() ==> alike(#[trigger] a[i], b[i]),
    ensures
        steps_alike(
            replay(resume_settings(), settings_start(), a),
            replay(resume_settings(), settings_start(), b),
        ),
    decreases a.len(),
{
    if a.len() > 0 {
        assert forall|i: int| 0 <= i < a.len() - 1 implies alike(
            #[trigger] a.drop_last()[i],
            b.drop_last()[i],
        ) by {
            assert(alike(a[i], b[i]));
        }
        lemma_settings_alike(a.drop_last(), b.drop_last());
        assert(alike(a[a.len() - 1], b[a.len() - 1]));
    }
}

/// Whatever the replies: the passwords and the times of users leave no trace in the
/// answer to a request for the settings, nor in what is asked for on the way.
pub proof fn law_settings_hide_passwords_and_times(a: Seq<Reply>, b: Seq<Reply>)
    requires
        a.len() == b.len(),
        forall|i: int| 0 <= i < a.len() ==> alike(#[trigger] a[i], b[i]),
    ensures
        match (
            replay(resume_settings(), settings_start(), a),
            replay(resume_settings(), settings_start(), b),
        ) {
            (StepView::Ask(_, request), StepView::Ask(_, other)) => request == other,
            (end, other) => end == other,
        },
{
    lemma_settings_alike(a, b);
}

/// Two databases that differ at most in the passwords and the times of users give, for
/// one session, the same answer to a request for the settings.
pub proof fn law_settings_of_like_databases(a: World, b: World)
    requires
        forall|request: RequestView| alike(#[trigger] a(request), b(request)),
    ensures
        settings_end(a) == settings_end(b),
        comes_to(resume_settings(), a, settings_start(), settings_end(a)),
        comes_to(resume_settings(), b, settings_start(), settings_end(a)),
{
    assert(alike(a(RequestView::Acquire), b(RequestView::Acquire)));
    assert(alike(a(categories_request()), b(categories_request())));
    let token = RequestView::SessionText("csrf_token"@);
    assert(alike(a(token), b(token)));
    let config = config_request("payment_service_url"@);
    assert(alike(a(config), b(config)));
    assert(alike(a(user_id_request()), b(user_id_request())));
    if let Ok(Some(user_id)) = a(user_id_request()).session_integer() {
        let user = user_request(Via::Connection, user_id);
        assert(alike(a(user), b(user)));
    }
    law_settings(a);
    law_settings(b);
}

/// Two users that differ at most in their passwords and times are shown alike.
pub proof fn law_shown_user(a: User, b: User)
    requires
        a.id == b.id,
        a.account_name@ == b.account_name@,
        a.address@ == b.address@,
        a.num_sell_items == b.num_sell_items,
    ensures
        shown_user(a) == shown_user(b),
{
}

/// The steps of a handler of a request to initialize the service.
pub open spec fn resume_initialize() -> spec_fn(InitializeState, Reply) -> StepView<
    InitializeState,
> {
    |state: InitializeState, reply: Reply| initialize_step(state, reply)
}

/// What a request to initialize the service comes to.
pub open spec fn initialize_answer(
    world: World,
    payment: Seq<char>,
    shipment: Seq<char>,
) -> Result<BodyView, ErrorView> {
    if world(RequestView::Run("../sql/init.sh"@)).done() is Err {
        Err(error_answer(StatusCode::InternalServerError, "exec init.sh error"@))
    } else if world(store_request("payment_service_url"@, payment)).done() is Err || world(
        store_request("shipment_service_url"@, shipment),
    ).done() is Err {
        Err(db_error_answer())
    } else {
        Ok(BodyView::Initialize(0, "Rust"@))
    }
}

/// The initialization runs the script and stores both addresses; what fails first
/// decides the answer.
pub proof fn law_initialize(world: World, payment: Seq<char>, shipment: Seq<char>)
    ensures
        comes_to(
            resume_initialize(),
            world,
            initialize_start(payment, shipment),
            StepView::Answer(initialize_answer(world, payment, shipment)),
        ),
{
    reveal_with_fuel(run, 5);
    assert(run(resume_initialize(), world, initialize_start(payment, shipment), 3)
        == StepView::<InitializeState>::Answer(initialize_answer(world, payment, shipment)));
}

/// An initialization that succeeds has run the script and has stored the two addresses,
/// each under its own name, one after the other and nothing else.
pub proof fn law_initialize_stores(
    payment: Seq<char>,
    shipment: Seq<char>,
    replies: Seq<Reply>,
)
    ensures
        replay(resume_initialize(), initialize_start(payment, shipment), replies) matches
            StepView::Answer(Ok(body)) ==> {
            let done = exchanges(resume_initialize(), initialize_start(payment, shipment), replies);
            &&& body == BodyView::Initialize(0, "Rust"@)
            &&& done.len() == 3
            &&& done[0].0 == RequestView::Run("../sql/init.sh"@)
            &&& done[1].0 == store_request("payment_service_url"@, payment)
            &&& done[2].0 == store_request("shipment_service_url"@, shipment)
            &&& forall|i: int| 0 <= i < 3 ==> (#[trigger] done[i]).1.done() is Ok
        },
{
    lemma_initialize_stores(payment, shipment, replies);
}

/// Where an initialization stands after some replies, and what it has done so far.
proof fn lemma_initialize_stores(payment: Seq<char>, shipment: Seq<char>, replies: Seq<Reply>)
    ensures
        ({
            let start = initialize_start(payment, shipment);
            let step = replay(resume_initialize(), start, replies);
            let done = exchanges(resume_initialize(), start, replies);
            let all_ok = forall|i: int|
                0 <= i < done.len() ==> (#[trigger] done[i]).1.done() is Ok;
            let script = RequestView::Run("../sql/init.sh"@);
            let store_payment = store_request("payment_service_url"@, payment);
            let store_shipment = store_request("shipment_service_url"@, shipment);
            match step {
                StepView::Ask(InitializeState::Script(p, s), request) => {
                    p == payment && s == shipment && request == script && done.len() == 0
                },
                StepView::Ask(InitializeState::Payment(s), request) => {
                    &&& s == shipment && request == store_payment && all_ok
                    &&& done.len() == 1 && done[0].0 == script
                },
                StepView::Ask(InitializeState::Shipment, request) => {
                    &&& request == store_shipment && all_ok
                    &&& done.len() == 2 && done[0].0 == script && done[1].0 == store_payment
                },
                StepView::Answer(Ok(body)) => {
                    &&& body == BodyView::Initialize(0, "Rust"@) && all_ok
                    &&& done.len() == 3 && done[0].0 == script && done[1].0 == store_payment
                    &&& done[2].0 == store_shipment
                },
                _ => true,
            }
        }),
    decreases replies.len(),
{
    if replies.len() > 0 {
        lemma_initialize_stores(payment, shipment, replies.drop_last());
    }
}

/// A statement is executed with `name` as its first value.
pub open spec fn writes_under(request: RequestView, name: Seq<char>) -> bool {
    request matches RequestView::Execute(query) && query.binds.len() > 0 && query.binds[0]
        == BindView::Text(name)
}

/// `request` may change what is stored under `name`: it writes under that name, or it runs
/// a program.
pub open spec fn may_change(request: RequestView, name: Seq<char>) -> bool {
    request is Run || writes_under(request, name)
}

/// `val` is what has been stored last under `name`: the statement that stores a setting
/// has been executed with the two as its values, and nothing that may change it has been
/// done since.
pub open spec fn stored_last(
    done: Seq<(RequestView, Reply)>,
    name: Seq<char>,
    val: Seq<char>,
) -> bool {
    exists|i: int|
        {
            &&& 0 <= i < done.len()
            &&& writes_under((#[trigger] done[i]).0, name)
            &&& done[i].0->Execute_0.sql
                == "INSERT INTO `configs` (`name`, `val`) VALUES (?, ?) ON DUPLICATE KEY UPDATE `val` = VALUES(`val`)"@
            &&& done[i].0->Execute_0.binds.len() == 2
            &&& done[i].0->Execute_0.binds[1] == BindView::Text(val)
            &&& done[i].1 matches Reply::Done(Ok(_))
            &&& forall|j: int| i < j < done.len() ==> !may_change((#[trigger] done[j]).0, name)
        }
}

/// A database that gives back, under each name, what has been stored under it last.
pub open spec fn gives_back(after: World, done: Seq<(RequestView, Reply)>) -> bool {
    forall|name: Seq<char>, val: Seq<char>| #[trigger]
        stored_last(done, name, val) ==> (after(config_request(name)).config() matches Ok(row)
            && row.val@ == val)
}

/// Requests that store settings under different names differ.
proof fn lemma_store_requests_differ(
    name: Seq<char>,
    val: Seq<char>,
    other_name: Seq<char>,
    other_val: Seq<char>,
)
    requires
        name != other_name,
    ensures
        store_request(name, val) != store_request(other_name, other_val),
        !writes_under(store_request(other_name, other_val), name),
        writes_under(store_request(name, val), name),
{
    let binds = store_request(name, val)->Execute_0.binds;
    let other_binds = store_request(other_name, other_val)->Execute_0.binds;
    assert(binds[0] == BindView::Text(name));
    assert(other_binds[0] == BindView::Text(other_name));
}

/// After an initialization that has succeeded, whatever was done before it, each of the
/// two addresses is read back under its own name, and the settings show the address of
/// the payment service.
pub proof fn law_stored_addresses_are_read_back(
    before: Seq<(RequestView, Reply)>,
    payment: Seq<char>,
    shipment: Seq<char>,
    replies: Seq<Reply>,
    after: World,
)
    requires
        replay(resume_initialize(), initialize_start(payment, shipment), replies) matches
            StepView::Answer(Ok(_)),
        gives_back(
            after,
            before + exchanges(resume_initialize(), initialize_start(payment, shipment), replies),
        ),
    ensures
        config_value(after(config_request("payment_service_url"@)).config()) matches Ok(Some(url))
            && url@ == payment,
        config_value(after(config_request("shipment_service_url"@)).config()) matches Ok(Some(url))
            && url@ == shipment,
        settings_end(after) matches StepView::Answer(Ok(BodyView::Settings(settings)))
            ==> settings.payment_service_url == payment,
{
    let last = exchanges(resume_initialize(), initialize_start(payment, shipment), replies);
    law_initialize_stores(payment, shipment, replies);
    let done = before + last;
    let n = before.len() as int;
    assert(done[n + 1] == last[1] && done[n + 2] == last[2]);
    let payment_name = "payment_service_url"@;
    let shipment_name = "shipment_service_url"@;
    assert(payment_name.len() != shipment_name.len()) by {
        reveal_strlit("payment_service_url");
        reveal_strlit("shipment_service_url");
    }
    lemma_store_requests_differ(payment_name, payment, shipment_name, shipment);
    lemma_store_requests_differ(shipment_name, shipment, payment_name, payment);
    assert(stored_last(done, payment_name, payment));
    assert(stored_last(done, shipment_name, shipment));
}

/// Of two initializations that have succeeded one after the other, the second one counts:
/// its addresses are read back.
pub proof fn law_last_initialization_counts(
    first: (Seq<char>, Seq<char>),
    first_replies: Seq<Reply>,
    second: (Seq<char>, Seq<char>),
    second_replies: Seq<Reply>,
    after: World,
)
    requires
        replay(resume_initialize(), initialize_start(first.0, first.1), first_replies) matches
            StepView::Answer(Ok(_)),
        replay(resume_initialize(), initialize_start(second.0, second.1), second_replies) matches
            StepView::Answer(Ok(_)),
        gives_back(
            after,
            exchanges(resume_initialize(), initialize_start(first.0, first.1), first_replies)
                + exchanges(
                resume_initialize(),
                initialize_start(second.0, second.1),
                second_replies,
            ),
        ),
    ensures
        config_value(after(config_request("payment_service_url"@)).config()) matches Ok(Some(url))
            && url@ == second.0,
        config_value(after(config_request("shipment_service_url"@)).config()) matches Ok(Some(url))
            && url@ == second.1,
        settings_end(after) matches StepView::Answer(Ok(BodyView::Settings(settings)))
            ==> settings.payment_service_url == second.0,
{
    law_stored_addresses_are_read_back(
        exchanges(resume_initialize(), initialize_start(first.0, first.1), first_replies),
        second.0,
        second.1,
        second_replies,
        after,
    );
}

/// The steps of a handler of a request for the report.
pub open spec fn resume_reports() -> spec_fn(Reports, Reply) -> StepView<Reports> {
    |state: Reports, reply: Reply| reports_step(state, reply)
}

/// What a request for the report comes to.
pub open spec fn reports_end(world: World) -> StepView<Reports> {
    StepView::Answer(
        match world(reports_request()).reports() {
            Ok(rows) => Ok(BodyView::Reports(shown_evidences(rows@))),
            Err(_) => Err(db_error_answer()),
        },
    )
}

/// The report shows the rows of the database, in their order, each without its times.
pub proof fn law_reports(world: World)
    ensures
        comes_to(resume_reports(), world, reports_start(), reports_end(world)),
{
    reveal_with_fuel(run, 3);
    assert(run(resume_reports(), world, reports_start(), 1) == reports_end(world));
}

/// Two lists of transaction evidences differ at most in the times.
pub open spec fn differ_in_times(
    a: Seq<TransactionEvidence>,
    b: Seq<TransactionEvidence>,
) -> bool {
    a.len() == b.len() && forall|i: int|
        0 <= i < a.len() ==> #[trigger] a[i] == (TransactionEvidence {
            created_at: a[i].created_at,
            updated_at: a[i].updated_at,
            ..b[i]
        })
}

/// Two databases whose transaction evidences differ at most in the times give the same
/// report.
pub proof fn law_reports_of_like_databases(a: World, b: World)
    requires
        match (a(reports_request()).reports(), b(reports_request()).reports()) {
            (Ok(rows), Ok(other)) => differ_in_times(rows@, other@),
            (Err(_), Err(_)) => true,
            _ => false,
        },
    ensures
        reports_end(a) == reports_end(b),
        comes_to(resume_reports(), a, reports_start(), reports_end(a)),
        comes_to(resume_reports(), b, reports_start(), reports_end(a)),
{
    if let (Ok(rows), Ok(other)) = (a(reports_request()).reports(), b(reports_request()).reports())
    {
        assert forall|i: int| 0 <= i < rows@.len() implies shown_evidence(#[trigger] rows@[i])
            == shown_evidence(other@[i]) by {
            assert(rows@[i].id == other@[i].id);
        }
        assert(shown_evidences(rows@) =~= shown_evidences(other@));
    }
    law_reports(a);
    law_reports(b);
}

} // verus!
