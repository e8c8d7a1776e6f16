//! The initialization of the service.
use vstd::prelude::*;

use crate::error::{db_error, db_error_answer, error_answer, CustomError, StatusCode};
use crate::model::{ReqInitialize, ResInitialize};
use crate::protocol::{
    bind_views, Bind, BindView, Body, BodyView, Query, QueryView, Reply, Request, RequestView,
    Step, StepView, Via,
};

verus! {

/// The request that stores a setting.
pub open spec fn store_request(name: Seq<char>, val: Seq<char>) -> RequestView {
    RequestView::Execute(
        QueryView {
            via: Via::Pool,
            sql: "INSERT INTO `configs` (`name`, `val`) VALUES (?, ?) ON DUPLICATE KEY UPDATE `val` = VALUES(`val`)"@,
            binds: seq![BindView::Text(name), BindView::Text(val)],
        },
    )
}

fn ask_store(name: &str, val: String) -> (request: Request)
    ensures
        request@ == store_request(name@, val@),
        request matches Request::Execute(query) && {
            &&& query.binds@.len() == 2
            &&& query.binds@[0]@ == BindView::Text(name@)
            &&& query.binds@[1]@ == BindView::Text(val@)
        },
{
    let binds = vec![Bind::Text(name.to_string()), Bind::Text(val)];
    assert(bind_views(binds@) =~= seq![BindView::Text(name@), BindView::Text(val@)]);
    Request::Execute(
        Query::new(
            Via::Pool,
            "INSERT INTO `configs` (`name`, `val`) VALUES (?, ?) ON DUPLICATE KEY UPDATE `val` = VALUES(`val`)",
            binds,
        ),
    )
}

/// A handler of a request to initialize the service.
#[derive(Debug, PartialEq, Eq)]
pub enum Initialize {
    /// The script that fills the database is running.
    Script(ReqInitialize),
    /// The address of the payment service is being stored; that of the shipment service
    /// comes next.
    Payment(String),
    /// The address of the shipment service is being stored.
    Shipment,
}

/// The model of the handler.
pub enum InitializeState {
    Script(Seq<char>, Seq<char>),
    Payment(Seq<char>),
    Shipment,
}

impl View for Initialize {
    type V = InitializeState;

    open spec fn view(&self) -> InitializeState {
        match *self {
            Initialize::Script(ri) => {
                InitializeState::Script(ri.payment_service_url@, ri.shipment_service_url@)
            },
            Initialize::Payment(shipment) => InitializeState::Payment(shipment@),
            Initialize::Shipment => InitializeState::Shipment,
        }
    }
}

/// How the handler begins.
pub open spec fn initialize_start(payment: Seq<char>, shipment: Seq<char>) -> StepView<
    InitializeState,
> {
    StepView::Ask(InitializeState::Script(payment, shipment), RequestView::Run("../sql/init.sh"@))
}

/// How the handler continues with a reply.
pub open spec fn initialize_step(state: InitializeState, reply: Reply) -> StepView<
    InitializeState,
> {
    match state {
        InitializeState::Script(payment, shipment) => match reply.done() {
            Ok(_) => StepView::Ask(
                InitializeState::Payment(shipment),
                store_request("payment_service_url"@, payment),
            ),
            Err(_) => StepView::Answer(
                Err(error_answer(StatusCode::InternalServerError, "exec init.sh error"@)),
            ),
        },
        InitializeState::Payment(shipment) => match reply.done() {
            Ok(_) => StepView::Ask(
                InitializeState::Shipment,
                store_request("shipment_service_url"@, shipment),
            ),
            Err(_) => StepView::Answer(Err(db_error_answer())),
        },
        InitializeState::Shipment => match reply.done() {
            Ok(_) => StepView::Answer(Ok(BodyView::Initialize(0, "Rust"@))),
            Err(_) => StepView::Answer(Err(db_error_answer())),
        },
    }
}

/// Begins the answer to a request to initialize the service.
pub fn post_initialize(ri: ReqInitialize) -> (step: Step<Initialize>)
    ensures
        step@ == initialize_start(ri.payment_service_url@, ri.shipment_service_url@),
{
    Step::Ask(Initialize::Script(ri), Request::Run("../sql/init.sh".to_string()))
}

impl Initialize {
    /// Continues with the reply to the last request.
    pub fn resume(self, reply: Reply) -> (step: Step<Initialize>)
        ensures
            step@ == initialize_step(self@, reply),
    {
        match self {
            Initialize::Script(ri) => match reply.done() {
                Ok(_) => {
                    let request = ask_store("payment_service_url", ri.payment_service_url);
                    Step::Ask(Initialize::Payment(ri.shipment_service_url), request)
                },
                Err(_) => Step::Answer(
                    Err(CustomError::new(StatusCode::InternalServerError, "exec init.sh error")),
                ),
            },
            Initialize::Payment(shipment) => match reply.done() {
                Ok(_) => {
                    Step::Ask(Initialize::Shipment, ask_store("shipment_service_url", shipment))
                },
                Err(_) => Step::Answer(Err(db_error())),
            },
            Initialize::Shipment => match reply.done() {
                Ok(_) => Step::Answer(
                    Ok(
                        Body::Initialize(
                            ResInitialize { campaign: 0, language: "Rust".to_string() },
                        ),
                    ),
                ),
                Err(_) => Step::Answer(Err(db_error())),
            },
        }
    }
}

} // verus!
