//! The report on the transactions of the service.
use vstd::prelude::*;

use crate::error::{db_error, db_error_answer};
use crate::model::{
    evidence_views, shown_evidence, shown_evidences, ShownEvidence, TransactionEvidence,
};
use crate::protocol::{
    bind_views, Bind, Body, BodyView, Query, QueryView, Reply, Request, RequestView, Step,
    StepView, Via,
};

verus! {

/// The request for the transaction evidences of the report.
pub open spec fn reports_request() -> RequestView {
    RequestView::Reports(
        QueryView {
            via: Via::Pool,
            sql: "SELECT * FROM `transaction_evidences` WHERE `id` > 15007"@,
            binds: seq![],
        },
    )
}

/// A handler of a request for the report: its rows have been asked for.
#[derive(Clone, Copy, Debug, PartialEq, Eq)]
pub struct Reports;

impl View for Reports {
    type V = Reports;

    open spec fn view(&self) -> Reports {
        *self
    }
}

/// How the handler begins.
pub open spec fn reports_start() -> StepView<Reports> {
    StepView::Ask(Reports, reports_request())
}

/// How the handler continues with a reply.
pub open spec fn reports_step(state: Reports, reply: Reply) -> StepView<Reports> {
    match reply.reports() {
        Ok(rows) => StepView::Answer(Ok(BodyView::Reports(shown_evidences(rows@)))),
        Err(_) => StepView::Answer(Err(db_error_answer())),
    }
}

/// The report on `rows`: each as it is shown, in their order.
pub fn report_of(rows: &Vec<TransactionEvidence>) -> (report: Vec<ShownEvidence>)
    ensures
        report@.len() == rows@.len(),
        evidence_views(report@) == shown_evidences(rows@),
        forall|i: int|
            0 <= i < rows@.len() ==> {
                &&& (#[trigger] report@[i]).id == rows@[i].id
                &&& report@[i].seller_id == rows@[i].seller_id
                &&& report@[i].buyer_id == rows@[i].buyer_id
                &&& report@[i].status@ == rows@[i].status@
                &&& report@[i].item_id == rows@[i].item_id
                &&& report@[i].item_name@ == rows@[i].item_name@
                &&& report@[i].item_price == rows@[i].item_price
                &&& report@[i].item_description@ == rows@[i].item_description@
                &&& report@[i].item_category_id == rows@[i].item_category_id
                &&& report@[i].item_root_category_id == rows@[i].item_root_category_id
            },
{
    let mut report: Vec<ShownEvidence> = Vec::new();
    for i in 0..rows.len()
        invariant
            report@.len() == i,
            forall|j: int| 0 <= j < i ==> (#[trigger] report@[j])@ == shown_evidence(rows@[j]),
    {
        report.push(rows[i].shown());
    }
    assert(evidence_views(report@) =~= shown_evidences(rows@));
    report
}

/// Begins the answer to a request for the report.
pub fn get_reports() -> (step: Step<Reports>)
    ensures
        step@ == reports_start(),
{
    let binds: Vec<Bind> = Vec::new();
    assert(bind_views(binds@) =~= seq![]);
    Step::Ask(
        Reports,
        Request::Reports(
            Query::new(
                Via::Pool,
                "SELECT * FROM `transaction_evidences` WHERE `id` > 15007",
                binds,
            ),
        ),
    )
}

impl Reports {
    /// Ends with the rows of the report.
    pub fn resume(self, reply: Reply) -> (step: Step<Reports>)
        ensures
            step@ == reports_step(self@, reply),
    {
        match reply.reports() {
            Ok(rows) => Step::Answer(Ok(Body::Reports(report_of(&rows)))),
            Err(_) => Step::Answer(Err(db_error())),
        }
    }
}

} // verus!
