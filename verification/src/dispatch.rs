//! The submission round: one report-generation request per configured
//! product category, over the preceding calendar week.
//!
//! This module plans the round — the window, the request bodies and their
//! JSON framing — and applies its per-category outcomes to the registry:
//! an ordered outcome line per category, a fresh record per success, and
//! the seven-day eviction, all in one registry update.

use vstd::prelude::*;

use crate::dates::{
    date_string_of, format_day_number, last_week_window, parse_day_number, parsed_day_number,
    plannable_day, preceding_week,
};
use crate::encode::{int_rep, json_int_array, json_string, push_i32_dec, push_json_string};
use crate::registry::{retained, TaskInfo, TaskRegistry};

verus! {

/// One report request as the platform expects it.
#[derive(Clone, Debug)]
pub struct TaskRequest {
    pub name: String,
    pub data_start_date: String,
    pub data_end_date: String,
    pub format: String,
    pub periodicity: String,
    pub params: String,
    pub product_group_code: i32,
}

/// The task descriptor the platform returns for an accepted request.
#[derive(Clone, Debug)]
pub struct TaskResponse {
    pub id: String,
    pub name: String,
    pub create_date: String,
    pub current_status: String,
    pub data_start_date: String,
    pub data_end_date: String,
    pub org_inn: String,
    pub periodicity: String,
    pub product_group_code: i32,
    pub timeout_secs: i32,
}

/// The product categories a round submits, in submission order.
pub open spec fn product_group_codes_spec() -> Seq<i32> {
    seq![12i32, 16i32, 20i32]
}

pub fn product_group_codes() -> (r: Vec<i32>)
    ensures
        r@ == product_group_codes_spec(),
{
    let r = vec![12i32, 16i32, 20i32];
    assert(r@ =~= product_group_codes_spec());
    r
}

/// The violation categories every request filters on.
pub open spec fn violation_categories_spec() -> Seq<i32> {
    seq![1i32, 2i32, 4i32, 5i32, 6i32, 7i32, 8i32, 9i32, 10i32]
}

pub fn violation_categories() -> (r: Vec<i32>)
    ensures
        r@ == violation_categories_spec(),
{
    let r = vec![1i32, 2i32, 4i32, 5i32, 6i32, 7i32, 8i32, 9i32, 10i32];
    assert(r@ =~= violation_categories_spec());
    r
}

/// The violation kinds every request filters on.
pub open spec fn violation_kinds_spec() -> Seq<i32> {
    seq![
        1i32, 2i32, 5i32, 12i32, 13i32, 3i32, 24i32, 25i32, 6i32, 7i32, 10i32, 11i32, 14i32,
        15i32, 16i32, 17i32, 18i32, 19i32, 20i32, 21i32, 22i32, 23i32, 26i32,
    ]
}

pub fn violation_kinds() -> (r: Vec<i32>)
    ensures
        r@ == violation_kinds_spec(),
{
    let r = vec![
        1i32, 2i32, 5i32, 12i32, 13i32, 3i32, 24i32, 25i32, 6i32, 7i32, 10i32, 11i32, 14i32,
        15i32, 16i32, 17i32, 18i32, 19i32, 20i32, 21i32, 22i32, 23i32, 26i32,
    ];
    assert(r@ =~= violation_kinds_spec());
    r
}

/// The JSON filter payload carried by every request.
pub open spec fn violation_params_spec() -> Seq<char> {
    "{\"violationCategory\":"@ + json_int_array(violation_categories_spec())
        + ",\"violationKind\":"@ + json_int_array(violation_kinds_spec()) + "}"@
}

/// Builds the JSON filter payload.
pub fn violation_params_json() -> (r: String)
    ensures
        r@ == violation_params_spec(),
{
    let mut out = String::new();
    out.append("{\"violationCategory\":");
    let cats = violation_categories();
    crate::encode::push_json_int_array(&mut out, &cats);
    out.append(",\"violationKind\":");
    let kinds = violation_kinds();
    crate::encode::push_json_int_array(&mut out, &kinds);
    out.append("}");
    assert(out@ =~= violation_params_spec());
    out
}

/// What each planned request must hold for a round on `today`: the report
/// name, the preceding week as its window, CSV output, single-shot
/// periodicity, the violation filter payload, and its category code.
pub open spec fn planned_request(req: TaskRequest, code: i32, today: int, weekday: int) -> bool {
    let w = last_week_window(today, weekday);
    &&& req.name@ == "VIOLATIONS"@
    &&& req.data_start_date@ == date_string_of(w.0)
    &&& req.data_end_date@ == date_string_of(w.1)
    &&& req.format@ == "CSV"@
    &&& req.periodicity@ == "SINGLE"@
    &&& req.params@ == violation_params_spec()
    &&& req.product_group_code == code
}

/// Plans one submission round: a request per category, all over the
/// preceding calendar week.
pub fn plan_submission_round(today: i32, weekday: u8, codes: &Vec<i32>) -> (r: Vec<TaskRequest>)
    requires
        plannable_day(today as int),
        weekday < 7,
    ensures
        r@.len() == codes@.len(),
        forall|i: int|
            0 <= i < codes@.len() ==> planned_request(
                #[trigger] r@[i],
                codes@[i],
                today as int,
                weekday as int,
            ),
{
    let (start, end) = preceding_week(today, weekday);
    let start_date = format_day_number(start);
    let end_date = format_day_number(end);
    let params = violation_params_json();
    let mut out: Vec<TaskRequest> = Vec::new();
    let mut i: usize = 0;
    while i < codes.len()
        invariant
            0 <= i <= codes@.len(),
            out@.len() == i,
            start_date@ == date_string_of(last_week_window(today as int, weekday as int).0),
            end_date@ == date_string_of(last_week_window(today as int, weekday as int).1),
            params@ == violation_params_spec(),
            forall|k: int|
                0 <= k < i ==> planned_request(
                    #[trigger] out@[k],
                    codes@[k],
                    today as int,
                    weekday as int,
                ),
        decreases codes@.len() - i,
    {
        let req = TaskRequest {
            name: String::from_str("VIOLATIONS"),
            data_start_date: start_date.clone(),
            data_end_date: end_date.clone(),
            format: String::from_str("CSV"),
            periodicity: String::from_str("SINGLE"),
            params: params.clone(),
            product_group_code: codes[i],
        };
        out.push(req);
        i = i + 1;
    }
    out
}

/// The JSON body posted for one request.
pub open spec fn task_request_json_spec(req: TaskRequest) -> Seq<char> {
    "{\"name\":"@ + json_string(req.name@) + ",\"dataStartDate\":"@ + json_string(
        req.data_start_date@,
    ) + ",\"dataEndDate\":"@ + json_string(req.data_end_date@) + ",\"format\":"@ + json_string(
        req.format@,
    ) + ",\"periodicity\":"@ + json_string(req.periodicity@) + ",\"params\":"@ + json_string(
        req.params@,
    ) + ",\"productGroupCode\":"@ + int_rep(req.product_group_code as int) + "}"@
}

/// Frames one request as the JSON body the platform expects.
pub fn task_request_json(req: &TaskRequest) -> (r: String)
    ensures
        r@ == task_request_json_spec(*req),
{
    let mut out = String::new();
    out.append("{\"name\":");
    push_json_string(&mut out, req.name.as_str());
    out.append(",\"dataStartDate\":");
    push_json_string(&mut out, req.data_start_date.as_str());
    out.append(",\"dataEndDate\":");
    push_json_string(&mut out, req.data_end_date.as_str());
    out.append(",\"format\":");
    push_json_string(&mut out, req.format.as_str());
    out.append(",\"periodicity\":");
    push_json_string(&mut out, req.periodicity.as_str());
    out.append(",\"params\":");
    push_json_string(&mut out, req.params.as_str());
    out.append(",\"productGroupCode\":");
    push_i32_dec(&mut out, req.product_group_code);
    out.append("}");
    assert(out@ =~= task_request_json_spec(*req));
    out
}

/// How one category's submission ended: an accepted task descriptor, a
/// success answer that could not be read as one, or a request that failed
/// after its retries.
pub enum SubmitOutcome {
    Created(TaskResponse),
    BadResponse { body: String },
    RequestFailed { code: i32, message: String },
}

/// The record a successful submission adds to the registry: the server's
/// descriptor, its creation date parsed as `YYYY-MM-DD` and falling back
/// to the round's own day where it does not parse.
pub open spec fn record_of(outcome: SubmitOutcome, today: i32) -> Option<TaskInfo> {
    match outcome {
        SubmitOutcome::Created(resp) => Option::Some(
            TaskInfo {
                id: resp.id,
                product_group_code: resp.product_group_code,
                data_start_date: resp.data_start_date,
                data_end_date: resp.data_end_date,
                status: resp.current_status,
                create_day: match parsed_day_number(resp.create_date@) {
                    Option::Some(d) => d,
                    Option::None => today,
                },
            },
        ),
        SubmitOutcome::BadResponse { .. } => Option::None,
        SubmitOutcome::RequestFailed { .. } => Option::None,
    }
}

/// The outcome line reported for one category.
pub open spec fn outcome_message(outcome: SubmitOutcome) -> Seq<char> {
    match outcome {
        SubmitOutcome::Created(resp) => "✅ Запрос #"@ + int_rep(
            resp.product_group_code as int,
        ) + ", "@ + int_rep(resp.product_group_code as int) + " (id: "@ + resp.id@ + ")"@,
        SubmitOutcome::BadResponse { body } => "❌ Ошибка ответа: "@ + body@,
        SubmitOutcome::RequestFailed { code, message } => {
            "❌ Не удалось создать задачу для pg="@ + int_rep(code as int)
                + ": "@ + message@
        },
    }
}

/// The fresh records of a round, in category order: one per success.
pub open spec fn round_records(outs: Seq<SubmitOutcome>, today: i32) -> Seq<TaskInfo>
    decreases outs.len(),
{
    if outs.len() == 0 {
        Seq::<TaskInfo>::empty()
    } else {
        round_records(outs.drop_last(), today) + match record_of(outs.last(), today) {
            Option::Some(t) => seq![t],
            Option::None => Seq::<TaskInfo>::empty(),
        }
    }
}

/// Applies one round's outcomes: returns the outcome lines in category
/// order — one per outcome, a failure never displacing its neighbours —
/// and performs the registry's eviction-then-insert as a single update.
pub fn apply_submission_round(
    registry: &mut TaskRegistry,
    today: i32,
    outcomes: &Vec<SubmitOutcome>,
) -> (results: Vec<String>)
    ensures
        results@.len() == outcomes@.len(),
        forall|k: int|
            0 <= k < outcomes@.len() ==> #[trigger] results@[k]@ == outcome_message(
                outcomes@[k],
            ),
        final(registry).tasks@ == retained(old(registry).tasks@, today as int) + round_records(
            outcomes@,
            today,
        ),
{
    let mut results: Vec<String> = Vec::new();
    let mut fresh: Vec<TaskInfo> = Vec::new();
    let mut i: usize = 0;
    assert(outcomes@.subrange(0, 0) =~= Seq::<SubmitOutcome>::empty());
    while i < outcomes.len()
        invariant
            0 <= i <= outcomes@.len(),
            results@.len() == i,
            forall|k: int|
                0 <= k < i ==> #[trigger] results@[k]@ == outcome_message(outcomes@[k]),
            fresh@ == round_records(outcomes@.subrange(0, i as int), today),
        decreases outcomes@.len() - i,
    {
        match &outcomes[i] {
            SubmitOutcome::Created(resp) => {
                let mut line = String::new();
                line.append("✅ Запрос #");
                push_i32_dec(&mut line, resp.product_group_code);
                line.append(", ");
                push_i32_dec(&mut line, resp.product_group_code);
                line.append(" (id: ");
                line.append(resp.id.as_str());
                line.append(")");
                assert(line@ =~= outcome_message(outcomes@[i as int]));
                results.push(line);
                let create_day = match parse_day_number(resp.create_date.as_str()) {
                    Option::Some(d) => d,
                    Option::None => today,
                };
                fresh.push(
                    TaskInfo {
                        id: resp.id.clone(),
                        product_group_code: resp.product_group_code,
                        data_start_date: resp.data_start_date.clone(),
                        data_end_date: resp.data_end_date.clone(),
                        status: resp.current_status.clone(),
                        create_day,
                    },
                );
            },
            SubmitOutcome::BadResponse { body } => {
                let mut line = String::new();
                line.append("❌ Ошибка ответа: ");
                line.append(body.as_str());
                assert(line@ =~= outcome_message(outcomes@[i as int]));
                results.push(line);
            },
            SubmitOutcome::RequestFailed { code, message } => {
                let mut line = String::new();
                line.append("❌ Не удалось создать задачу для pg=");
                push_i32_dec(&mut line, *code);
                line.append(": ");
                line.append(message.as_str());
                assert(line@ =~= outcome_message(outcomes@[i as int]));
                results.push(line);
            },
        }
        proof {
            let pre = outcomes@.subrange(0, i + 1);
            assert(pre.drop_last() =~= outcomes@.subrange(0, i as int));
            assert(pre.last() == outcomes@[i as int]);
            assert(fresh@ =~= round_records(pre, today));
        }
        i = i + 1;
    }
    assert(outcomes@.subrange(0, outcomes@.len() as int) =~= outcomes@);
    registry.update_round(today, fresh);
    results
}

} // verus!
