use chrono::Datelike;
use czn_core::dispatch::{
    apply_submission_round, plan_submission_round, product_group_codes, task_request_json,
    violation_params_json, SubmitOutcome, TaskRequest, TaskResponse,
};
use czn_core::registry::{TaskInfo, TaskRegistry};

fn day_number(y: i32, m: u32, d: u32) -> i32 {
    chrono::NaiveDate::from_ymd_opt(y, m, d).unwrap().num_days_from_ce()
}

fn created(id: &str, code: i32, create_date: &str) -> SubmitOutcome {
    SubmitOutcome::Created(TaskResponse {
        id: id.to_string(),
        name: "VIOLATIONS".to_string(),
        create_date: create_date.to_string(),
        current_status: "NEW".to_string(),
        data_start_date: "2024-01-01".to_string(),
        data_end_date: "2024-01-07".to_string(),
        org_inn: "7700000000".to_string(),
        periodicity: "SINGLE".to_string(),
        product_group_code: code,
        timeout_secs: 60,
    })
}

fn record(id: &str, code: i32, create_day: i32) -> TaskInfo {
    TaskInfo {
        id: id.to_string(),
        product_group_code: code,
        data_start_date: "2024-01-01".to_string(),
        data_end_date: "2024-01-07".to_string(),
        status: "NEW".to_string(),
        create_day,
    }
}

#[test]
fn a_round_of_three_categories_with_one_failure_reports_three_outcomes_in_order() {
    let mut registry = TaskRegistry::new();
    let today = day_number(2024, 1, 10);
    let outcomes = vec![
        created("task-a", 12, "2024-01-10"),
        SubmitOutcome::RequestFailed {
            code: 16,
            message: "Ошибка 500: внутренняя ошибка".to_string(),
        },
        created("task-b", 20, "2024-01-10"),
    ];
    let results = apply_submission_round(&mut registry, today, &outcomes);
    assert_eq!(results.len(), 3);
    assert_eq!(results[0], "✅ Запрос #12, 12 (id: task-a)");
    assert_eq!(
        results[1],
        "❌ Не удалось создать задачу для pg=16: Ошибка 500: внутренняя ошибка"
    );
    assert_eq!(results[2], "✅ Запрос #20, 20 (id: task-b)");
    assert_eq!(registry.tasks.len(), 2);
    assert_eq!(registry.tasks[0].id, "task-a");
    assert_eq!(registry.tasks[0].product_group_code, 12);
    assert_eq!(registry.tasks[1].id, "task-b");
    assert_eq!(registry.tasks[1].product_group_code, 20);
}

#[test]
fn an_unreadable_success_body_gives_an_outcome_line_and_no_record() {
    let mut registry = TaskRegistry::new();
    let today = day_number(2024, 1, 10);
    let outcomes = vec![SubmitOutcome::BadResponse { body: "<html>".to_string() }];
    let results = apply_submission_round(&mut registry, today, &outcomes);
    assert_eq!(results, vec!["❌ Ошибка ответа: <html>".to_string()]);
    assert!(registry.tasks.is_empty());
}

#[test]
fn a_round_evicts_week_old_records_and_keeps_fresh_ones() {
    let today = day_number(2024, 1, 10);
    let mut registry = TaskRegistry::new();
    registry.tasks = vec![
        record("stale", 12, today - 8),
        record("fresh", 16, today - 1),
    ];
    let results = apply_submission_round(&mut registry, today, &vec![]);
    assert!(results.is_empty());
    assert_eq!(registry.tasks.len(), 1);
    assert_eq!(registry.tasks[0].id, "fresh");
}

#[test]
fn a_record_exactly_seven_days_old_is_evicted_and_six_days_kept() {
    let today = day_number(2024, 1, 10);
    let mut registry = TaskRegistry::new();
    registry.tasks = vec![
        record("seven", 12, today - 7),
        record("six", 16, today - 6),
    ];
    apply_submission_round(&mut registry, today, &vec![]);
    assert_eq!(registry.tasks.len(), 1);
    assert_eq!(registry.tasks[0].id, "six");
}

#[test]
fn a_created_task_records_its_parsed_creation_date() {
    let mut registry = TaskRegistry::new();
    let today = day_number(2024, 1, 10);
    let outcomes = vec![created("t", 12, "2024-01-09")];
    apply_submission_round(&mut registry, today, &outcomes);
    assert_eq!(registry.tasks[0].create_day, day_number(2024, 1, 9));
}

#[test]
fn an_unparsable_creation_date_falls_back_to_the_round_day() {
    let mut registry = TaskRegistry::new();
    let today = day_number(2024, 1, 10);
    let outcomes = vec![created("t", 12, "не дата")];
    apply_submission_round(&mut registry, today, &outcomes);
    assert_eq!(registry.tasks[0].create_day, today);
}

#[test]
fn the_round_window_is_the_preceding_monday_to_sunday_week() {
    // 2024-01-10 was a Wednesday.
    let today = day_number(2024, 1, 10);
    let date = chrono::NaiveDate::from_ymd_opt(2024, 1, 10).unwrap();
    let weekday = date.weekday().num_days_from_monday() as u8;
    assert_eq!(weekday, 2);
    let codes = product_group_codes();
    assert_eq!(codes, vec![12, 16, 20]);
    let requests = plan_submission_round(today, weekday, &codes);
    assert_eq!(requests.len(), 3);
    for (i, req) in requests.iter().enumerate() {
        assert_eq!(req.name, "VIOLATIONS");
        assert_eq!(req.data_start_date, "2024-01-01");
        assert_eq!(req.data_end_date, "2024-01-07");
        assert_eq!(req.format, "CSV");
        assert_eq!(req.periodicity, "SINGLE");
        assert_eq!(req.product_group_code, codes[i]);
    }
}

#[test]
fn a_monday_round_still_targets_the_full_previous_week() {
    // 2024-01-08 was a Monday.
    let today = day_number(2024, 1, 8);
    let requests = plan_submission_round(today, 0, &vec![12]);
    assert_eq!(requests[0].data_start_date, "2024-01-01");
    assert_eq!(requests[0].data_end_date, "2024-01-07");
}

#[test]
fn the_violation_filter_payload_is_the_exact_json() {
    let params = violation_params_json();
    assert_eq!(
        params,
        "{\"violationCategory\":[1,2,4,5,6,7,8,9,10],\"violationKind\":[1,2,5,12,13,3,24,25,6,7,10,11,14,15,16,17,18,19,20,21,22,23,26]}"
    );
    let parsed: serde_json::Value = serde_json::from_str(&params).unwrap();
    assert_eq!(parsed["violationCategory"][2], 4);
    assert_eq!(parsed["violationKind"][5], 3);
}

#[test]
fn the_request_body_is_json_that_parses_back_to_its_fields() {
    let req = TaskRequest {
        name: "VIOLATIONS".to_string(),
        data_start_date: "2024-01-01".to_string(),
        data_end_date: "2024-01-07".to_string(),
        format: "CSV".to_string(),
        periodicity: "SINGLE".to_string(),
        params: violation_params_json(),
        product_group_code: 16,
    };
    let body = task_request_json(&req);
    let parsed: serde_json::Value = serde_json::from_str(&body).unwrap();
    assert_eq!(parsed["name"], "VIOLATIONS");
    assert_eq!(parsed["dataStartDate"], "2024-01-01");
    assert_eq!(parsed["dataEndDate"], "2024-01-07");
    assert_eq!(parsed["format"], "CSV");
    assert_eq!(parsed["periodicity"], "SINGLE");
    assert_eq!(parsed["productGroupCode"], 16);
    assert_eq!(parsed["params"], req.params.as_str());
}

#[test]
fn json_escaping_survives_quotes_backslashes_and_controls() {
    let req = TaskRequest {
        name: "a\"b\\c\nd\te\u{1}".to_string(),
        data_start_date: String::new(),
        data_end_date: String::new(),
        format: String::new(),
        periodicity: String::new(),
        params: String::new(),
        product_group_code: -7,
    };
    let body = task_request_json(&req);
    let parsed: serde_json::Value = serde_json::from_str(&body).unwrap();
    assert_eq!(parsed["name"], "a\"b\\c\nd\te\u{1}");
    assert_eq!(parsed["productGroupCode"], -7);
}
