use czn_core::poll::{
    build_status_views, status_view_of, PollOutcome, TaskStatusForUI, TaskStatusResponse,
};
use czn_core::registry::TaskInfo;
use czn_core::urls::{auth_key_url, sign_in_url, task_status_url, tasks_url};

fn task(id: &str, code: i32) -> TaskInfo {
    TaskInfo {
        id: id.to_string(),
        product_group_code: code,
        data_start_date: "2024-01-01".to_string(),
        data_end_date: "2024-01-07".to_string(),
        status: "NEW".to_string(),
        create_day: 739000,
    }
}

fn answer(id: &str, code: i32, status: &str) -> TaskStatusResponse {
    TaskStatusResponse {
        id: id.to_string(),
        name: "VIOLATIONS".to_string(),
        create_date: "2024-01-10".to_string(),
        current_status: status.to_string(),
        org_inn: "7700000000".to_string(),
        product_group_code: code,
        downloading_storage_days: 30,
        product_groups: vec![],
        timeout_secs: 60,
        download_url: None,
    }
}

#[test]
fn one_failed_poll_marks_only_its_own_task() {
    let tasks = vec![task("task-a", 12), task("task-b", 16)];
    let outcomes = vec![
        PollOutcome::Failed("Ошибка сети: таймаут".to_string()),
        PollOutcome::Answered(answer("task-b", 16, "COMPLETED")),
    ];
    let views = build_status_views(&tasks, outcomes);
    assert_eq!(views.len(), 2);

    assert_eq!(views[0].id, "task-a");
    assert_eq!(views[0].product_group_code, 12);
    assert_eq!(views[0].status, "ERROR");
    assert_eq!(views[0].create_date, "—");
    assert!(!views[0].is_completed);
    assert_eq!(views[0].error.as_deref(), Some("Ошибка сети: таймаут"));

    assert_eq!(views[1].id, "task-b");
    assert_eq!(views[1].product_group_code, 16);
    assert_eq!(views[1].status, "COMPLETED");
    assert_eq!(views[1].create_date, "2024-01-10");
    assert!(views[1].is_completed);
    assert!(views[1].error.is_none());
}

#[test]
fn a_status_other_than_completed_is_not_completed() {
    let view = status_view_of(&task("t", 12), PollOutcome::Answered(answer("t", 12, "NEW")));
    assert_eq!(view.status, "NEW");
    assert!(!view.is_completed);
    assert!(view.error.is_none());
}

#[test]
fn display_names_follow_the_product_group_code() {
    let mut view = TaskStatusForUI {
        id: "t".to_string(),
        product_group_code: 12,
        status: "NEW".to_string(),
        create_date: "2024-01-10".to_string(),
        is_completed: false,
        error: None,
    };
    assert_eq!(view.display_name(), "Альтернативная табачная продукция");
    view.product_group_code = 16;
    assert_eq!(view.display_name(), "Никотиносодержащая продукция");
    view.product_group_code = 20;
    assert_eq!(view.display_name(), "Корма для животных");
    view.product_group_code = 99;
    assert_eq!(view.display_name(), "Неизвестно");
}

#[test]
fn endpoints_are_assembled_exactly() {
    assert_eq!(
        auth_key_url(),
        "https://markirovka.crpt.ru/api/v3/true-api/auth/key"
    );
    assert_eq!(
        sign_in_url(),
        "https://markirovka.crpt.ru/api/v3/true-api/auth/simpleSignIn"
    );
    assert_eq!(
        tasks_url(),
        "https://markirovka.crpt.ru/api/v3/true-api/dispenser/tasks"
    );
    assert_eq!(
        task_status_url("abc-1", 20),
        "https://markirovka.crpt.ru/api/v3/true-api/dispenser/tasks/abc-1?pg=20"
    );
}
