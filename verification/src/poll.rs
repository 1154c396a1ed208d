//! The poller's side of the task registry: turning each task's poll
//! outcome into the status view the operator sees.
//!
//! Every task in the registry snapshot gets exactly one view per cycle; a
//! failed poll degrades only its own task's view to an error marker and
//! never displaces the views of the others.

use vstd::prelude::*;

use crate::registry::TaskInfo;

verus! {

/// A named product group, as the platform reports it.
#[derive(Clone, Debug)]
pub struct ProductGroup {
    pub id: String,
    pub name: String,
}

/// The status descriptor the platform returns for one task.
#[derive(Clone, Debug)]
pub struct TaskStatusResponse {
    pub id: String,
    pub name: String,
    pub create_date: String,
    pub current_status: String,
    pub org_inn: String,
    pub product_group_code: i32,
    pub downloading_storage_days: i32,
    pub product_groups: Vec<ProductGroup>,
    pub timeout_secs: i32,
    pub download_url: Option<String>,
}

/// The read-only projection of one task shown to the operator.
#[derive(Clone, Debug)]
pub struct TaskStatusForUI {
    pub id: String,
    pub product_group_code: i32,
    pub status: String,
    pub create_date: String,
    pub is_completed: bool,
    pub error: Option<String>,
}

/// The human-readable product-group name for a status view's code.
pub open spec fn display_name_of(code: int) -> Seq<char> {
    if code == 1 {
        "Одежда и бельё"@
    } else if code == 2 {
        "Обувь"@
    } else if code == 3 {
        "Табачная продукция"@
    } else if code == 4 {
        "Духи и туалетная вода"@
    } else if code == 5 {
        "Шины"@
    } else if code == 6 {
        "Фотокамеры и вспышки"@
    } else if code == 8 {
        "Молочная продукция"@
    } else if code == 9 {
        "Велосипеды"@
    } else if code == 10 {
        "Медицинские изделия"@
    } else if code == 11 {
        "Алкоголь"@
    } else if code == 12 {
        "Альтернативная табачная продукция"@
    } else if code == 13 {
        "Упакованная вода"@
    } else if code == 14 {
        "Товары из меха"@
    } else if code == 15 {
        "Пиво и слабоалкогольные напитки"@
    } else if code == 16 {
        "Никотиносодержащая продукция"@
    } else if code == 17 {
        "БАДы"@
    } else if code == 19 {
        "Антисептики"@
    } else if code == 20 {
        "Корма для животных"@
    } else if code == 21 {
        "Морепродукты"@
    } else if code == 22 {
        "Безалкогольное пиво"@
    } else if code == 23 {
        "Соки и безалкогольные напитки"@
    } else if code == 25 {
        "Мясные изделия"@
    } else if code == 26 {
        "Ветеринарные препараты"@
    } else if code == 27 {
        "Игрушки"@
    } else if code == 28 {
        "Радиоэлектроника"@
    } else if code == 31 {
        "Титановая продукция"@
    } else if code == 32 {
        "Консервы"@
    } else if code == 33 {
        "Растительные масла"@
    } else if code == 34 {
        "Оптоволокно"@
    } else if code == 35 {
        "Косметика и бытовая химия"@
    } else if code == 36 {
        "Печатная продукция"@
    } else if code == 37 {
        "Бакалея"@
    } else if code == 38 {
        "Фармсырьё и лекарства"@
    } else if code == 39 {
        "Строительные материалы"@
    } else if code == 40 {
        "Пиротехника и огнетушители"@
    } else if code == 41 {
        "Отопительные приборы"@
    } else if code == 42 {
        "Кабельная продукция"@
    } else if code == 43 {
        "Моторные масла"@
    } else if code == 44 {
        "Полимерные трубы"@
    } else if code == 45 {
        "Конфеты и сладости"@
    } else if code == 48 {
        "Автозапчасти"@
    } else if code == 50 {
        "Электронные системы доставки никотина"@
    } else if code == 51 {
        "Смартфоны и ноутбуки"@
    } else {
        "Неизвестно"@
    }
}

impl TaskStatusForUI {
    /// The product-group name shown beside the task.
    pub fn display_name(&self) -> (r: &'static str)
        ensures
            r@ == display_name_of(self.product_group_code as int),
    {
        match self.product_group_code {
            1 => "Одежда и бельё",
            2 => "Обувь",
            3 => "Табачная продукция",
            4 => "Духи и туалетная вода",
            5 => "Шины",
            6 => "Фотокамеры и вспышки",
            8 => "Молочная продукция",
            9 => "Велосипеды",
            10 => "Медицинские изделия",
            11 => "Алкоголь",
            12 => "Альтернативная табачная продукция",
            13 => "Упакованная вода",
            14 => "Товары из меха",
            15 => "Пиво и слабоалкогольные напитки",
            16 => "Никотиносодержащая продукция",
            17 => "БАДы",
            19 => "Антисептики",
            20 => "Корма для животных",
            21 => "Морепродукты",
            22 => "Безалкогольное пиво",
            23 => "Соки и безалкогольные напитки",
            25 => "Мясные изделия",
            26 => "Ветеринарные препараты",
            27 => "Игрушки",
            28 => "Радиоэлектроника",
            31 => "Титановая продукция",
            32 => "Консервы",
            33 => "Растительные масла",
            34 => "Оптоволокно",
            35 => "Косметика и бытовая химия",
            36 => "Печатная продукция",
            37 => "Бакалея",
            38 => "Фармсырьё и лекарства",
            39 => "Строительные материалы",
            40 => "Пиротехника и огнетушители",
            41 => "Отопительные приборы",
            42 => "Кабельная продукция",
            43 => "Моторные масла",
            44 => "Полимерные трубы",
            45 => "Конфеты и сладости",
            48 => "Автозапчасти",
            50 => "Электронные системы доставки никотина",
            51 => "Смартфоны и ноутбуки",
            _ => "Неизвестно",
        }
    }
}

/// How one poll ended: the platform's status descriptor, or the error text
/// of a query that failed after its retries.
pub enum PollOutcome {
    Answered(TaskStatusResponse),
    Failed(String),
}

/// What the view of one task must hold, given that task's record and its
/// own poll outcome: an answer is shown as it came, with completion
/// meaning the `COMPLETED` status; a failure keeps the record's identity,
/// forces the `ERROR` marker, and carries the error text.
pub open spec fn is_view_of(v: TaskStatusForUI, task: TaskInfo, outcome: PollOutcome) -> bool {
    match outcome {
        PollOutcome::Answered(s) => {
            &&& v.id@ == s.id@
            &&& v.product_group_code == s.product_group_code
            &&& v.status@ == s.current_status@
            &&& v.create_date@ == s.create_date@
            &&& v.is_completed == (s.current_status@ == "COMPLETED"@)
            &&& v.error is None
        },
        PollOutcome::Failed(e) => {
            &&& v.id@ == task.id@
            &&& v.product_group_code == task.product_group_code
            &&& v.status@ == "ERROR"@
            &&& v.create_date@ == "—"@
            &&& v.is_completed == false
            &&& v.error is Some
            &&& v.error.unwrap()@ == e@
        },
    }
}

/// Builds the status view of one task from its own poll outcome.
pub fn status_view_of(task: &TaskInfo, outcome: PollOutcome) -> (v: TaskStatusForUI)
    ensures
        is_view_of(v, *task, outcome),
{
    match outcome {
        PollOutcome::Answered(s) => {
            let completed_marker = String::from_str("COMPLETED");
            let is_completed = s.current_status == completed_marker;
            TaskStatusForUI {
                id: s.id,
                product_group_code: s.product_group_code,
                status: s.current_status,
                create_date: s.create_date,
                is_completed,
                error: Option::None,
            }
        },
        PollOutcome::Failed(e) => TaskStatusForUI {
            id: task.id.clone(),
            product_group_code: task.product_group_code,
            status: String::from_str("ERROR"),
            create_date: String::from_str("—"),
            is_completed: false,
            error: Option::Some(e),
        },
    }
}

/// Builds the full status list for one poll cycle: one view per task, each
/// from that task's own outcome, in registry order. The list replaces the
/// previous one as a unit only once every task has been handled.
pub fn build_status_views(tasks: &Vec<TaskInfo>, outcomes: Vec<PollOutcome>) -> (views: Vec<
    TaskStatusForUI,
>)
    requires
        tasks@.len() == outcomes@.len(),
    ensures
        views@.len() == tasks@.len(),
        forall|i: int|
            0 <= i < tasks@.len() ==> is_view_of(#[trigger] views@[i], tasks@[i], outcomes@[i]),
{
    let ghost all = outcomes@;
    let mut remaining = outcomes;
    let mut views: Vec<TaskStatusForUI> = Vec::new();
    let mut i: usize = 0;
    while i < tasks.len()
        invariant
            tasks@.len() == all.len(),
            0 <= i <= tasks@.len(),
            remaining@ == all.subrange(i as int, all.len() as int),
            views@.len() == i,
            forall|k: int|
                0 <= k < i ==> is_view_of(#[trigger] views@[k], tasks@[k], all[k]),
        decreases tasks@.len() - i,
    {
        let outcome = remaining.remove(0);
        assert(outcome == all[i as int]);
        let v = status_view_of(&tasks[i], outcome);
        views.push(v);
        proof {
            assert(remaining@ =~= all.subrange(i + 1, all.len() as int));
        }
        i = i + 1;
    }
    views
}

/// Views that show the same thing.
pub open spec fn view_eq(a: TaskStatusForUI, b: TaskStatusForUI) -> bool {
    &&& a.id@ == b.id@
    &&& a.product_group_code == b.product_group_code
    &&& a.status@ == b.status@
    &&& a.create_date@ == b.create_date@
    &&& a.is_completed == b.is_completed
    &&& (a.error is Some <==> b.error is Some)
    &&& (a.error is Some ==> a.error.unwrap()@ == b.error.unwrap()@)
}

/// Law: a task's status view is determined by that task and its own poll
/// outcome alone. Across two poll cycles whose outcome for one task agree,
/// that task's view is the same, however the other tasks fared — one
/// task's failure can neither suppress nor alter another's entry.
pub proof fn lemma_status_view_isolation(
    views1: Seq<TaskStatusForUI>,
    views2: Seq<TaskStatusForUI>,
    tasks: Seq<TaskInfo>,
    outs1: Seq<PollOutcome>,
    outs2: Seq<PollOutcome>,
    i: int,
)
    requires
        views1.len() == tasks.len(),
        views2.len() == tasks.len(),
        outs1.len() == tasks.len(),
        outs2.len() == tasks.len(),
        forall|k: int| 0 <= k < tasks.len() ==> is_view_of(#[trigger] views1[k], tasks[k], outs1[k]),
        forall|k: int| 0 <= k < tasks.len() ==> is_view_of(#[trigger] views2[k], tasks[k], outs2[k]),
        0 <= i < tasks.len(),
        outs1[i] == outs2[i],
    ensures
        view_eq(views1[i], views2[i]),
{
    assert(is_view_of(views1[i], tasks[i], outs1[i]));
    assert(is_view_of(views2[i], tasks[i], outs2[i]));
}

} // verus!
