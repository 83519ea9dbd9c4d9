use taurin::kanban::{
    add_task, create_request, filter_tasks, find_task, remove_task, replace_task, tasks_in_column,
    DragEvent, DragState, KanbanBoard, Task, TaskColumn, TaskForm, TaskPriority,
};

fn task(id: &str, title: &str, desc: Option<&str>, assignee: Option<&str>, column: TaskColumn) -> Task {
    Task {
        id: id.to_string(),
        title: title.to_string(),
        description: desc.map(|d| d.to_string()),
        column,
        priority: TaskPriority::Medium,
        assignee: assignee.map(|a| a.to_string()),
        due_date: None,
        created_at: "2024-01-01".to_string(),
        updated_at: "2024-01-01".to_string(),
    }
}

fn board() -> KanbanBoard {
    KanbanBoard {
        tasks: vec![
            task("1", "Write Report", Some("quarterly numbers"), None, TaskColumn::Todo),
            task("2", "Fix bug", None, Some("Alice"), TaskColumn::InProgress),
            task("3", "Deploy", Some("to production"), None, TaskColumn::Done),
        ],
        columns: vec![],
    }
}

fn ids(ts: &[Task]) -> Vec<String> {
    ts.iter().map(|t| t.id.clone()).collect()
}

#[test]
fn priority_labels_and_classes() {
    assert_eq!(TaskPriority::Low.label(), "低");
    assert_eq!(TaskPriority::Urgent.label(), "緊急");
    assert_eq!(TaskPriority::High.class(), "priority-high");
    assert_eq!(TaskPriority::from_select("Urgent"), TaskPriority::Urgent);
    assert_eq!(TaskPriority::from_select("nonsense"), TaskPriority::Medium);
    for p in [TaskPriority::Low, TaskPriority::Medium, TaskPriority::High, TaskPriority::Urgent] {
        assert_eq!(TaskPriority::from_select(p.select_value()), p);
    }
}

#[test]
fn columns_move_left_and_right() {
    assert_eq!(TaskColumn::Todo.previous(), None);
    assert_eq!(TaskColumn::Todo.next(), Some(TaskColumn::InProgress));
    assert_eq!(TaskColumn::Done.next(), None);
    for c in TaskColumn::all() {
        if let Some(n) = c.next() {
            assert_eq!(n.previous(), Some(c));
        }
    }
    assert_eq!(TaskColumn::InProgress.label(), "In Progress");
    assert_eq!(TaskColumn::Done.icon(), "✅");
    assert_eq!(TaskColumn::InProgress.data_name(), "InProgress");
}

#[test]
fn search_looks_at_title_description_and_assignee() {
    let b = board();
    assert_eq!(ids(&filter_tasks(&b.tasks, "")), vec!["1", "2", "3"]);
    assert_eq!(ids(&filter_tasks(&b.tasks, "REPORT")), vec!["1"]);
    assert_eq!(ids(&filter_tasks(&b.tasks, "production")), vec!["3"]);
    assert_eq!(ids(&filter_tasks(&b.tasks, "alice")), vec!["2"]);
    assert!(filter_tasks(&b.tasks, "zzz").is_empty());
}

#[test]
fn tasks_by_column() {
    let b = board();
    assert_eq!(ids(&tasks_in_column(&b.tasks, TaskColumn::InProgress)), vec!["2"]);
    assert_eq!(find_task(&b.tasks, "3").map(|t| t.title), Some("Deploy".to_string()));
    assert!(find_task(&b.tasks, "9").is_none());
}

#[test]
fn board_changes() {
    let mut b = board();
    add_task(&mut b, task("4", "New", None, None, TaskColumn::Todo));
    assert_eq!(ids(&b.tasks), vec!["1", "2", "3", "4"]);
    remove_task(&mut b, "2");
    assert_eq!(ids(&b.tasks), vec!["1", "3", "4"]);
    replace_task(&mut b, "3", task("3", "Deployed", None, None, TaskColumn::Todo));
    assert_eq!(b.tasks[1].title, "Deployed");
    assert_eq!(b.tasks[1].column, TaskColumn::Todo);
    replace_task(&mut b, "missing", task("x", "x", None, None, TaskColumn::Todo));
    assert_eq!(ids(&b.tasks), vec!["1", "3", "4"]);
}

#[test]
fn form_makes_a_request_only_with_a_title() {
    let mut f = TaskForm::new();
    assert!(create_request(&f).is_none());
    f.title = "Task".to_string();
    f.due_date = "2024-05-01".to_string();
    let r = create_request(&f).unwrap();
    assert_eq!(r.title, "Task");
    assert_eq!(r.description, None);
    assert_eq!(r.due_date, Some("2024-05-01".to_string()));
    assert_eq!(r.priority, TaskPriority::Medium);
    assert_eq!(r.assignee, None);
}

#[test]
fn dragging_a_card_onto_a_column_moves_it() {
    let mut d = DragState::new();
    assert!(d.on_event(DragEvent::PressCard { task_id: "7".to_string(), on_button: true, grip: None, x: 1, y: 1 }).is_none());
    assert!(d.dragging.is_none());
    d.on_event(DragEvent::PressCard { task_id: "7".to_string(), on_button: false, grip: Some((10, 5)), x: 100, y: 50 });
    assert!(d.is_dragging("7"));
    d.on_event(DragEvent::Move { x: 130, y: 80 });
    assert_eq!(d.ghost_position(), (120, 75));
    d.on_event(DragEvent::EnterColumn { column: TaskColumn::Done });
    assert!(d.is_drop_target(TaskColumn::Done));
    assert!(!d.is_drop_target(TaskColumn::Todo));
    let mv = d.on_event(DragEvent::ReleaseOnColumn { column: TaskColumn::Done });
    assert_eq!(mv, Some(("7".to_string(), TaskColumn::Done)));
    assert!(d.dragging.is_none());
    assert!(!d.is_drop_target(TaskColumn::Done));
    assert!(d.on_event(DragEvent::ReleaseOnColumn { column: TaskColumn::Todo }).is_none());
}

#[test]
fn deleting_a_created_task_restores_the_board() {
    let mut b = board();
    add_task(&mut b, task("9", "New", None, None, TaskColumn::Todo));
    assert_eq!(b.tasks.len(), 4);
    remove_task(&mut b, "9");
    assert_eq!(ids(&b.tasks), vec!["1", "2", "3"]);
}

#[test]
fn every_task_is_in_one_column() {
    let mut b = board();
    add_task(&mut b, task("4", "More", None, None, TaskColumn::Todo));
    let counts: Vec<usize> = TaskColumn::all().iter().map(|c| tasks_in_column(&b.tasks, *c).len()).collect();
    assert_eq!(counts, vec![2, 1, 1]);
    assert_eq!(counts.iter().sum::<usize>(), b.tasks.len());
}
