//! The kanban board: tasks in three columns, a search over their text, the
//! task form, and dragging a card from one column to another.
use vstd::prelude::*;
use crate::text::clone_opt;
use crate::text::contains;
use crate::text::contains_str;
use crate::text::lower;
use crate::text::lowercase;
use crate::text::opt_view;
use crate::text::same_text;

verus! {

/// How urgent a task is.
#[derive(Clone, Copy, Debug, PartialEq, Eq, Structural)]
pub enum TaskPriority {
    Low,
    Medium,
    High,
    Urgent,
}

/// The badge text of a priority.
pub open spec fn priority_label(p: TaskPriority) -> Seq<char> {
    match p {
        TaskPriority::Low => "低"@,
        TaskPriority::Medium => "中"@,
        TaskPriority::High => "高"@,
        TaskPriority::Urgent => "緊急"@,
    }
}

/// The style class of a priority.
pub open spec fn priority_class(p: TaskPriority) -> Seq<char> {
    match p {
        TaskPriority::Low => "priority-low"@,
        TaskPriority::Medium => "priority-medium"@,
        TaskPriority::High => "priority-high"@,
        TaskPriority::Urgent => "priority-urgent"@,
    }
}

/// The value of a priority in the form's select element.
pub open spec fn priority_value(p: TaskPriority) -> Seq<char> {
    match p {
        TaskPriority::Low => "Low"@,
        TaskPriority::Medium => "Medium"@,
        TaskPriority::High => "High"@,
        TaskPriority::Urgent => "Urgent"@,
    }
}

/// The priority a select value stands for; an unknown value means `Medium`.
pub open spec fn priority_of_value(v: Seq<char>) -> TaskPriority {
    if v == "Low"@ {
        TaskPriority::Low
    } else if v == "Medium"@ {
        TaskPriority::Medium
    } else if v == "High"@ {
        TaskPriority::High
    } else if v == "Urgent"@ {
        TaskPriority::Urgent
    } else {
        TaskPriority::Medium
    }
}

impl TaskPriority {
    /// The badge text.
    pub fn label(&self) -> (s: &'static str)
        ensures
            s@ == priority_label(*self),
    {
        match self {
            TaskPriority::Low => "低",
            TaskPriority::Medium => "中",
            TaskPriority::High => "高",
            TaskPriority::Urgent => "緊急",
        }
    }

    /// The style class.
    pub fn class(&self) -> (s: &'static str)
        ensures
            s@ == priority_class(*self),
    {
        match self {
            TaskPriority::Low => "priority-low",
            TaskPriority::Medium => "priority-medium",
            TaskPriority::High => "priority-high",
            TaskPriority::Urgent => "priority-urgent",
        }
    }

    /// The select value.
    pub fn select_value(&self) -> (s: &'static str)
        ensures
            s@ == priority_value(*self),
    {
        match self {
            TaskPriority::Low => "Low",
            TaskPriority::Medium => "Medium",
            TaskPriority::High => "High",
            TaskPriority::Urgent => "Urgent",
        }
    }

    /// The priority chosen in the select element.
    pub fn from_select(value: &str) -> (p: TaskPriority)
        ensures
            p == priority_of_value(value@),
    {
        if same_text(value, "Low") {
            TaskPriority::Low
        } else if same_text(value, "Medium") {
            TaskPriority::Medium
        } else if same_text(value, "High") {
            TaskPriority::High
        } else if same_text(value, "Urgent") {
            TaskPriority::Urgent
        } else {
            TaskPriority::Medium
        }
    }
}

/// Reading back the select value of a priority gives that priority.
pub proof fn law_priority_value_round_trip(p: TaskPriority)
    ensures
        priority_of_value(priority_value(p)) == p,
{
    reveal_strlit("Low");
    reveal_strlit("Medium");
    reveal_strlit("High");
    reveal_strlit("Urgent");
    assert("Low"@.len() == 3 && "Medium"@.len() == 6 && "High"@.len() == 4 && "Urgent"@.len() == 6);
    assert("Urgent"@[0] == 'U' && "Medium"@[0] == 'M');
}

/// The three columns of the board, left to right.
#[derive(Clone, Copy, Debug, PartialEq, Eq, Structural)]
pub enum TaskColumn {
    Todo,
    InProgress,
    Done,
}

/// The header text of a column.
pub open spec fn column_label(c: TaskColumn) -> Seq<char> {
    match c {
        TaskColumn::Todo => "To Do"@,
        TaskColumn::InProgress => "In Progress"@,
        TaskColumn::Done => "Done"@,
    }
}

/// The header icon of a column.
pub open spec fn column_icon(c: TaskColumn) -> Seq<char> {
    match c {
        TaskColumn::Todo => "📋"@,
        TaskColumn::InProgress => "🔄"@,
        TaskColumn::Done => "✅"@,
    }
}

/// The name of a column in the page's data attribute.
pub open spec fn column_data(c: TaskColumn) -> Seq<char> {
    match c {
        TaskColumn::Todo => "Todo"@,
        TaskColumn::InProgress => "InProgress"@,
        TaskColumn::Done => "Done"@,
    }
}

/// The column to the left, if any.
pub open spec fn column_before(c: TaskColumn) -> Option<TaskColumn> {
    match c {
        TaskColumn::Todo => None,
        TaskColumn::InProgress => Some(TaskColumn::Todo),
        TaskColumn::Done => Some(TaskColumn::InProgress),
    }
}

/// The column to the right, if any.
pub open spec fn column_after(c: TaskColumn) -> Option<TaskColumn> {
    match c {
        TaskColumn::Todo => Some(TaskColumn::InProgress),
        TaskColumn::InProgress => Some(TaskColumn::Done),
        TaskColumn::Done => None,
    }
}

impl TaskColumn {
    /// The header text.
    pub fn label(&self) -> (s: &'static str)
        ensures
            s@ == column_label(*self),
    {
        match self {
            TaskColumn::Todo => "To Do",
            TaskColumn::InProgress => "In Progress",
            TaskColumn::Done => "Done",
        }
    }

    /// The header icon.
    pub fn icon(&self) -> (s: &'static str)
        ensures
            s@ == column_icon(*self),
    {
        match self {
            TaskColumn::Todo => "📋",
            TaskColumn::InProgress => "🔄",
            TaskColumn::Done => "✅",
        }
    }

    /// The data attribute value.
    pub fn data_name(&self) -> (s: &'static str)
        ensures
            s@ == column_data(*self),
    {
        match self {
            TaskColumn::Todo => "Todo",
            TaskColumn::InProgress => "InProgress",
            TaskColumn::Done => "Done",
        }
    }

    /// Where the card's left arrow moves it (none in the first column).
    pub fn previous(&self) -> (r: Option<TaskColumn>)
        ensures
            r == column_before(*self),
    {
        match self {
            TaskColumn::Todo => None,
            TaskColumn::InProgress => Some(TaskColumn::Todo),
            TaskColumn::Done => Some(TaskColumn::InProgress),
        }
    }

    /// Where the card's right arrow moves it (none in the last column).
    pub fn next(&self) -> (r: Option<TaskColumn>)
        ensures
            r == column_after(*self),
    {
        match self {
            TaskColumn::Todo => Some(TaskColumn::InProgress),
            TaskColumn::InProgress => Some(TaskColumn::Done),
            TaskColumn::Done => None,
        }
    }

    /// The columns, left to right.
    pub fn all() -> (r: [TaskColumn; 3])
        ensures
            r@ == seq![TaskColumn::Todo, TaskColumn::InProgress, TaskColumn::Done],
    {
        [TaskColumn::Todo, TaskColumn::InProgress, TaskColumn::Done]
    }
}

/// Moving a card right and then left, or left and then right, brings it back.
pub proof fn law_column_moves_undo(c: TaskColumn)
    ensures
        column_after(c) matches Some(n) ==> column_before(n) == Some(c),
        column_before(c) matches Some(p) ==> column_after(p) == Some(c),
        column_before(c) is None <==> c == TaskColumn::Todo,
        column_after(c) is None <==> c == TaskColumn::Done,
{
}

/// A task on the board.
#[derive(Clone)]
pub struct Task {
    pub id: String,
    pub title: String,
    pub description: Option<String>,
    pub column: TaskColumn,
    pub priority: TaskPriority,
    pub assignee: Option<String>,
    pub due_date: Option<String>,
    pub created_at: String,
    pub updated_at: String,
}

/// A task as values.
pub struct TaskView {
    pub id: Seq<char>,
    pub title: Seq<char>,
    pub description: Option<Seq<char>>,
    pub column: TaskColumn,
    pub priority: TaskPriority,
    pub assignee: Option<Seq<char>>,
    pub due_date: Option<Seq<char>>,
    pub created_at: Seq<char>,
    pub updated_at: Seq<char>,
}

impl View for Task {
    type V = TaskView;

    open spec fn view(&self) -> TaskView {
        TaskView {
            id: self.id@,
            title: self.title@,
            description: opt_view(self.description),
            column: self.column,
            priority: self.priority,
            assignee: opt_view(self.assignee),
            due_date: opt_view(self.due_date),
            created_at: self.created_at@,
            updated_at: self.updated_at@,
        }
    }
}

impl Task {
    /// A copy of the task.
    pub fn copy(&self) -> (r: Task)
        ensures
            r@ == self@,
    {
        Task {
            id: self.id.clone(),
            title: self.title.clone(),
            description: clone_opt(&self.description),
            column: self.column,
            priority: self.priority,
            assignee: clone_opt(&self.assignee),
            due_date: clone_opt(&self.due_date),
            created_at: self.created_at.clone(),
            updated_at: self.updated_at.clone(),
        }
    }
}

/// The views of a list of tasks.
pub open spec fn task_views(v: Seq<Task>) -> Seq<TaskView> {
    v.map_values(|t: Task| t@)
}

/// The configuration of one column.
#[derive(Clone)]
pub struct ColumnConfig {
    pub id: TaskColumn,
    pub name: String,
    pub color: String,
}

/// The whole board as the backend stores it.
#[derive(Clone)]
pub struct KanbanBoard {
    pub tasks: Vec<Task>,
    pub columns: Vec<ColumnConfig>,
}

// ---------------------------------------------------------------------------
// Searching and grouping
// ---------------------------------------------------------------------------

/// An optional text that contains `q` once lower-cased.
pub open spec fn opt_contains(o: Option<Seq<char>>, q: Seq<char>) -> bool {
    match o {
        Some(s) => contains(lower(s), q),
        None => false,
    }
}

/// The task's title, description or assignee contains the lower-cased query `q`.
pub open spec fn task_matches(t: TaskView, q: Seq<char>) -> bool {
    contains(lower(t.title), q) || opt_contains(t.description, q) || opt_contains(t.assignee, q)
}

/// The tasks, in order, that match the lower-cased query `q`.
pub open spec fn matching(ts: Seq<TaskView>, q: Seq<char>) -> Seq<TaskView>
    decreases ts.len(),
{
    if ts.len() == 0 {
        ts
    } else if task_matches(ts.last(), q) {
        matching(ts.drop_last(), q).push(ts.last())
    } else {
        matching(ts.drop_last(), q)
    }
}

/// The tasks shown for a search: all of them for an empty query, else those
/// whose text contains the query, both lower-cased.
pub open spec fn shown_tasks(ts: Seq<TaskView>, query: Seq<char>) -> Seq<TaskView> {
    if query.len() == 0 {
        ts
    } else {
        matching(ts, lower(query))
    }
}

/// The tasks, in order, in column `c`.
pub open spec fn in_column(ts: Seq<TaskView>, c: TaskColumn) -> Seq<TaskView>
    decreases ts.len(),
{
    if ts.len() == 0 {
        ts
    } else if ts.last().column == c {
        in_column(ts.drop_last(), c).push(ts.last())
    } else {
        in_column(ts.drop_last(), c)
    }
}

/// Whether an optional text contains `q` once lower-cased.
fn opt_text_contains(o: &Option<String>, q: &str) -> (b: bool)
    ensures
        b == opt_contains(opt_view(*o), q@),
{
    match o {
        Some(s) => {
            let l = lowercase(s.as_str());
            contains_str(l.as_str(), q)
        },
        None => false,
    }
}

/// Whether the task matches the lower-cased query.
pub fn matches_query(t: &Task, q: &str) -> (b: bool)
    ensures
        b == task_matches(t@, q@),
{
    let title = lowercase(t.title.as_str());
    if contains_str(title.as_str(), q) {
        return true;
    }
    if opt_text_contains(&t.description, q) {
        return true;
    }
    opt_text_contains(&t.assignee, q)
}

/// The tasks shown for the search box's text.
pub fn filter_tasks(tasks: &Vec<Task>, query: &str) -> (r: Vec<Task>)
    ensures
        task_views(r@) == shown_tasks(task_views(tasks@), query@),
{
    let ghost tv = task_views(tasks@);
    let empty = query.is_empty();
    let q = lowercase(query);
    let mut r: Vec<Task> = Vec::new();
    let mut i: usize = 0;
    while i < tasks.len()
        invariant
            i <= tasks.len(),
            tv == task_views(tasks@),
            empty == (query@.len() == 0),
            q@ == lower(query@),
            task_views(r@) == (if empty { tv.take(i as int) } else { matching(
                tv.take(i as int),
                q@,
            ) }),
        decreases tasks.len() - i,
    {
        let t = &tasks[i];
        assert(tv.take(i + 1).drop_last() =~= tv.take(i as int));
        if empty || matches_query(t, q.as_str()) {
            let ghost before = r@;
            r.push(t.copy());
            assert(task_views(r@) =~= task_views(before).push(t@));
        }
        proof {
            let a = task_views(r@);
            if empty {
                assert(tv.take(i + 1) =~= tv.take(i as int).push(tv[i as int]));
            }
        }
        i += 1;
    }
    assert(tv.take(tasks.len() as int) =~= tv);
    r
}

/// The tasks of one column, in order.
pub fn tasks_in_column(tasks: &Vec<Task>, column: TaskColumn) -> (r: Vec<Task>)
    ensures
        task_views(r@) == in_column(task_views(tasks@), column),
{
    let ghost tv = task_views(tasks@);
    let mut r: Vec<Task> = Vec::new();
    let mut i: usize = 0;
    while i < tasks.len()
        invariant
            i <= tasks.len(),
            tv == task_views(tasks@),
            task_views(r@) == in_column(tv.take(i as int), column),
        decreases tasks.len() - i,
    {
        let t = &tasks[i];
        assert(tv.take(i + 1).drop_last() =~= tv.take(i as int));
        if t.column == column {
            let ghost before = r@;
            r.push(t.copy());
            assert(task_views(r@) =~= task_views(before).push(t@));
        }
        i += 1;
    }
    assert(tv.take(tasks.len() as int) =~= tv);
    r
}

/// The first task with the given id, if any.
pub open spec fn first_with_id(ts: Seq<TaskView>, id: Seq<char>) -> Option<int> {
    if exists|k: int| 0 <= k < ts.len() && ts[k].id == id {
        Some(
            choose|k: int|
                0 <= k < ts.len() && ts[k].id == id && forall|j: int|
                    0 <= j < k ==> ts[j].id != id,
        )
    } else {
        None
    }
}

/// Finds the first task with the given id.
pub fn find_task_index(tasks: &Vec<Task>, id: &str) -> (r: Option<usize>)
    ensures
        match r {
            Some(k) => k < tasks.len() && tasks@[k as int].id@ == id@ && forall|j: int|
                0 <= j < k ==> tasks@[j].id@ != id@,
            None => forall|j: int| 0 <= j < tasks.len() ==> tasks@[j].id@ != id@,
        },
        r matches Some(k) ==> first_with_id(task_views(tasks@), id@) == Some(k as int),
        r is None ==> first_with_id(task_views(tasks@), id@) is None,
{
    let mut i: usize = 0;
    while i < tasks.len()
        invariant
            i <= tasks.len(),
            forall|j: int| 0 <= j < i ==> tasks@[j].id@ != id@,
        decreases tasks.len() - i,
    {
        if same_text(tasks[i].id.as_str(), id) {
            proof {
                let tv = task_views(tasks@);
                assert(tv[i as int].id == id@);
                let k = choose|k: int|
                    0 <= k < tv.len() && tv[k].id == id@ && forall|j: int|
                        0 <= j < k ==> tv[j].id != id@;
                assert(0 <= k < tv.len() && tv[k].id == id@ && forall|j: int|
                    0 <= j < k ==> tv[j].id != id@);
                if k < i {
                    assert(tasks@[k].id@ != id@);
                }
                if k > i {
                    assert(tv[i as int].id != id@);
                }
            }
            return Some(i);
        }
        i += 1;
    }
    proof {
        let tv = task_views(tasks@);
        assert forall|k: int| 0 <= k < tv.len() implies tv[k].id != id@ by {
            assert(tasks@[k].id@ != id@);
        }
    }
    None
}

/// The task being dragged, looked up among the shown tasks.
pub fn find_task(tasks: &Vec<Task>, id: &str) -> (r: Option<Task>)
    ensures
        match first_with_id(task_views(tasks@), id@) {
            Some(k) => r matches Some(t) && t@ == task_views(tasks@)[k],
            None => r is None,
        },
{
    match find_task_index(tasks, id) {
        Some(k) => Some(tasks[k].copy()),
        None => None,
    }
}

// ---------------------------------------------------------------------------
// Changes to the board after the backend answered
// ---------------------------------------------------------------------------

/// A created task joins the end of the list.
pub fn add_task(board: &mut KanbanBoard, task: Task)
    ensures
        task_views(final(board).tasks@) == task_views(old(board).tasks@).push(task@),
        final(board).columns@ == old(board).columns@,
{
    board.tasks.push(task);
    assert(task_views(board.tasks@) =~= task_views(old(board).tasks@).push(task@));
}

/// The tasks, in order, whose id is not `id`.
pub open spec fn without_id(ts: Seq<TaskView>, id: Seq<char>) -> Seq<TaskView>
    decreases ts.len(),
{
    if ts.len() == 0 {
        ts
    } else if ts.last().id != id {
        without_id(ts.drop_last(), id).push(ts.last())
    } else {
        without_id(ts.drop_last(), id)
    }
}

/// A deleted task leaves the list; every task with its id goes.
pub fn remove_task(board: &mut KanbanBoard, id: &str)
    ensures
        task_views(final(board).tasks@) == without_id(task_views(old(board).tasks@), id@),
        final(board).columns@ == old(board).columns@,
{
    let ghost tv = task_views(board.tasks@);
    let mut kept: Vec<Task> = Vec::new();
    let mut i: usize = 0;
    while i < board.tasks.len()
        invariant
            i <= board.tasks.len(),
            board.tasks@ == old(board).tasks@,
            board.columns@ == old(board).columns@,
            tv == task_views(board.tasks@),
            task_views(kept@) == without_id(tv.take(i as int), id@),
        decreases board.tasks.len() - i,
    {
        assert(tv.take(i + 1).drop_last() =~= tv.take(i as int));
        if !same_text(board.tasks[i].id.as_str(), id) {
            let t = board.tasks[i].copy();
            let ghost before = kept@;
            let ghost tv1 = t@;
            kept.push(t);
            assert(task_views(kept@) =~= task_views(before).push(tv1));
        }
        i += 1;
    }
    assert(tv.take(board.tasks.len() as int) =~= tv);
    board.tasks = kept;
}

/// A moved task replaces the first task with its id; without one, nothing changes.
pub fn replace_task(board: &mut KanbanBoard, id: &str, updated: Task)
    ensures
        match first_with_id(task_views(old(board).tasks@), id@) {
            Some(k) => task_views(final(board).tasks@) == task_views(old(board).tasks@).update(
                k,
                updated@,
            ),
            None => task_views(final(board).tasks@) == task_views(old(board).tasks@),
        },
        final(board).columns@ == old(board).columns@,
{
    match find_task_index(&board.tasks, id) {
        Some(k) => {
            board.tasks.set(k, updated);
            assert(task_views(board.tasks@) =~= task_views(old(board).tasks@).update(
                k as int,
                updated@,
            ));
        },
        None => {},
    }
}

/// Without any task of that id, removing the id changes nothing.
proof fn lemma_without_absent(ts: Seq<TaskView>, id: Seq<char>)
    requires
        forall|k: int| 0 <= k < ts.len() ==> ts[k].id != id,
    ensures
        without_id(ts, id) == ts,
    decreases ts.len(),
{
    if ts.len() > 0 {
        lemma_without_absent(ts.drop_last(), id);
        assert(ts.drop_last().push(ts.last()) =~= ts);
    }
}

/// Deleting a task that was just created, under an id no other task has,
/// gives back the board's tasks as they were before.
pub proof fn law_delete_after_create(ts: Seq<TaskView>, t: TaskView)
    requires
        forall|k: int| 0 <= k < ts.len() ==> ts[k].id != t.id,
    ensures
        without_id(ts.push(t), t.id) == ts,
{
    assert(ts.push(t).drop_last() =~= ts);
    lemma_without_absent(ts, t.id);
}

/// After a deletion no task with the deleted id is left.
pub proof fn law_deleted_id_gone(ts: Seq<TaskView>, id: Seq<char>)
    ensures
        forall|k: int| 0 <= k < without_id(ts, id).len() ==> without_id(ts, id)[k].id != id,
    decreases ts.len(),
{
    if ts.len() > 0 {
        law_deleted_id_gone(ts.drop_last(), id);
    }
}

/// Every task shows in exactly one of the three columns.
pub proof fn law_every_task_in_one_column(ts: Seq<TaskView>)
    ensures
        in_column(ts, TaskColumn::Todo).len() + in_column(ts, TaskColumn::InProgress).len()
            + in_column(ts, TaskColumn::Done).len() == ts.len(),
    decreases ts.len(),
{
    if ts.len() > 0 {
        law_every_task_in_one_column(ts.drop_last());
    }
}

// ---------------------------------------------------------------------------
// The task form
// ---------------------------------------------------------------------------

/// What the task form holds.
#[derive(Clone)]
pub struct TaskForm {
    pub title: String,
    pub description: String,
    pub priority: TaskPriority,
    pub due_date: String,
}

impl TaskForm {
    /// The form as it opens: empty, with medium priority.
    pub fn new() -> (f: TaskForm)
        ensures
            f.title@.len() == 0,
            f.description@.len() == 0,
            f.priority == TaskPriority::Medium,
            f.due_date@.len() == 0,
    {
        TaskForm {
            title: String::new(),
            description: String::new(),
            priority: TaskPriority::Medium,
            due_date: String::new(),
        }
    }
}

/// What the backend is asked to create.
#[derive(Clone)]
pub struct CreateTaskRequest {
    pub title: String,
    pub description: Option<String>,
    pub priority: TaskPriority,
    pub assignee: Option<String>,
    pub due_date: Option<String>,
}

/// An empty text stands for no value.
pub open spec fn non_empty(s: Seq<char>) -> Option<Seq<char>> {
    if s.len() == 0 {
        None
    } else {
        Some(s)
    }
}

/// The request the form makes; none while the title is empty.
pub fn create_request(form: &TaskForm) -> (r: Option<CreateTaskRequest>)
    ensures
        form.title@.len() == 0 <==> r is None,
        r matches Some(q) ==> {
            &&& q.title@ == form.title@
            &&& opt_view(q.description) == non_empty(form.description@)
            &&& q.priority == form.priority
            &&& q.assignee is None
            &&& opt_view(q.due_date) == non_empty(form.due_date@)
        },
{
    if form.title.as_str().is_empty() {
        return None;
    }
    let description = if form.description.as_str().is_empty() {
        None
    } else {
        Some(form.description.clone())
    };
    let due_date = if form.due_date.as_str().is_empty() {
        None
    } else {
        Some(form.due_date.clone())
    };
    Some(
        CreateTaskRequest {
            title: form.title.clone(),
            description,
            priority: form.priority,
            assignee: None,
            due_date,
        },
    )
}

// ---------------------------------------------------------------------------
// Dragging a card
// ---------------------------------------------------------------------------

/// The state of a drag with the mouse.
pub struct DragState {
    /// The card being dragged.
    pub dragging: Option<String>,
    /// The column under the mouse.
    pub hover: Option<TaskColumn>,
    /// The mouse position.
    pub pos: (i32, i32),
    /// Where in the card the mouse took hold of it.
    pub offset: (i32, i32),
}

/// What the page reports to the drag logic.
pub enum DragEvent {
    /// A press on a card; `on_button` when it fell on one of its buttons,
    /// `grip` the mouse's place inside the card when the card was found.
    PressCard { task_id: String, on_button: bool, grip: Option<(i32, i32)>, x: i32, y: i32 },
    /// The mouse moved.
    Move { x: i32, y: i32 },
    /// The mouse entered a column.
    EnterColumn { column: TaskColumn },
    /// The mouse left a column.
    LeaveColumn,
    /// The button was released over a column.
    ReleaseOnColumn { column: TaskColumn },
    /// The button was released anywhere else.
    Release,
}

impl Clone for DragState {
    fn clone(&self) -> (r: Self)
        ensures
            opt_view(r.dragging) == opt_view(self.dragging),
            r.hover == self.hover,
            r.pos == self.pos,
            r.offset == self.offset,
    {
        let dragging = match &self.dragging {
            Some(d) => Some(d.clone()),
            None => None,
        };
        DragState { dragging, hover: self.hover, pos: self.pos, offset: self.offset }
    }
}

impl DragState {
    /// No drag under way.
    pub fn new() -> (s: DragState)
        ensures
            s.dragging is None,
            s.hover is None,
            s.pos == (0i32, 0i32),
            s.offset == (0i32, 0i32),
    {
        DragState { dragging: None, hover: None, pos: (0, 0), offset: (0, 0) }
    }

    /// Whether the column is where the dragged card would land.
    pub fn is_drop_target(&self, column: TaskColumn) -> (b: bool)
        ensures
            b == (self.hover == Some(column) && self.dragging is Some),
    {
        match self.hover {
            Some(h) => h == column && self.dragging.is_some(),
            None => false,
        }
    }

    /// Whether the card with this id is the one being dragged.
    pub fn is_dragging(&self, task_id: &str) -> (b: bool)
        ensures
            b == (self.dragging matches Some(d) && d@ == task_id@),
    {
        match &self.dragging {
            Some(d) => same_text(d.as_str(), task_id),
            None => false,
        }
    }

    /// Where the card's ghost is drawn: the mouse less the grip.
    pub fn ghost_position(&self) -> (p: (i32, i32))
        requires
            i32::MIN <= self.pos.0 - self.offset.0 <= i32::MAX,
            i32::MIN <= self.pos.1 - self.offset.1 <= i32::MAX,
        ensures
            p.0 == self.pos.0 - self.offset.0,
            p.1 == self.pos.1 - self.offset.1,
    {
        (self.pos.0 - self.offset.0, self.pos.1 - self.offset.1)
    }

    /// Applies an event; a release over a column with a card in hand asks for
    /// that card to move there.
    pub fn on_event(&mut self, event: DragEvent) -> (mv: Option<(String, TaskColumn)>)
        ensures
            *final(self) == (DragState {
                dragging: final(self).dragging,
                hover: final(self).hover,
                offset: final(self).offset,
                pos: final(self).pos,
                ..*old(self)
            }),
            match event {
                DragEvent::PressCard { task_id, on_button, grip, x, y } => {
                    &&& mv is None
                    &&& final(self).hover == old(self).hover
                    &&& if on_button {
                        &&& final(self).dragging == old(self).dragging
                        &&& final(self).pos == old(self).pos
                        &&& final(self).offset == old(self).offset
                    } else {
                        &&& final(self).dragging == Some(task_id)
                        &&& final(self).pos == (x, y)
                        &&& final(self).offset == (match grip {
                            Some(g) => g,
                            None => old(self).offset,
                        })
                    }
                },
                DragEvent::Move { x, y } => {
                    &&& mv is None
                    &&& final(self).pos == (x, y)
                    &&& final(self).dragging == old(self).dragging
                    &&& final(self).hover == old(self).hover
                    &&& final(self).offset == old(self).offset
                },
                DragEvent::EnterColumn { column } => {
                    &&& mv is None
                    &&& final(self).hover == Some(column)
                    &&& final(self).dragging == old(self).dragging
                    &&& final(self).pos == old(self).pos
                    &&& final(self).offset == old(self).offset
                },
                DragEvent::LeaveColumn => {
                    &&& mv is None
                    &&& final(self).hover is None
                    &&& final(self).dragging == old(self).dragging
                    &&& final(self).pos == old(self).pos
                    &&& final(self).offset == old(self).offset
                },
                DragEvent::ReleaseOnColumn { column } => {
                    &&& final(self).dragging is None
                    &&& final(self).hover == old(self).hover
                    &&& final(self).pos == old(self).pos
                    &&& final(self).offset == old(self).offset
                    &&& match old(self).dragging {
                        Some(id) => mv matches Some(m) && m.0@ == id@ && m.1 == column,
                        None => mv is None,
                    }
                },
                DragEvent::Release => {
                    &&& mv is None
                    &&& final(self).dragging is None
                    &&& final(self).hover == old(self).hover
                    &&& final(self).pos == old(self).pos
                    &&& final(self).offset == old(self).offset
                },
            },
    {
        match event {
            DragEvent::PressCard { task_id, on_button, grip, x, y } => {
                if !on_button {
                    if let Some(g) = grip {
                        self.offset = g;
                    }
                    self.pos = (x, y);
                    self.dragging = Some(task_id);
                }
                None
            },
            DragEvent::Move { x, y } => {
                self.pos = (x, y);
                None
            },
            DragEvent::EnterColumn { column } => {
                self.hover = Some(column);
                None
            },
            DragEvent::LeaveColumn => {
                self.hover = None;
                None
            },
            DragEvent::ReleaseOnColumn { column } => {
                let held = self.dragging.take();
                match held {
                    Some(id) => Some((id, column)),
                    None => None,
                }
            },
            DragEvent::Release => {
                self.dragging = None;
                None
            },
        }
    }
}

} // verus!
