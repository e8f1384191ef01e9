//! Optimizer notices: what is kept of a rendered notice, and the row under
//! which it is listed.
//!
//! A notice is rendered twice, once in full and once redacted. The redacted
//! form of a field is kept only where it differs from the full one.
use vstd::prelude::*;
use vstd::string::*;

verus! {

/// The kind of action a notice suggests.
#[derive(Clone, Copy, Debug, PartialEq, Eq, Structural)]
pub enum ActionKind {
    /// No concrete action.
    NoAction,
    /// An action described in plain text.
    PlainText,
    /// An action given as SQL statements.
    SqlStatements,
}

/// The action a notice suggests.
#[derive(Clone, Debug, PartialEq, Eq)]
pub enum Action {
    /// No concrete action.
    NoAction,
    /// An action described in plain text.
    PlainText(String),
    /// An action given as SQL statements.
    SqlStatements(String),
}

/// The mathematical value of an [`Action`].
pub enum ActionView {
    NoAction,
    PlainText(Seq<char>),
    SqlStatements(Seq<char>),
}

impl View for Action {
    type V = ActionView;

    open spec fn view(&self) -> ActionView {
        match *self {
            Action::NoAction => ActionView::NoAction,
            Action::PlainText(text) => ActionView::PlainText(text@),
            Action::SqlStatements(text) => ActionView::SqlStatements(text@),
        }
    }
}

/// The action of the given kind with the given text.
pub open spec fn action_of(kind: ActionKind, text: Seq<char>) -> ActionView {
    match kind {
        ActionKind::SqlStatements => ActionView::SqlStatements(text),
        ActionKind::PlainText => ActionView::PlainText(text),
        ActionKind::NoAction => ActionView::NoAction,
    }
}

impl Action {
    /// The action of the given kind with the given text.
    pub fn new(kind: ActionKind, text: String) -> (action: Action)
        ensures
            action@ == action_of(kind, text@),
    {
        match kind {
            ActionKind::SqlStatements => Action::SqlStatements(text),
            ActionKind::PlainText => Action::PlainText(text),
            ActionKind::NoAction => Action::NoAction,
        }
    }

    /// The kind of the action.
    pub fn kind(&self) -> (kind: ActionKind)
        ensures
            kind == match self@ {
                ActionView::NoAction => ActionKind::NoAction,
                ActionView::PlainText(_) => ActionKind::PlainText,
                ActionView::SqlStatements(_) => ActionKind::SqlStatements,
            },
    {
        match self {
            Action::NoAction => ActionKind::NoAction,
            Action::PlainText(_) => ActionKind::PlainText,
            Action::SqlStatements(_) => ActionKind::SqlStatements,
        }
    }

    /// Whether two actions are the same.
    pub fn same_as(&self, other: &Action) -> (same: bool)
        ensures
            same == (self@ == other@),
    {
        match (self, other) {
            (Action::NoAction, Action::NoAction) => true,
            (Action::PlainText(a), Action::PlainText(b)) => *a == *b,
            (Action::SqlStatements(a), Action::SqlStatements(b)) => *a == *b,
            _ => false,
        }
    }
}

impl ActionKind {
    /// The name of the kind.
    pub fn as_str(&self) -> (name: &'static str)
        ensures
            name@ == match *self {
                ActionKind::NoAction => "".view(),
                ActionKind::PlainText => "plain_text"@,
                ActionKind::SqlStatements => "sql_statements"@,
            },
    {
        match self {
            ActionKind::NoAction => "",
            ActionKind::PlainText => "plain_text",
            ActionKind::SqlStatements => "sql_statements",
        }
    }
}

/// A notice as the optimizer's texts were rendered for it, in full and
/// redacted.
#[derive(Clone, Debug, PartialEq, Eq)]
pub struct Rendering {
    pub message: String,
    pub hint: String,
    pub action: String,
    pub message_redacted: String,
    pub hint_redacted: String,
    pub action_redacted: String,
}

/// A rendered notice.
#[derive(Clone, Debug, PartialEq, Eq)]
pub struct OptimizerNotice {
    /// The name of the notice's kind.
    pub kind: String,
    /// The id of the item the notice is about, if any.
    pub item_id: Option<String>,
    /// The ids of the items the notice depends on.
    pub dependencies: Vec<String>,
    pub message: String,
    pub hint: String,
    pub action: Action,
    pub message_redacted: Option<String>,
    pub hint_redacted: Option<String>,
    pub action_redacted: Option<Action>,
    /// When the notice was created, in milliseconds since the epoch.
    pub created_at: u64,
}

/// Keeps the redacted form of a text where it differs from the full form.
pub fn some_if_neq(redacted: String, full: &String) -> (kept: Option<String>)
    ensures
        match kept {
            Some(text) => text@ == redacted@ && redacted@ != full@,
            None => redacted@ == full@,
        },
{
    if redacted != *full {
        Some(redacted)
    } else {
        None
    }
}

/// Keeps the redacted form of an action where it differs from the full
/// form.
pub fn some_action_if_neq(redacted: Action, full: &Action) -> (kept: Option<Action>)
    ensures
        match kept {
            Some(action) => action@ == redacted@ && redacted@ != full@,
            None => redacted@ == full@,
        },
{
    if !redacted.same_as(full) {
        Some(redacted)
    } else {
        None
    }
}

/// Assembles a notice from its rendered texts. The full texts are kept as
/// they are; a redacted text is kept where it differs from the full one;
/// and the action, full and redacted, is of the given kind.
pub fn render_notice(
    kind: String,
    item_id: Option<String>,
    dependencies: Vec<String>,
    action_kind: ActionKind,
    rendering: Rendering,
    created_at: u64,
) -> (notice: OptimizerNotice)
    ensures
        notice.kind == kind,
        notice.item_id == item_id,
        notice.dependencies == dependencies,
        notice.created_at == created_at,
        notice.message == rendering.message,
        notice.hint == rendering.hint,
        notice.action@ == action_of(action_kind, rendering.action@),
        match notice.message_redacted {
            Some(text) => text@ == rendering.message_redacted@ && text@ != rendering.message@,
            None => rendering.message_redacted@ == rendering.message@,
        },
        match notice.hint_redacted {
            Some(text) => text@ == rendering.hint_redacted@ && text@ != rendering.hint@,
            None => rendering.hint_redacted@ == rendering.hint@,
        },
        match notice.action_redacted {
            Some(action) => action@ == action_of(action_kind, rendering.action_redacted@)
                && action@ != action_of(action_kind, rendering.action@),
            None => action_of(action_kind, rendering.action_redacted@) == action_of(
                action_kind,
                rendering.action@,
            ),
        },
{
    let Rendering { message, hint, action, message_redacted, hint_redacted, action_redacted } =
        rendering;
    let action = Action::new(action_kind, action);
    let action_redacted = Action::new(action_kind, action_redacted);
    OptimizerNotice {
        kind,
        item_id,
        dependencies,
        message_redacted: some_if_neq(message_redacted, &message),
        hint_redacted: some_if_neq(hint_redacted, &hint),
        action_redacted: some_action_if_neq(action_redacted, &action),
        message,
        hint,
        action,
        created_at,
    }
}

/// A column of the row under which a notice is listed.
#[derive(Clone, Debug, PartialEq, Eq)]
pub enum Column {
    Null,
    String(String),
    List(Vec<String>),
    TimestampTz(u64),
}

/// The mathematical value of a [`Column`].
pub enum ColumnView {
    Null,
    String(Seq<char>),
    List(Seq<Seq<char>>),
    TimestampTz(u64),
}

impl View for Column {
    type V = ColumnView;

    open spec fn view(&self) -> ColumnView {
        match *self {
            Column::Null => ColumnView::Null,
            Column::String(text) => ColumnView::String(text@),
            Column::List(items) => ColumnView::List(items.deep_view()),
            Column::TimestampTz(at) => ColumnView::TimestampTz(at),
        }
    }
}

impl DeepView for Column {
    type V = ColumnView;

    open spec fn deep_view(&self) -> ColumnView {
        self@
    }
}

/// The column of a text that may be missing.
pub open spec fn text_column(text: Option<Seq<char>>) -> ColumnView {
    match text {
        Some(text) => ColumnView::String(text),
        None => ColumnView::Null,
    }
}

/// The column that shows an action: its text, or null where there is no
/// concrete action.
pub open spec fn action_column(action: ActionView) -> ColumnView {
    match action {
        ActionView::NoAction => ColumnView::Null,
        ActionView::PlainText(text) => ColumnView::String(text),
        ActionView::SqlStatements(text) => ColumnView::String(text),
    }
}

/// The column that shows the kind of an action, or null where there is no
/// concrete action.
pub open spec fn action_kind_column(action: ActionView) -> ColumnView {
    match action {
        ActionView::NoAction => ColumnView::Null,
        ActionView::PlainText(_) => ColumnView::String("plain_text"@),
        ActionView::SqlStatements(_) => ColumnView::String("sql_statements"@),
    }
}

/// The view of a text that may be missing.
pub open spec fn text_view(text: Option<String>) -> Option<Seq<char>> {
    match text {
        Some(text) => Some(text@),
        None => None,
    }
}

/// The row under which a notice is listed: its kind, message, hint and
/// action; the redacted message, hint and action; the kind of its action;
/// the item it is about; the items it depends on; and when it was created.
pub open spec fn row_of(notice: OptimizerNotice) -> Seq<ColumnView> {
    seq![
        ColumnView::String(notice.kind@),
        ColumnView::String(notice.message@),
        ColumnView::String(notice.hint@),
        action_column(notice.action@),
        text_column(text_view(notice.message_redacted)),
        text_column(text_view(notice.hint_redacted)),
        match notice.action_redacted {
            Some(action) => action_column(action@),
            None => ColumnView::Null,
        },
        action_kind_column(notice.action@),
        text_column(text_view(notice.item_id)),
        ColumnView::List(notice.dependencies.deep_view()),
        ColumnView::TimestampTz(notice.created_at),
    ]
}

fn optional_text(text: &Option<String>) -> (column: Column)
    ensures
        column@ == text_column(text_view(*text)),
{
    match text {
        Some(text) => Column::String(text.clone()),
        None => Column::Null,
    }
}

fn action_text(action: &Action) -> (column: Column)
    ensures
        column@ == action_column(action@),
{
    match action {
        Action::NoAction => Column::Null,
        Action::PlainText(text) => Column::String(text.clone()),
        Action::SqlStatements(text) => Column::String(text.clone()),
    }
}

fn copy_texts(texts: &Vec<String>) -> (copy: Vec<String>)
    ensures
        copy.deep_view() == texts.deep_view(),
{
    let mut copy: Vec<String> = Vec::new();
    let mut i: usize = 0;
    while i < texts.len()
        invariant
            i <= texts.len(),
            copy.len() == i,
            forall|k: int| 0 <= k < i ==> copy[k]@ == texts[k]@,
        decreases texts.len() - i,
    {
        copy.push(texts[i].clone());
        i += 1;
    }
    assert(copy.deep_view() =~= texts.deep_view());
    copy
}

/// Builds the row under which a notice is listed.
pub fn pack_optimizer_notice(notice: &OptimizerNotice) -> (row: Vec<Column>)
    ensures
        row.deep_view() == row_of(*notice),
{
    let mut row: Vec<Column> = Vec::new();
    row.push(Column::String(notice.kind.clone()));
    row.push(Column::String(notice.message.clone()));
    row.push(Column::String(notice.hint.clone()));
    row.push(action_text(&notice.action));
    row.push(optional_text(&notice.message_redacted));
    row.push(optional_text(&notice.hint_redacted));
    row.push(
        match &notice.action_redacted {
            Some(action_redacted) => action_text(action_redacted),
            None => Column::Null,
        },
    );
    row.push(
        match &notice.action {
            Action::NoAction => Column::Null,
            action => Column::String(String::from_str(action.kind().as_str())),
        },
    );
    row.push(optional_text(&notice.item_id));
    row.push(Column::List(copy_texts(&notice.dependencies)));
    row.push(Column::TimestampTz(notice.created_at));
    assert(row.deep_view() =~= row_of(*notice));
    row
}

/// Builds the rows of all notices, in order.
pub fn pack_optimizer_notices(notices: &Vec<OptimizerNotice>) -> (rows: Vec<Vec<Column>>)
    ensures
        rows.len() == notices.len(),
        forall|i: int| 0 <= i < rows.len() ==> (#[trigger] rows[i]).deep_view() == row_of(notices[i]),
{
    let mut rows: Vec<Vec<Column>> = Vec::new();
    let mut i: usize = 0;
    while i < notices.len()
        invariant
            i <= notices.len(),
            rows.len() == i,
            forall|k: int| 0 <= k < i ==> (#[trigger] rows[k]).deep_view() == row_of(notices[k]),
        decreases notices.len() - i,
    {
        rows.push(pack_optimizer_notice(&notices[i]));
        i += 1;
    }
    rows
}

} // verus!
