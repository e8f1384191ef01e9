use durable_catalog::notice::{
    pack_optimizer_notice, pack_optimizer_notices, render_notice, some_action_if_neq, some_if_neq,
    Action, ActionKind, Column, OptimizerNotice, Rendering,
};

fn s(text: &str) -> String {
    text.to_string()
}

fn rendering(action: &str, action_redacted: &str) -> Rendering {
    Rendering {
        message: s("index on t(a) is too wide"),
        hint: s("drop column b"),
        action: s(action),
        message_redacted: s("index on <REDACTED> is too wide"),
        hint_redacted: s("drop column b"),
        action_redacted: s(action_redacted),
    }
}

#[test]
fn redacted_text_is_kept_only_where_it_differs() {
    assert_eq!(some_if_neq(s("a"), &s("b")), Some(s("a")));
    assert_eq!(some_if_neq(s("a"), &s("a")), None);
    assert_eq!(some_if_neq(s(""), &s("")), None);
    assert_eq!(
        some_action_if_neq(Action::PlainText(s("x")), &Action::SqlStatements(s("x"))),
        Some(Action::PlainText(s("x")))
    );
    assert_eq!(some_action_if_neq(Action::PlainText(s("x")), &Action::PlainText(s("x"))), None);
    assert_eq!(
        some_action_if_neq(Action::SqlStatements(s("x")), &Action::SqlStatements(s("y"))),
        Some(Action::SqlStatements(s("x")))
    );
    assert_eq!(some_action_if_neq(Action::NoAction, &Action::NoAction), None);
}

#[test]
fn notice_is_assembled_from_its_renderings() {
    let notice = render_notice(
        s("IndexTooWideForLiteralConstraints"),
        Some(s("u7")),
        vec![s("u1"), s("u2")],
        ActionKind::SqlStatements,
        rendering("DROP INDEX i", "DROP INDEX <REDACTED>"),
        1_700_000_000_000,
    );
    assert_eq!(
        notice,
        OptimizerNotice {
            kind: s("IndexTooWideForLiteralConstraints"),
            item_id: Some(s("u7")),
            dependencies: vec![s("u1"), s("u2")],
            message: s("index on t(a) is too wide"),
            hint: s("drop column b"),
            action: Action::SqlStatements(s("DROP INDEX i")),
            message_redacted: Some(s("index on <REDACTED> is too wide")),
            hint_redacted: None,
            action_redacted: Some(Action::SqlStatements(s("DROP INDEX <REDACTED>"))),
            created_at: 1_700_000_000_000,
        }
    );
}

#[test]
fn notice_without_concrete_action_has_no_redacted_action() {
    let notice = render_notice(
        s("Kind"),
        None,
        vec![],
        ActionKind::NoAction,
        rendering("ignored", "ignored too"),
        5,
    );
    assert_eq!(notice.action, Action::NoAction);
    assert_eq!(notice.action_redacted, None);
    let notice =
        render_notice(s("Kind"), None, vec![], ActionKind::PlainText, rendering("same", "same"), 5);
    assert_eq!(notice.action, Action::PlainText(s("same")));
    assert_eq!(notice.action_redacted, None);
}

#[test]
fn action_kinds() {
    assert_eq!(Action::new(ActionKind::NoAction, s("x")), Action::NoAction);
    assert_eq!(Action::new(ActionKind::PlainText, s("x")), Action::PlainText(s("x")));
    assert_eq!(Action::new(ActionKind::SqlStatements, s("x")), Action::SqlStatements(s("x")));
    assert_eq!(Action::NoAction.kind(), ActionKind::NoAction);
    assert_eq!(Action::PlainText(s("x")).kind(), ActionKind::PlainText);
    assert_eq!(Action::SqlStatements(s("x")).kind(), ActionKind::SqlStatements);
    assert_eq!(ActionKind::NoAction.as_str(), "");
    assert_eq!(ActionKind::PlainText.as_str(), "plain_text");
    assert_eq!(ActionKind::SqlStatements.as_str(), "sql_statements");
    assert!(Action::NoAction.same_as(&Action::NoAction));
    assert!(!Action::NoAction.same_as(&Action::PlainText(s(""))));
}

#[test]
fn notice_row_has_eleven_columns_in_order() {
    let notice = render_notice(
        s("Kind"),
        Some(s("u7")),
        vec![s("u1"), s("u2")],
        ActionKind::SqlStatements,
        rendering("DROP INDEX i", "DROP INDEX <REDACTED>"),
        42,
    );
    assert_eq!(
        pack_optimizer_notice(&notice),
        vec![
            Column::String(s("Kind")),
            Column::String(s("index on t(a) is too wide")),
            Column::String(s("drop column b")),
            Column::String(s("DROP INDEX i")),
            Column::String(s("index on <REDACTED> is too wide")),
            Column::Null,
            Column::String(s("DROP INDEX <REDACTED>")),
            Column::String(s("sql_statements")),
            Column::String(s("u7")),
            Column::List(vec![s("u1"), s("u2")]),
            Column::TimestampTz(42),
        ]
    );
}

#[test]
fn notice_row_shows_missing_fields_as_null() {
    let notice = OptimizerNotice {
        kind: s("Kind"),
        item_id: None,
        dependencies: vec![],
        message: s("m"),
        hint: s("h"),
        action: Action::NoAction,
        message_redacted: None,
        hint_redacted: Some(s("hr")),
        action_redacted: Some(Action::PlainText(s("do it"))),
        created_at: 0,
    };
    assert_eq!(
        pack_optimizer_notice(&notice),
        vec![
            Column::String(s("Kind")),
            Column::String(s("m")),
            Column::String(s("h")),
            Column::Null,
            Column::Null,
            Column::String(s("hr")),
            Column::String(s("do it")),
            Column::Null,
            Column::Null,
            Column::List(vec![]),
            Column::TimestampTz(0),
        ]
    );
    let with_none = OptimizerNotice { action_redacted: Some(Action::NoAction), ..notice.clone() };
    assert_eq!(pack_optimizer_notice(&with_none)[6], Column::Null);
    let rows = pack_optimizer_notices(&vec![notice.clone(), with_none]);
    assert_eq!(rows.len(), 2);
    assert_eq!(rows[0], pack_optimizer_notice(&notice));
    assert_eq!(rows[1][6], Column::Null);
    assert!(pack_optimizer_notices(&Vec::new()).is_empty());
}
