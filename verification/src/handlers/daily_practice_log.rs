use crate::action::{action_views, say, say_with, Action, ActionView, Transition};
use crate::commands::MenuAction;
use crate::database::{Database, DatabaseView};
use crate::handlers::menu::{menu, menu_markup};
use crate::repositories::daily_practice_log::{log_views, DailyPracticeLogView};
use crate::services::daily_practice_log::{
    add_daily_practice_entry,
    add_daily_practice_entry_spec,
    get_daily_practice_log_history,
    get_daily_practice_log_history_spec,
};
use crate::state::{State, StateView};
use crate::text::{join, join_lines, option_text, parse_u16, parse_unsigned, texts_of};
use crate::update::Message;
use vstd::prelude::*;

verus! {

/// The entries of the practice log menu.
pub open spec fn daily_practice_log_menu_entries() -> Seq<MenuAction> {
    seq![
        MenuAction::AddDailyPracticeEntry,
        MenuAction::DailyPracticeLogHistory,
        MenuAction::MainMenu,
    ]
}

/// Opens the practice log menu.
pub fn daily_practice_log_menu_handler(msg: &Message) -> (actions: Vec<Action>)
    ensures
        action_views(actions@) == seq![
            say_with(
                msg.chat_id,
                "Переход в раздел Дневник практик"@,
                menu_markup(daily_practice_log_menu_entries()),
                false,
            ),
        ],
{
    let mut entries: Vec<MenuAction> = Vec::new();
    entries.push(MenuAction::AddDailyPracticeEntry);
    entries.push(MenuAction::DailyPracticeLogHistory);
    entries.push(MenuAction::MainMenu);
    assert(entries@ =~= daily_practice_log_menu_entries());
    let mut actions: Vec<Action> = Vec::new();
    actions.push(
        Action::say_with(
            msg.chat_id,
            "Переход в раздел Дневник практик".to_owned(),
            menu(entries),
            false,
        ),
    );
    assert(action_views(actions@) =~= seq![
        say_with(
            msg.chat_id,
            "Переход в раздел Дневник практик"@,
            menu_markup(daily_practice_log_menu_entries()),
            false,
        ),
    ]);
    actions
}

/// What a text is read as where minutes are asked for.
pub open spec fn minutes_of(text: Option<Seq<char>>) -> Option<u16> {
    match text {
        Some(text) => match parse_unsigned(text, 65535) {
            Some(n) => Some(n as u16),
            None => None,
        },
        None => None,
    }
}

/// What happens when a message arrives while the minutes of a practice
/// entry are awaited: a number that fits sixteen bits ends the exchange
/// with the outcome of `add_daily_practice_entry`, made at `now`; on
/// anything else the question is repeated.
pub open spec fn receive_minutes_spec(
    db: DatabaseView,
    chat_id: i64,
    text: Option<Seq<char>>,
    now: Seq<char>,
) -> (DatabaseView, (StateView, Seq<ActionView>)) {
    match minutes_of(text) {
        Some(minutes) => {
            let (after, added) = add_daily_practice_entry_spec(db, minutes, chat_id, now);
            let report = match added {
                Ok(_) => "✅ Запись успешно добавлена!"@,
                Err(e) => e.message(),
            };
            (after, (StateView::Idle, seq![say(chat_id, report)]))
        },
        None => (
            db,
            (
                StateView::AddingDailyPracticeReceiveMinutes,
                seq![say(chat_id, "Отправьте целое число"@)],
            ),
        ),
    }
}

/// Handles a message while the minutes of a practice entry are awaited.
pub fn receive_minutes(db: &mut Database, msg: &Message, now: &str) -> (r: Transition)
    requires
        old(db).wf(),
    ensures
        final(db).wf(),
        (final(db)@, r@) == receive_minutes_spec(
            old(db)@,
            msg.chat_id,
            option_text(msg.text),
            now@,
        ),
{
    let mut actions: Vec<Action> = Vec::new();
    let minutes = match &msg.text {
        Some(text) => parse_u16(text.as_str()),
        None => None,
    };
    match minutes {
        Some(minutes) => {
            let ghost wanted = receive_minutes_spec(
                old(db)@,
                msg.chat_id,
                option_text(msg.text),
                now@,
            ).1.1;
            let report = match add_daily_practice_entry(
                db,
                minutes,
                msg.chat_id,
                now.to_owned(),
            ) {
                Ok(_) => "✅ Запись успешно добавлена!".to_owned(),
                Err(err) => err.to_string(),
            };
            actions.push(Action::say(msg.chat_id, report));
            assert(action_views(actions@) =~= wanted);
            Transition { state: State::Idle, actions }
        },
        None => {
            actions.push(Action::say(msg.chat_id, "Отправьте целое число".to_owned()));
            assert(action_views(actions@) =~= seq![say(msg.chat_id, "Отправьте целое число"@)]);
            Transition { state: State::AddingDailyPracticeReceiveMinutes, actions }
        },
    }
}

/// The minutes of all entries together.
pub open spec fn total_minutes(rows: Seq<DailyPracticeLogView>) -> nat
    decreases rows.len(),
{
    if rows.len() == 0 {
        0
    } else {
        total_minutes(rows.drop_last()) + rows.last().minutes as nat
    }
}

/// The lines of a practice history.
pub open spec fn practice_lines(rows: Seq<DailyPracticeLogView>) -> Seq<Seq<char>> {
    rows.map_values(|l: DailyPracticeLogView| l.rendered())
}

/// What showing the practice history of a chat sends: the total of the
/// minutes with the entries, one to a line; a notice where there is no
/// entry; the error where the chat is no user.
pub open spec fn list_daily_practice_log_history_spec(db: DatabaseView, chat_id: i64) -> Seq<
    ActionView,
> {
    match get_daily_practice_log_history_spec(db, chat_id) {
        Err(e) => seq![say(chat_id, e.message())],
        Ok(rows) => if rows.len() == 0 {
            seq![say(chat_id, "История практик пуста."@)]
        } else {
            seq![
                ActionView::SendPracticeSummary {
                    chat_id,
                    total_minutes: total_minutes(rows) as u128,
                    entries: join_lines(practice_lines(rows)),
                },
            ]
        },
    }
}

/// Shows the practice history of the chat.
pub fn list_daily_practice_log_history_handler(db: &Database, msg: &Message) -> (actions: Vec<
    Action,
>)
    requires
        db.wf(),
    ensures
        action_views(actions@) == list_daily_practice_log_history_spec(db@, msg.chat_id),
{
    let ghost wanted = list_daily_practice_log_history_spec(db@, msg.chat_id);
    let mut actions: Vec<Action> = Vec::new();
    let logs = match get_daily_practice_log_history(db, msg.chat_id) {
        Ok(logs) => logs,
        Err(err) => {
            actions.push(Action::say(msg.chat_id, err.to_string()));
            assert(action_views(actions@) =~= wanted);
            return actions;
        },
    };
    if logs.len() == 0 {
        actions.push(Action::say(msg.chat_id, "История практик пуста.".to_owned()));
        assert(action_views(actions@) =~= wanted);
        return actions;
    }
    let ghost rows = log_views(logs@);
    let mut total: u128 = 0;
    let mut lines: Vec<String> = Vec::new();
    let mut i: usize = 0;
    assert(rows.take(0) =~= Seq::<DailyPracticeLogView>::empty());
    while i < logs.len()
        invariant
            0 <= i <= logs.len(),
            rows == log_views(logs@),
            total as nat == total_minutes(rows.take(i as int)),
            total <= 65535 * i,
            texts_of(lines@) == practice_lines(rows).take(i as int),
        decreases logs.len() - i,
    {
        let ghost before = lines@;
        proof {
            assert(rows.take(i + 1).drop_last() =~= rows.take(i as int));
            assert(rows.take(i + 1).last() == rows[i as int]);
        }
        total = total + logs[i].minutes as u128;
        lines.push(logs[i].to_string());
        assert(texts_of(lines@) =~= texts_of(before).push(rows[i as int].rendered()));
        assert(texts_of(lines@) =~= practice_lines(rows).take(i + 1));
        i = i + 1;
    }
    assert(rows.take(i as int) =~= rows);
    assert(practice_lines(rows).take(i as int) =~= practice_lines(rows));
    let entries = join(&lines);
    actions.push(Action::SendPracticeSummary { chat_id: msg.chat_id, total_minutes: total, entries });
    assert(action_views(actions@) =~= wanted);
    actions
}

} // verus!
