use crate::action::{ReplyMarkup, ReplyMarkupView};
use crate::commands::MenuAction;
use crate::keyboards::{button_texts, chunks, make_main_menu_keyboard, MainMenuButton};
use vstd::prelude::*;

verus! {

/// The labels of a list of menu entries.
pub open spec fn labels_of(entries: Seq<MenuAction>) -> Seq<Seq<char>> {
    entries.map_values(|a: MenuAction| a.spec_label())
}

/// The menu keyboard for `entries`: their labels, two to a row.
pub open spec fn menu_markup(entries: Seq<MenuAction>) -> ReplyMarkupView {
    ReplyMarkupView::Keyboard { rows: chunks(labels_of(entries), 2), is_persistent: true }
}

/// Builds the menu keyboard for `entries`.
pub fn menu(entries: Vec<MenuAction>) -> (markup: ReplyMarkup)
    ensures
        markup@ == menu_markup(entries@),
{
    let mut buttons: Vec<MainMenuButton> = Vec::new();
    let mut i: usize = 0;
    while i < entries.len()
        invariant
            0 <= i <= entries.len(),
            button_texts(buttons@) == labels_of(entries@).take(i as int),
        decreases entries.len() - i,
    {
        let ghost before = buttons@;
        buttons.push(MainMenuButton { text: entries[i].label().to_owned() });
        assert(button_texts(buttons@) =~= button_texts(before).push(
            entries@[i as int].spec_label(),
        ));
        assert(button_texts(buttons@) =~= labels_of(entries@).take(i + 1));
        i = i + 1;
    }
    assert(labels_of(entries@).take(i as int) =~= labels_of(entries@));
    ReplyMarkup::Keyboard(make_main_menu_keyboard(buttons, 2))
}

} // verus!
