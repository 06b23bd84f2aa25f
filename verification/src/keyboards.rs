use crate::repositories::class::{Class, ClassView};
use crate::text::{push_signed, signed_decimal};
use vstd::prelude::*;

verus! {

/// `items` cut into consecutive rows of `size` items; the last row may be
/// shorter.
pub open spec fn chunks<T>(items: Seq<T>, size: nat) -> Seq<Seq<T>>
    decreases items.len(),
{
    if size == 0 || items.len() == 0 {
        Seq::empty()
    } else if items.len() <= size {
        seq![items]
    } else {
        seq![items.take(size as int)] + chunks(items.skip(size as int), size)
    }
}

/// The contents of a list of rows.
pub open spec fn row_views<T>(rows: Seq<Vec<T>>) -> Seq<Seq<T>> {
    rows.map_values(|row: Vec<T>| row@)
}

/// Cuts `items` into consecutive rows of `row_size` items.
pub fn into_rows<T>(items: Vec<T>, row_size: usize) -> (rows: Vec<Vec<T>>)
    requires
        row_size > 0,
    ensures
        row_views(rows@) == chunks(items@, row_size as nat),
{
    let mut rows: Vec<Vec<T>> = Vec::new();
    let mut current: Vec<T> = Vec::new();
    let ghost all = items@;
    let ghost mut start: int = 0;
    proof {
        assert(all.skip(0) =~= all);
        assert(row_views(rows@) + chunks(all.skip(0), row_size as nat) =~= chunks(
            all,
            row_size as nat,
        ));
    }
    for item in it: items
        invariant
            row_size > 0,
            it.seq() == all,
            0 <= start <= it.index() <= all.len(),
            current@ == all.subrange(start, it.index() as int),
            current@.len() < row_size,
            row_views(rows@) + chunks(all.skip(start), row_size as nat) == chunks(
                all,
                row_size as nat,
            ),
    {
        let ghost before = current@;
        current.push(item);
        assert(current@ =~= all.subrange(start, it.index() + 1));
        if current.len() == row_size {
            let ghost rest = all.skip(start);
            let ghost done = row_views(rows@);
            proof {
                assert(rest.len() >= row_size);
                assert(rest.take(row_size as int) =~= current@);
                if rest.len() == row_size {
                    assert(rest.take(row_size as int) =~= rest);
                    assert(chunks(rest.skip(row_size as int), row_size as nat) =~= Seq::<
                        Seq<T>,
                    >::empty());
                }
                assert(chunks(rest, row_size as nat) =~= seq![current@] + chunks(
                    rest.skip(row_size as int),
                    row_size as nat,
                ));
                assert(rest.skip(row_size as int) =~= all.skip(start + row_size));
            }
            rows.push(current);
            current = Vec::new();
            proof {
                assert(row_views(rows@) =~= done.push(rest.take(row_size as int)));
                start = start + row_size;
                assert(current@ =~= all.subrange(start, it.index() + 1));
                assert(row_views(rows@) + chunks(all.skip(start), row_size as nat) =~= done + (
                seq![rest.take(row_size as int)] + chunks(all.skip(start), row_size as nat)));
            }
        }
    }
    let ghost rest = all.skip(start);
    let ghost done = row_views(rows@);
    if current.len() > 0 {
        proof {
            assert(rest =~= current@);
            assert(chunks(rest, row_size as nat) =~= seq![current@]);
        }
        rows.push(current);
        proof {
            assert(row_views(rows@) =~= done.push(rest));
            assert(done.push(rest) =~= done + seq![rest]);
        }
    } else {
        proof {
            assert(rest.len() == 0);
            assert(done + chunks(rest, row_size as nat) =~= done);
        }
    }
    rows
}

/// Cutting into rows and then changing every item gives what changing
/// every item and then cutting into rows gives.
pub proof fn lemma_chunks_map<A, B>(items: Seq<A>, size: nat, f: spec_fn(A) -> B)
    ensures
        chunks(items, size).map_values(|row: Seq<A>| row.map_values(f)) == chunks(
            items.map_values(f),
            size,
        ),
    decreases items.len(),
{
    let each = |row: Seq<A>| row.map_values(f);
    if size == 0 || items.len() == 0 {
        assert(chunks(items, size).map_values(each) =~= chunks(items.map_values(f), size));
    } else if items.len() <= size {
        assert(chunks(items, size).map_values(each) =~= chunks(items.map_values(f), size));
    } else {
        lemma_chunks_map(items.skip(size as int), size, f);
        assert(items.map_values(f).take(size as int) =~= items.take(size as int).map_values(f));
        assert(items.map_values(f).skip(size as int) =~= items.skip(size as int).map_values(f));
        assert(chunks(items, size).map_values(each) =~= seq![
            items.take(size as int).map_values(f),
        ] + chunks(items.skip(size as int), size).map_values(each));
    }
}

/// A button of the menu keyboard under the input field.
#[derive(Debug, PartialEq, Eq)]
pub struct MainMenuButton {
    pub text: String,
}

/// A keyboard under the input field: rows of buttons, kept on screen.
#[derive(Debug, PartialEq, Eq)]
pub struct KeyboardMarkup {
    pub keyboard: Vec<Vec<MainMenuButton>>,
    pub is_persistent: bool,
}

/// A button under a message, which sends `callback_data` back when tapped.
#[derive(Debug, PartialEq, Eq)]
pub struct InlineKeyboardButton {
    pub text: String,
    pub callback_data: String,
}

/// Mathematical value of an inline button.
pub struct InlineKeyboardButtonView {
    pub text: Seq<char>,
    pub callback_data: Seq<char>,
}

impl View for InlineKeyboardButton {
    type V = InlineKeyboardButtonView;

    open spec fn view(&self) -> InlineKeyboardButtonView {
        InlineKeyboardButtonView { text: self.text@, callback_data: self.callback_data@ }
    }
}

/// A keyboard under a message: rows of inline buttons.
#[derive(Debug, PartialEq, Eq)]
pub struct InlineKeyboardMarkup {
    pub inline_keyboard: Vec<Vec<InlineKeyboardButton>>,
}

impl View for KeyboardMarkup {
    type V = Seq<Seq<Seq<char>>>;

    /// The labels of the buttons, row by row.
    open spec fn view(&self) -> Seq<Seq<Seq<char>>> {
        self.keyboard@.map_values(
            |row: Vec<MainMenuButton>| row@.map_values(|b: MainMenuButton| b.text@),
        )
    }
}

impl View for InlineKeyboardMarkup {
    type V = Seq<Seq<InlineKeyboardButtonView>>;

    /// The buttons, row by row.
    open spec fn view(&self) -> Seq<Seq<InlineKeyboardButtonView>> {
        self.inline_keyboard@.map_values(
            |row: Vec<InlineKeyboardButton>| row@.map_values(|b: InlineKeyboardButton| b@),
        )
    }
}

/// The labels of a list of menu buttons.
pub open spec fn button_texts(buttons: Seq<MainMenuButton>) -> Seq<Seq<char>> {
    buttons.map_values(|b: MainMenuButton| b.text@)
}

/// Lays `buttons` out in rows of `row_size`, as a keyboard that stays on
/// screen.
pub fn make_main_menu_keyboard(buttons: Vec<MainMenuButton>, row_size: usize) -> (r:
    KeyboardMarkup)
    requires
        row_size > 0,
    ensures
        r@ == chunks(button_texts(buttons@), row_size as nat),
        r.is_persistent,
{
    let ghost all = buttons@;
    let keyboard = into_rows(buttons, row_size);
    let r = KeyboardMarkup { keyboard, is_persistent: true };
    proof {
        let f = |b: MainMenuButton| b.text@;
        lemma_chunks_map(all, row_size as nat, f);
        assert(r@ =~= row_views(r.keyboard@).map_values(
            |row: Seq<MainMenuButton>| row.map_values(f),
        )) by {
            assert forall|i: int| 0 <= i < r@.len() implies r@[i] == row_views(
                r.keyboard@,
            ).map_values(|row: Seq<MainMenuButton>| row.map_values(f))[i] by {
                assert(r@[i] =~= r.keyboard@[i]@.map_values(f));
            }
        }
    }
    r
}

/// The button that stands for `class` in a list: its label shows the name
/// and the quantity, and a tap sends `prefix` followed by the identifier.
pub open spec fn class_button(class: ClassView, prefix: Seq<char>) -> InlineKeyboardButtonView {
    InlineKeyboardButtonView {
        text: class.rendered(),
        callback_data: prefix + signed_decimal(class.class_id as int),
    }
}

fn make_inline_keyboard(buttons: Vec<InlineKeyboardButton>, row_size: usize) -> (r:
    InlineKeyboardMarkup)
    requires
        row_size > 0,
    ensures
        r@ == chunks(buttons@.map_values(|b: InlineKeyboardButton| b@), row_size as nat),
{
    let ghost all = buttons@;
    let inline_keyboard = into_rows(buttons, row_size);
    let r = InlineKeyboardMarkup { inline_keyboard };
    proof {
        let f = |b: InlineKeyboardButton| b@;
        lemma_chunks_map(all, row_size as nat, f);
        assert(r@ =~= row_views(r.inline_keyboard@).map_values(
            |row: Seq<InlineKeyboardButton>| row.map_values(f),
        )) by {
            assert forall|i: int| 0 <= i < r@.len() implies r@[i] == row_views(
                r.inline_keyboard@,
            ).map_values(|row: Seq<InlineKeyboardButton>| row.map_values(f))[i] by {
                assert(r@[i] =~= r.inline_keyboard@[i]@.map_values(f));
            }
        }
    }
    r
}

/// One inline button per class, in rows of `row_size`.
pub fn make_class_list_inline_keyboard(
    elements: Vec<Class>,
    row_size: usize,
    callback_data_prefix: &str,
) -> (r: InlineKeyboardMarkup)
    requires
        row_size > 0,
    ensures
        r@ == chunks(
            elements@.map_values(|c: Class| class_button(c@, callback_data_prefix@)),
            row_size as nat,
        ),
{
    let mut buttons: Vec<InlineKeyboardButton> = Vec::new();
    let ghost wanted = elements@.map_values(|c: Class| class_button(c@, callback_data_prefix@));
    let mut i: usize = 0;
    while i < elements.len()
        invariant
            0 <= i <= elements.len(),
            wanted == elements@.map_values(|c: Class| class_button(c@, callback_data_prefix@)),
            buttons@.map_values(|b: InlineKeyboardButton| b@) == wanted.take(i as int),
        decreases elements.len() - i,
    {
        let text = elements[i].to_string();
        let mut callback_data = callback_data_prefix.to_owned();
        push_signed(&mut callback_data, elements[i].class_id);
        let ghost before = buttons@;
        buttons.push(InlineKeyboardButton { text, callback_data });
        assert(buttons@.map_values(|b: InlineKeyboardButton| b@) =~= wanted.take(i + 1)) by {
            assert(buttons@.map_values(|b: InlineKeyboardButton| b@) =~= before.map_values(
                |b: InlineKeyboardButton| b@,
            ).push(wanted[i as int]));
        }
        i = i + 1;
    }
    assert(wanted.take(i as int) =~= wanted);
    make_inline_keyboard(buttons, row_size)
}

} // verus!
