//! The entity list page: a fixed number of numbered rows, each with a
//! text label and an action button.

use vstd::prelude::*;

use crate::text::{decimal_string, spec_decimal};

verus! {

/// How many rows the entity list shows.
pub const ENTITY_LIST_ROWS: u64 = 80;

/// Label on each row's action button.
pub open spec fn spec_row_button_label() -> Seq<char> {
    "操作"@
}

/// The text of the row numbered `n`.
pub open spec fn spec_row_text(n: nat) -> Seq<char> {
    "列表项 "@ + spec_decimal(n)
}

/// One row of the entity list.
#[derive(Debug, Clone)]
pub struct ListItem {
    /// Text shown on the left of the row.
    pub text: String,
    /// Label of the button on the right of the row.
    pub button_label: String,
}

/// Mathematical image of a [`ListItem`].
pub struct ListItemModel {
    pub text: Seq<char>,
    pub button_label: Seq<char>,
}

impl View for ListItem {
    type V = ListItemModel;

    open spec fn view(&self) -> ListItemModel {
        ListItemModel { text: self.text@, button_label: self.button_label@ }
    }
}

/// A row with the given text and the fixed button label.
pub fn create_list_item(text: &str) -> (r: ListItem)
    ensures
        r@.text == text@,
        r@.button_label == spec_row_button_label(),
{
    ListItem { text: text.to_owned(), button_label: String::from_str("操作") }
}

/// The text of the row numbered `n`.
pub fn row_text(n: u64) -> (r: String)
    ensures
        r@ == spec_row_text(n as nat),
{
    let mut s = String::from_str("列表项 ");
    let number = decimal_string(n);
    s.append(number.as_str());
    s
}

/// The entity list page and its rows.
pub struct EntityList {
    title: String,
    rows: Vec<ListItem>,
}

impl EntityList {
    /// Title of the page.
    pub closed spec fn title_text(&self) -> Seq<char> {
        self.title@
    }

    /// The images of the list's rows, in order.
    pub closed spec fn row_models(&self) -> Seq<ListItemModel> {
        self.rows@.map_values(|r: ListItem| r@)
    }

    /// An entity list with its title set and its rows numbered from
    /// one.
    pub fn new() -> (r: EntityList)
        ensures
            r.title_text() == "Entity List"@,
            r.row_models().len() == ENTITY_LIST_ROWS,
            forall|i: int|
                0 <= i < r.row_models().len() ==> {
                    &&& (#[trigger] r.row_models()[i]).text == spec_row_text((i + 1) as nat)
                    &&& r.row_models()[i].button_label == spec_row_button_label()
                },
    {
        let mut rows: Vec<ListItem> = Vec::new();
        let mut n: u64 = 1;
        while n <= ENTITY_LIST_ROWS
            invariant
                1 <= n <= ENTITY_LIST_ROWS + 1,
                rows@.len() == n - 1,
                forall|i: int|
                    0 <= i < rows@.len() ==> {
                        &&& (#[trigger] rows@[i]@).text == spec_row_text((i + 1) as nat)
                        &&& rows@[i]@.button_label == spec_row_button_label()
                    },
            decreases ENTITY_LIST_ROWS + 1 - n,
        {
            let text = row_text(n);
            rows.push(create_list_item(text.as_str()));
            n += 1;
        }
        let r = EntityList { title: String::from_str("Entity List"), rows };
        proof {
            assert(forall|i: int|
                0 <= i < r.row_models().len() ==> #[trigger] r.row_models()[i] == r.rows@[i]@);
        }
        r
    }

    /// Title of the page.
    pub fn title(&self) -> (r: &String)
        ensures
            r@ == self.title_text(),
    {
        &self.title
    }

    /// How many rows the list holds.
    pub fn len(&self) -> (r: usize)
        ensures
            r == self.row_models().len(),
    {
        self.rows.len()
    }

    /// The row at `i`.
    pub fn row_at(&self, i: usize) -> (r: &ListItem)
        requires
            i < self.row_models().len(),
        ensures
            r@ == self.row_models()[i as int],
    {
        &self.rows[i]
    }
}

} // verus!
