//! Menu structure and navigation state for interactive configuration.
//!
//! The crate only builds and queries menus; rendering and key handling are a
//! caller concern.

use vstd::prelude::*;
use crate::text::{self, pad_to};

verus! {

/// One selectable entry of a menu.
#[derive(Debug, Clone)]
pub struct MenuItem {
    pub id: String,
    pub label: String,
    pub description: String,
}

/// Whether `it` carries exactly the given id, label and description.
pub open spec fn item_is(it: MenuItem, id: Seq<char>, label: Seq<char>, desc: Seq<char>) -> bool {
    it.id@ == id && it.label@ == label && it.description@ == desc
}

/// The label column width in a rendered menu line.
pub const LABEL_WIDTH: usize = 12;

/// The display line for an item: the label padded to the column width,
/// a separator, and the description.
pub open spec fn display_label_spec(it: MenuItem) -> Seq<char> {
    pad_to(it.label@, LABEL_WIDTH as int) + " - "@ + it.description@
}

impl MenuItem {
    /// A new menu item.
    pub fn new(id: &str, label: &str, description: &str) -> (r: MenuItem)
        ensures
            item_is(r, id@, label@, description@),
    {
        MenuItem {
            id: String::from_str(id),
            label: String::from_str(label),
            description: String::from_str(description),
        }
    }

    /// The line shown for this item in a selection list.
    pub fn display_label(&self) -> (r: String)
        ensures
            r@ == display_label_spec(*self),
    {
        let mut s = String::from_str(self.label.as_str());
        let mut k = self.label.as_str().unicode_len();
        let ghost len0 = self.label@.len();
        proof {
            assert(s@ =~= self.label@ + Seq::new(0, |i: int| ' '));
        }
        while k < LABEL_WIDTH
            invariant
                len0 == self.label@.len(),
                len0 <= k,
                k <= LABEL_WIDTH || k == len0,
                s@ == self.label@ + Seq::new((k - len0) as nat, |i: int| ' '),
            decreases LABEL_WIDTH - k,
        {
            text::push_char(&mut s, ' ');
            k += 1;
            proof {
                assert(s@ =~= self.label@ + Seq::new((k - len0) as nat, |i: int| ' '));
            }
        }
        proof {
            assert(s@ =~= pad_to(self.label@, LABEL_WIDTH as int));
        }
        s.append(" - ");
        s.append(self.description.as_str());
        proof {
            assert(s@ =~= display_label_spec(*self));
        }
        s
    }
}

/// What a menu interaction decided: stay, go back, or leave the program.
#[derive(Debug, Clone, Copy, PartialEq, Eq, Structural)]
pub enum MenuAction {
    Continue,
    Back,
    Exit,
}

/// Builds a menu, optionally wrapping the items with back and exit entries.
pub struct MenuBuilder {
    pub items: Vec<MenuItem>,
    pub title: String,
    pub include_back: bool,
    pub include_exit: bool,
}

impl MenuBuilder {
    /// A builder with no items, no back entry, and an exit entry.
    pub fn new(title: &str) -> (r: MenuBuilder)
        ensures
            r.title@ == title@,
            r.items@.len() == 0,
            !r.include_back,
            r.include_exit,
    {
        MenuBuilder {
            items: Vec::new(),
            title: String::from_str(title),
            include_back: false,
            include_exit: true,
        }
    }

    /// Adds a back entry to the menu being built.
    pub fn with_back(self) -> (r: MenuBuilder)
        ensures
            r == (MenuBuilder { include_back: true, ..self }),
    {
        MenuBuilder { include_back: true, ..self }
    }

    /// Chooses whether the menu ends with an exit entry.
    pub fn with_exit(self, wanted: bool) -> (r: MenuBuilder)
        ensures
            r == (MenuBuilder { include_exit: wanted, ..self }),
    {
        MenuBuilder { include_exit: wanted, ..self }
    }

    /// Appends one item.
    pub fn add_item(self, id: &str, label: &str, description: &str) -> (r: MenuBuilder)
        ensures
            r.title@ == self.title@,
            r.include_back == self.include_back,
            r.include_exit == self.include_exit,
            r.items@.len() == self.items@.len() + 1,
            r.items@.subrange(0, self.items@.len() as int) == self.items@,
            item_is(r.items@[self.items@.len() as int], id@, label@, description@),
    {
        let mut items = self.items;
        items.push(MenuItem::new(id, label, description));
        let r = MenuBuilder {
            items,
            title: self.title,
            include_back: self.include_back,
            include_exit: self.include_exit,
        };
        proof {
            assert(r.items@.subrange(0, r.items@.len() - 1) =~= self.items@);
        }
        r
    }

    /// The finished menu: a back entry first when asked for, then the added
    /// items, then an exit entry unless switched off.
    pub fn build(self) -> (r: Menu)
        ensures
            r.title@ == self.title@,
            r.items@.len() == self.items@.len() + (if self.include_back {
                1int
            } else {
                0int
            }) + (if self.include_exit {
                1int
            } else {
                0int
            }),
            self.include_back ==> item_is(
                r.items@[0],
                "back"@,
                "Back"@,
                "Back to previous menu"@,
            ),
            forall|i: int|
                0 <= i < self.items@.len() ==> r.items@[i + (if self.include_back {
                    1int
                } else {
                    0int
                })] == self.items@[i],
            self.include_exit ==> item_is(
                r.items@[r.items@.len() - 1],
                "exit"@,
                "Exit"@,
                "Exit the program"@,
            ),
    {
        let mut all_items: Vec<MenuItem> = Vec::new();
        if self.include_back {
            all_items.push(MenuItem::new("back", "Back", "Back to previous menu"));
        }
        let ghost base = all_items@.len();
        let mut items = self.items;
        all_items.append(&mut items);
        if self.include_exit {
            all_items.push(MenuItem::new("exit", "Exit", "Exit the program"));
        }
        proof {
            assert(forall|i: int|
                0 <= i < self.items@.len() ==> all_items@[i + base] == self.items@[i]);
        }
        Menu { title: self.title, items: all_items }
    }
}

/// A titled list of selectable items.
pub struct Menu {
    pub title: String,
    pub items: Vec<MenuItem>,
}

/// The first index of `items` whose id is `id`.
pub open spec fn find_item_idx(items: Seq<MenuItem>, id: Seq<char>) -> Option<int>
    decreases items.len(),
{
    if items.len() == 0 {
        None
    } else if items[0].id@ == id {
        Some(0int)
    } else {
        match find_item_idx(items.drop_first(), id) {
            Some(k) => Some(k + 1),
            None => None,
        }
    }
}

impl Menu {
    /// Starts building a menu with the given title.
    pub fn builder(title: &str) -> (r: MenuBuilder)
        ensures
            r.title@ == title@,
            r.items@.len() == 0,
            !r.include_back,
            r.include_exit,
    {
        MenuBuilder::new(title)
    }

    /// The first item with the given id.
    pub fn get_item(&self, id: &str) -> (r: Option<&MenuItem>)
        ensures
            (match r {
                Some(it) => {
                    &&& find_item_idx(self.items@, id@) matches Some(k)
                    &&& 0 <= k < self.items@.len()
                    &&& *it == self.items@[find_item_idx(self.items@, id@).unwrap()]
                },
                None => find_item_idx(self.items@, id@) is None,
            }),
    {
        let n = self.items.len();
        let mut i: usize = 0;
        proof {
            assert(self.items@.subrange(0, n as int) =~= self.items@);
        }
        while i < n
            invariant
                n == self.items@.len(),
                i <= n,
                find_item_idx(self.items@, id@) == (match find_item_idx(
                    self.items@.subrange(i as int, n as int),
                    id@,
                ) {
                    Some(k) => Some(k + i),
                    None => None,
                }),
            decreases n - i,
        {
            proof {
                assert(self.items@.subrange(i as int, n as int)[0] == self.items@[i as int]);
                assert(self.items@.subrange(i as int, n as int).drop_first() =~= self.items@
                    .subrange(i + 1, n as int));
            }
            if text::str_eq(self.items[i].id.as_str(), id) {
                return Some(&self.items[i]);
            }
            i += 1;
        }
        proof {
            assert(self.items@.subrange(n as int, n as int) =~= Seq::<MenuItem>::empty());
        }
        None
    }

    /// The display line of every item, in order.
    pub fn get_display_options(&self) -> (r: Vec<String>)
        ensures
            r@.len() == self.items@.len(),
            forall|i: int|
                0 <= i < r@.len() ==> (#[trigger] r@[i])@ == display_label_spec(self.items@[i]),
    {
        let n = self.items.len();
        let mut out: Vec<String> = Vec::new();
        let mut i: usize = 0;
        while i < n
            invariant
                n == self.items@.len(),
                i <= n,
                out@.len() == i,
                forall|k: int|
                    0 <= k < i ==> (#[trigger] out@[k])@ == display_label_spec(self.items@[k]),
            decreases n - i,
        {
            out.push(self.items[i].display_label());
            i += 1;
        }
        out
    }

    /// The item at `index`, if any.
    pub fn get_item_by_index(&self, index: usize) -> (r: Option<&MenuItem>)
        ensures
            (match r {
                Some(it) => index < self.items@.len() && *it == self.items@[index as int],
                None => index >= self.items@.len(),
            }),
    {
        if index < self.items.len() {
            Some(&self.items[index])
        } else {
            None
        }
    }
}

} // verus!
