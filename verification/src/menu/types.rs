use vstd::prelude::*;

use crate::error::NativeError;
use crate::menu::ids::{fresh_id, is_drawn_id, is_generated_id};

verus! {

/// One entry of a menu as the UI layer receives it. Entries of kind
/// `"menu"` and `"submenu"` carry their children in `submenu_items`.
#[derive(Debug)]
pub struct MenuItemData {
    pub id: String,
    pub item_type: String,
    pub text: Option<String>,
    pub enabled: Option<bool>,
    pub accelerator: Option<String>,
    pub predefined_type: Option<String>,
    pub checked: Option<bool>,
    pub icon: Option<String>,
    pub submenu_items: Option<Vec<MenuItemData>>,
}

/// The value of a `MenuItemData`, with strings as character sequences and
/// children as a sequence of values.
pub struct ItemDataModel {
    pub id: Seq<char>,
    pub item_type: Seq<char>,
    pub text: Option<Seq<char>>,
    pub enabled: Option<bool>,
    pub accelerator: Option<Seq<char>>,
    pub predefined_type: Option<Seq<char>>,
    pub checked: Option<bool>,
    pub icon: Option<Seq<char>>,
    pub submenu_items: Option<Seq<ItemDataModel>>,
}

pub open spec fn opt_string_view(s: Option<String>) -> Option<Seq<char>> {
    match s {
        Some(t) => Some(t@),
        None => None,
    }
}

/// The value that `d` holds.
pub open spec fn data_model(d: MenuItemData) -> ItemDataModel
    decreases d, 1int,
{
    ItemDataModel {
        id: d.id@,
        item_type: d.item_type@,
        text: opt_string_view(d.text),
        enabled: d.enabled,
        accelerator: opt_string_view(d.accelerator),
        predefined_type: opt_string_view(d.predefined_type),
        checked: d.checked,
        icon: opt_string_view(d.icon),
        submenu_items: match d.submenu_items {
            Some(v) => {
                proof {
                    assert(decreases_to!(v => v@));
                }
                Some(list_model(v@))
            },
            None => None,
        },
    }
}

/// The values that the entries of `s` hold, in order.
pub open spec fn list_model(s: Seq<MenuItemData>) -> Seq<ItemDataModel>
    decreases s, 0int,
{
    if s.len() == 0 {
        Seq::empty()
    } else {
        proof {
            assert(decreases_to!(s => s[s.len() - 1]));
            assert(decreases_to!(s => s.drop_last()));
        }
        list_model(s.drop_last()).push(data_model(s.last()))
    }
}

/// `list_model` of an appended sequence appends the entry's value.
pub proof fn lemma_list_model_push(s: Seq<MenuItemData>, x: MenuItemData)
    ensures
        list_model(s.push(x)) == list_model(s).push(data_model(x)),
{
    assert(s.push(x).drop_last() =~= s);
}

fn clone_opt_string(s: &Option<String>) -> (res: Option<String>)
    ensures
        res == *s,
{
    match s {
        Some(t) => Some(t.clone()),
        None => None,
    }
}

fn clone_item_data(d: &MenuItemData) -> (res: MenuItemData)
    ensures
        data_model(res) == data_model(*d),
    decreases *d, 1int,
{
    let submenu_items = match &d.submenu_items {
        Some(items) => Some(clone_item_list(items)),
        None => None,
    };
    MenuItemData {
        id: d.id.clone(),
        item_type: d.item_type.clone(),
        text: clone_opt_string(&d.text),
        enabled: d.enabled,
        accelerator: clone_opt_string(&d.accelerator),
        predefined_type: clone_opt_string(&d.predefined_type),
        checked: d.checked,
        icon: clone_opt_string(&d.icon),
        submenu_items,
    }
}

fn clone_item_list(items: &Vec<MenuItemData>) -> (res: Vec<MenuItemData>)
    ensures
        list_model(res@) == list_model(items@),
    decreases *items, 0int,
{
    let mut res: Vec<MenuItemData> = Vec::new();
    let n = items.len();
    let mut i: usize = 0;
    while i < n
        invariant
            n == items@.len(),
            i <= n,
            list_model(res@) == list_model(items@.subrange(0, i as int)),
        decreases n - i,
    {
        proof {
            assert(decreases_to!(*items => items@));
            assert(decreases_to!(items@ => items@[i as int]));
        }
        let c = clone_item_data(&items[i]);
        proof {
            lemma_list_model_push(res@, c);
            lemma_list_model_push(items@.subrange(0, i as int), items@[i as int]);
            assert(items@.subrange(0, i as int).push(items@[i as int]) =~= items@.subrange(
                0,
                i + 1,
            ));
        }
        res.push(c);
        i = i + 1;
    }
    proof {
        assert(items@.subrange(0, n as int) =~= items@);
    }
    res
}

impl Clone for MenuItemData {
    fn clone(&self) -> (res: MenuItemData)
        ensures
            data_model(res) == data_model(*self),
    {
        clone_item_data(self)
    }
}

/// What a `Menu` holds: its id and the values of its entries in the order
/// they were appended.
pub struct MenuModel {
    pub id: Seq<char>,
    pub items: Seq<ItemDataModel>,
}

impl MenuModel {
    /// The model after an entry holding `item` was appended.
    pub open spec fn appended(self, item: ItemDataModel) -> MenuModel {
        MenuModel { id: self.id, items: self.items.push(item) }
    }

    /// The UI description of this menu.
    pub open spec fn data(self) -> ItemDataModel {
        ItemDataModel {
            id: self.id,
            item_type: "menu"@,
            text: None,
            enabled: Some(true),
            accelerator: None,
            predefined_type: None,
            checked: None,
            icon: None,
            submenu_items: Some(self.items),
        }
    }
}

/// A top-level menu: an id and the entries appended to it.
pub struct Menu {
    id: String,
    items: Vec<MenuItemData>,
}

impl View for Menu {
    type V = MenuModel;

    closed spec fn view(&self) -> MenuModel {
        MenuModel { id: self.id@, items: list_model(self.items@) }
    }
}

impl Menu {
    /// A menu with no entries, named `id`, or `menu_` and a random UUID
    /// when no id is given.
    pub fn new(id: Option<String>) -> (m: Menu)
        ensures
            match id {
                Some(given) => m@.id == given@,
                None => is_generated_id("menu_"@, m@.id) && is_drawn_id("menu_"@, m@.id),
            },
            m@.items == Seq::<ItemDataModel>::empty(),
    {
        let id = match id {
            Some(given) => given,
            None => fresh_id("menu_"),
        };
        Menu { id, items: Vec::new() }
    }

    pub fn id(&self) -> (id: String)
        ensures
            id@ == self@.id,
    {
        self.id.clone()
    }

    /// Appends `item` after the entries already there; never fails.
    pub fn append(&mut self, item: MenuItemData) -> (r: Result<(), NativeError>)
        ensures
            r is Ok,
            final(self)@ == old(self)@.appended(data_model(item)),
    {
        proof {
            lemma_list_model_push(self.items@, item);
        }
        self.items.push(item);
        Ok(())
    }

    pub fn items(&self) -> (items: Vec<MenuItemData>)
        ensures
            list_model(items@) == self@.items,
    {
        clone_item_list(&self.items)
    }

    /// The description of this menu for the UI layer.
    pub fn to_data(&self) -> (d: MenuItemData)
        ensures
            data_model(d) == self@.data(),
    {
        MenuItemData {
            id: self.id.clone(),
            item_type: "menu".to_owned(),
            text: None,
            enabled: Some(true),
            accelerator: None,
            predefined_type: None,
            checked: None,
            icon: None,
            submenu_items: Some(clone_item_list(&self.items)),
        }
    }
}

/// What a `MenuItem` holds.
pub struct MenuItemModel {
    pub id: Seq<char>,
    pub text: Seq<char>,
    pub enabled: bool,
    pub accelerator: Option<Seq<char>>,
}

impl MenuItemModel {
    pub open spec fn with_text(self, text: Seq<char>) -> MenuItemModel {
        MenuItemModel { text, ..self }
    }

    pub open spec fn with_enabled(self, enabled: bool) -> MenuItemModel {
        MenuItemModel { enabled, ..self }
    }

    /// The UI description of this item.
    pub open spec fn data(self) -> ItemDataModel {
        ItemDataModel {
            id: self.id,
            item_type: "item"@,
            text: Some(self.text),
            enabled: Some(self.enabled),
            accelerator: self.accelerator,
            predefined_type: None,
            checked: None,
            icon: None,
            submenu_items: None,
        }
    }
}

/// A plain, clickable menu entry.
pub struct MenuItem {
    id: String,
    text: String,
    enabled: bool,
    accelerator: Option<String>,
}

impl View for MenuItem {
    type V = MenuItemModel;

    closed spec fn view(&self) -> MenuItemModel {
        MenuItemModel {
            id: self.id@,
            text: self.text@,
            enabled: self.enabled,
            accelerator: opt_string_view(self.accelerator),
        }
    }
}

impl MenuItem {
    /// An item named `id`, or `item_` and a random UUID when no id is given;
    /// enabled unless `enabled` says otherwise.
    pub fn new(
        id: Option<String>,
        text: String,
        enabled: Option<bool>,
        accelerator: Option<String>,
    ) -> (item: MenuItem)
        ensures
            match id {
                Some(given) => item@.id == given@,
                None => is_generated_id("item_"@, item@.id) && is_drawn_id("item_"@, item@.id),
            },
            item@.text == text@,
            item@.enabled == match enabled {
                Some(e) => e,
                None => true,
            },
            item@.accelerator == opt_string_view(accelerator),
    {
        let id = match id {
            Some(given) => given,
            None => fresh_id("item_"),
        };
        let enabled = match enabled {
            Some(e) => e,
            None => true,
        };
        MenuItem { id, text, enabled, accelerator }
    }

    pub fn id(&self) -> (id: String)
        ensures
            id@ == self@.id,
    {
        self.id.clone()
    }

    pub fn text(&self) -> (text: String)
        ensures
            text@ == self@.text,
    {
        self.text.clone()
    }

    pub fn set_text(&mut self, text: String)
        ensures
            final(self)@ == old(self)@.with_text(text@),
    {
        self.text = text;
    }

    pub fn enabled(&self) -> (enabled: bool)
        ensures
            enabled == self@.enabled,
    {
        self.enabled
    }

    pub fn set_enabled(&mut self, enabled: bool)
        ensures
            final(self)@ == old(self)@.with_enabled(enabled),
    {
        self.enabled = enabled;
    }

    /// The description of this item for the UI layer.
    pub fn to_data(&self) -> (d: MenuItemData)
        ensures
            data_model(d) == self@.data(),
    {
        MenuItemData {
            id: self.id.clone(),
            item_type: "item".to_owned(),
            text: Some(self.text.clone()),
            enabled: Some(self.enabled),
            accelerator: clone_opt_string(&self.accelerator),
            predefined_type: None,
            checked: None,
            icon: None,
            submenu_items: None,
        }
    }
}

/// What a `Submenu` holds.
pub struct SubmenuModel {
    pub id: Seq<char>,
    pub text: Seq<char>,
    pub items: Seq<ItemDataModel>,
}

impl SubmenuModel {
    pub open spec fn with_text(self, text: Seq<char>) -> SubmenuModel {
        SubmenuModel { text, ..self }
    }

    /// The model after an entry holding `item` was appended.
    pub open spec fn appended(self, item: ItemDataModel) -> SubmenuModel {
        SubmenuModel { items: self.items.push(item), ..self }
    }

    /// The UI description of this submenu.
    pub open spec fn data(self) -> ItemDataModel {
        ItemDataModel {
            id: self.id,
            item_type: "submenu"@,
            text: Some(self.text),
            enabled: Some(true),
            accelerator: None,
            predefined_type: None,
            checked: None,
            icon: None,
            submenu_items: Some(self.items),
        }
    }
}

/// A titled entry that opens a nested list of entries.
pub struct Submenu {
    id: String,
    text: String,
    items: Vec<MenuItemData>,
}

impl View for Submenu {
    type V = SubmenuModel;

    closed spec fn view(&self) -> SubmenuModel {
        SubmenuModel { id: self.id@, text: self.text@, items: list_model(self.items@) }
    }
}

impl Submenu {
    /// An empty submenu titled `text`, named `id`, or `submenu_` and a random
    /// UUID when no id is given.
    pub fn new(id: Option<String>, text: String) -> (s: Submenu)
        ensures
            match id {
                Some(given) => s@.id == given@,
                None => is_generated_id("submenu_"@, s@.id) && is_drawn_id("submenu_"@, s@.id),
            },
            s@.text == text@,
            s@.items == Seq::<ItemDataModel>::empty(),
    {
        let id = match id {
            Some(given) => given,
            None => fresh_id("submenu_"),
        };
        Submenu { id, text, items: Vec::new() }
    }

    pub fn id(&self) -> (id: String)
        ensures
            id@ == self@.id,
    {
        self.id.clone()
    }

    pub fn text(&self) -> (text: String)
        ensures
            text@ == self@.text,
    {
        self.text.clone()
    }

    pub fn set_text(&mut self, text: String)
        ensures
            final(self)@ == old(self)@.with_text(text@),
    {
        self.text = text;
    }

    /// Appends `item` after the entries already there; never fails.
    pub fn append(&mut self, item: MenuItemData) -> (r: Result<(), NativeError>)
        ensures
            r is Ok,
            final(self)@ == old(self)@.appended(data_model(item)),
    {
        proof {
            lemma_list_model_push(self.items@, item);
        }
        self.items.push(item);
        Ok(())
    }

    pub fn items(&self) -> (items: Vec<MenuItemData>)
        ensures
            list_model(items@) == self@.items,
    {
        clone_item_list(&self.items)
    }

    /// The description of this submenu for the UI layer.
    pub fn to_data(&self) -> (d: MenuItemData)
        ensures
            data_model(d) == self@.data(),
    {
        MenuItemData {
            id: self.id.clone(),
            item_type: "submenu".to_owned(),
            text: Some(self.text.clone()),
            enabled: Some(true),
            accelerator: None,
            predefined_type: None,
            checked: None,
            icon: None,
            submenu_items: Some(clone_item_list(&self.items)),
        }
    }
}

/// A menu's UI description is the menu itself: its own id, the kind
/// `"menu"`, always enabled, no text, accelerator, predefined kind, check
/// mark or icon, and exactly its entries, in order, as children.
pub proof fn lemma_menu_description(m: MenuModel)
    ensures
        m.data().id == m.id,
        m.data().item_type == "menu"@,
        m.data().text is None,
        m.data().enabled == Some(true),
        m.data().accelerator is None,
        m.data().predefined_type is None,
        m.data().checked is None,
        m.data().icon is None,
        m.data().submenu_items == Some(m.items),
{
}

/// An item's UI description carries the item's own id, text, enabled state
/// and accelerator, whatever their values, under the kind `"item"`, with no
/// predefined kind, check mark, icon or children.
pub proof fn lemma_item_description(m: MenuItemModel)
    ensures
        m.data().id == m.id,
        m.data().item_type == "item"@,
        m.data().text == Some(m.text),
        m.data().enabled == Some(m.enabled),
        m.data().accelerator == m.accelerator,
        m.data().predefined_type is None,
        m.data().checked is None,
        m.data().icon is None,
        m.data().submenu_items is None,
{
}

/// A submenu's UI description carries its own id and title under the kind
/// `"submenu"`, is enabled whatever its entries are, has no accelerator,
/// predefined kind, check mark or icon, and has exactly its entries, in
/// order, as children.
pub proof fn lemma_submenu_description(s: SubmenuModel)
    ensures
        s.data().id == s.id,
        s.data().item_type == "submenu"@,
        s.data().text == Some(s.text),
        s.data().enabled == Some(true),
        s.data().accelerator is None,
        s.data().predefined_type is None,
        s.data().checked is None,
        s.data().icon is None,
        s.data().submenu_items == Some(s.items),
{
}

/// An item made by `MenuItem::new` describes itself with the accelerator it
/// was given, enabled or not.
pub proof fn lemma_new_item_keeps_accelerator(
    m: MenuItemModel,
    text: Seq<char>,
    enabled: bool,
    accelerator: Option<Seq<char>>,
)
    requires
        m.text == text,
        m.enabled == enabled,
        m.accelerator == accelerator,
    ensures
        m.data().accelerator == accelerator,
        m.data().enabled == Some(enabled),
        m.data().text == Some(text),
{
}

/// Appending an entry to a menu puts its value last among the children of the
/// menu's UI description, after the entries already there; the rest of the
/// description is unchanged.
pub proof fn lemma_menu_append_reaches_data(m: MenuModel, item: ItemDataModel)
    ensures
        m.appended(item).data().submenu_items == Some(m.items.push(item)),
        m.appended(item).data().id == m.data().id,
        m.appended(item).data().item_type == m.data().item_type,
{
}

/// Appending an entry to a submenu puts its value last among the children of
/// the submenu's UI description; id and title are unchanged.
pub proof fn lemma_submenu_append_reaches_data(s: SubmenuModel, item: ItemDataModel)
    ensures
        s.appended(item).data().submenu_items == Some(s.items.push(item)),
        s.appended(item).data().id == s.data().id,
        s.appended(item).data().text == s.data().text,
{
}

/// A text set on an item is what the item then reports and what its UI
/// description carries; id, state and accelerator are unchanged.
pub proof fn lemma_item_text_read_back(m: MenuItemModel, text: Seq<char>)
    ensures
        m.with_text(text).text == text,
        m.with_text(text).data().text == Some(text),
        m.with_text(text).id == m.id,
        m.with_text(text).enabled == m.enabled,
        m.with_text(text).accelerator == m.accelerator,
{
}

/// An enabled state set on an item is what the item then reports and what its
/// UI description carries; id, text and accelerator are unchanged.
pub proof fn lemma_item_enabled_read_back(m: MenuItemModel, enabled: bool)
    ensures
        m.with_enabled(enabled).enabled == enabled,
        m.with_enabled(enabled).data().enabled == Some(enabled),
        m.with_enabled(enabled).id == m.id,
        m.with_enabled(enabled).text == m.text,
        m.with_enabled(enabled).accelerator == m.accelerator,
{
}

/// A title set on a submenu is what it then reports and what its UI
/// description carries; id and entries are unchanged.
pub proof fn lemma_submenu_text_read_back(s: SubmenuModel, text: Seq<char>)
    ensures
        s.with_text(text).text == text,
        s.with_text(text).data().text == Some(text),
        s.with_text(text).id == s.id,
        s.with_text(text).items == s.items,
{
}

} // verus!
