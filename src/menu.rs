use vstd::prelude::*;

verus! {

/// Label of the application-identity submenu when the configuration names no
/// product.
pub const DEFAULT_APP_NAME: &'static str = "App";

/// The label that the application-identity submenu carries.
pub open spec fn app_name_spec(product_name: Option<Seq<char>>) -> Seq<char> {
    match product_name {
        Some(n) => n,
        None => DEFAULT_APP_NAME@,
    }
}

/// The configured product name, or `"App"` where none is configured.
pub fn app_display_name(product_name: &Option<String>) -> (r: String)
    ensures
        r@ == app_name_spec(product_name.deep_view()),
        product_name.is_none() ==> r@ == "App"@,
{
    match product_name {
        Some(n) => n.clone(),
        None => DEFAULT_APP_NAME.to_owned(),
    }
}

/// Identifier of the About entry.
pub const ABOUT_ID: &'static str = "app_about";

/// Label of the About entry.
pub const ABOUT_LABEL: &'static str = "About";

/// Label of the File submenu.
pub const FILE_MENU_LABEL: &'static str = "File";

/// Identifier of the Open File entry.
pub const OPEN_FILE_ID: &'static str = "file_open";

/// Label of the Open File entry.
pub const OPEN_FILE_LABEL: &'static str = "Open File";

/// One entry of a submenu.
#[derive(Debug, PartialEq, Eq)]
pub enum MenuEntry {
    /// An entry of the application's own, reported by identifier when activated.
    Text { id: String, label: String },
    /// The host's predefined Quit entry; it carries no identifier of ours.
    Quit,
}

/// What a menu entry is, mathematically.
pub enum EntryModel {
    Text { id: Seq<char>, label: Seq<char> },
    Quit,
}

impl View for MenuEntry {
    type V = EntryModel;

    open spec fn view(&self) -> EntryModel {
        match self {
            MenuEntry::Text { id, label } => EntryModel::Text { id: id@, label: label@ },
            MenuEntry::Quit => EntryModel::Quit,
        }
    }
}

/// A labelled submenu of the menu bar: its entries in display order.
#[derive(Debug, PartialEq, Eq)]
pub struct Submenu {
    pub label: String,
    pub entries: Vec<MenuEntry>,
}

/// What a submenu is, mathematically.
pub struct SubmenuModel {
    pub label: Seq<char>,
    pub entries: Seq<EntryModel>,
}

impl View for Submenu {
    type V = SubmenuModel;

    open spec fn view(&self) -> SubmenuModel {
        SubmenuModel { label: self.label@, entries: self.entries@.map_values(|e: MenuEntry| e@) }
    }
}

/// The menu bar: its submenus from left to right.
#[derive(Debug, PartialEq, Eq)]
pub struct MenuBar {
    pub submenus: Vec<Submenu>,
}

impl View for MenuBar {
    type V = Seq<SubmenuModel>;

    open spec fn view(&self) -> Seq<SubmenuModel> {
        self.submenus@.map_values(|m: Submenu| m@)
    }
}

/// The application-identity submenu: About, then Quit.
pub open spec fn app_submenu_spec(app_name: Seq<char>) -> SubmenuModel {
    SubmenuModel {
        label: app_name,
        entries: seq![EntryModel::Text { id: ABOUT_ID@, label: ABOUT_LABEL@ }, EntryModel::Quit],
    }
}

/// The File submenu: Open File alone.
pub open spec fn file_submenu_spec() -> SubmenuModel {
    SubmenuModel {
        label: FILE_MENU_LABEL@,
        entries: seq![EntryModel::Text { id: OPEN_FILE_ID@, label: OPEN_FILE_LABEL@ }],
    }
}

/// The menu bar installed at startup for a configured product name.
pub open spec fn menu_bar_spec(product_name: Option<Seq<char>>) -> Seq<SubmenuModel> {
    seq![app_submenu_spec(app_name_spec(product_name)), file_submenu_spec()]
}

/// The identifier that an entry reports when activated, if any.
pub open spec fn entry_id(e: EntryModel) -> Option<Seq<char>> {
    match e {
        EntryModel::Text { id, .. } => Some(id),
        EntryModel::Quit => None,
    }
}

/// No two entries of the menu bar report the same identifier.
pub open spec fn ids_unique(bar: Seq<SubmenuModel>) -> bool {
    forall|a: int, b: int, c: int, d: int|
        #![trigger bar[a].entries[b], bar[c].entries[d]]
        0 <= a < bar.len() && 0 <= b < bar[a].entries.len() && 0 <= c < bar.len() && 0 <= d
            < bar[c].entries.len() && (a != c || b != d) && entry_id(bar[a].entries[b]) is Some
            ==> entry_id(bar[a].entries[b]) != entry_id(bar[c].entries[d])
}

/// The menu bar installed at startup never gives two entries one identifier,
/// so that an activation names exactly one entry.
pub proof fn lemma_menu_bar_ids_unique(product_name: Option<Seq<char>>)
    ensures
        ids_unique(menu_bar_spec(product_name)),
{
    reveal_strlit("app_about");
    reveal_strlit("file_open");
    assert("app_about"@[0] != "file_open"@[0]);
}

fn text_entry(id: &str, label: &str) -> (r: MenuEntry)
    ensures
        r@ == (EntryModel::Text { id: id@, label: label@ }),
{
    MenuEntry::Text { id: id.to_owned(), label: label.to_owned() }
}

/// Builds the application-identity submenu labelled `app_name`.
pub fn app_submenu(app_name: String) -> (r: Submenu)
    ensures
        r@ == app_submenu_spec(app_name@),
{
    let mut entries: Vec<MenuEntry> = Vec::new();
    entries.push(text_entry(ABOUT_ID, ABOUT_LABEL));
    entries.push(MenuEntry::Quit);
    let r = Submenu { label: app_name, entries };
    assert(r@.entries =~= app_submenu_spec(app_name@).entries);
    r
}

/// Builds the File submenu.
pub fn file_submenu() -> (r: Submenu)
    ensures
        r@ == file_submenu_spec(),
{
    let mut entries: Vec<MenuEntry> = Vec::new();
    entries.push(text_entry(OPEN_FILE_ID, OPEN_FILE_LABEL));
    let r = Submenu { label: FILE_MENU_LABEL.to_owned(), entries };
    assert(r@.entries =~= file_submenu_spec().entries);
    r
}

/// Builds the menu bar to install at startup: the application-identity
/// submenu, labelled with the product name or `"App"`, then the File submenu.
pub fn build_menu_bar(product_name: &Option<String>) -> (r: MenuBar)
    ensures
        r@ == menu_bar_spec(product_name.deep_view()),
        r@.len() == 2,
        r@[0].label == app_name_spec(product_name.deep_view()),
        r@[0].entries == seq![
            EntryModel::Text { id: "app_about"@, label: "About"@ },
            EntryModel::Quit,
        ],
        r@[1].label == "File"@,
        r@[1].entries == seq![EntryModel::Text { id: "file_open"@, label: "Open File"@ }],
        product_name is None ==> r@[0].label == "App"@,
        ids_unique(r@),
{
    proof {
        lemma_menu_bar_ids_unique(product_name.deep_view());
    }
    let mut submenus: Vec<Submenu> = Vec::new();
    submenus.push(app_submenu(app_display_name(product_name)));
    submenus.push(file_submenu());
    let r = MenuBar { submenus };
    assert(r@ =~= menu_bar_spec(product_name.deep_view()));
    r
}

} // verus!
