//! The application menu: an immutable, ordered tree of groups, items and
//! separators, declared once at startup.
//!
//! `app_menu_tree` builds the one menu this application has — the File, Edit
//! and Debug groups — and its contract pins the whole tree, labels,
//! identifiers and order included, to the spec-level declaration `app_menu`.
//! The host shell renders the tree; only `MenuNode::Item` nodes can be
//! activated, and their identifiers feed `crate::dispatch`.

use vstd::prelude::*;

verus! {

broadcast use vstd::seq::group_seq_axioms, vstd::std_specs::vec::group_vec_axioms;

/// One node of the menu tree.
pub enum MenuNode {
    /// A visual divider; carries no identifier and cannot be activated.
    Separator,
    /// An activatable entry: a stable identifier and a display label.
    Item { id: String, label: String },
    /// A named group of child nodes, rendered in order.
    Submenu { label: String, children: Vec<MenuNode> },
}

/// The mathematical shape of a menu node: strings as character sequences,
/// children as a sequence of shapes.
#[verifier::ext_equal]
pub enum MenuNodeView {
    Separator,
    Item { id: Seq<char>, label: Seq<char> },
    Submenu { label: Seq<char>, children: Seq<MenuNodeView> },
}

/// The views of a sequence of nodes, elementwise, in order.
pub open spec fn views_of(s: Seq<MenuNode>) -> Seq<MenuNodeView>
    decreases s,
{
    if s.len() == 0 {
        Seq::empty()
    } else {
        views_of(s.drop_last()).push(s.last()@)
    }
}

impl View for MenuNode {
    type V = MenuNodeView;

    open spec fn view(&self) -> MenuNodeView
        decreases self,
    {
        match self {
            MenuNode::Separator => MenuNodeView::Separator,
            MenuNode::Item { id, label } => MenuNodeView::Item { id: id@, label: label@ },
            MenuNode::Submenu { label, children } => MenuNodeView::Submenu {
                label: label@,
                children: views_of(children@),
            },
        }
    }
}

/// The whole menu: an ordered sequence of top-level groups.
pub struct MenuTree {
    pub groups: Vec<MenuNode>,
}

impl View for MenuTree {
    type V = Seq<MenuNodeView>;

    open spec fn view(&self) -> Seq<MenuNodeView> {
        views_of(self.groups@)
    }
}

/// Every item identifier in a node, in declaration order, nested submenus
/// included.
pub open spec fn node_ids(n: MenuNodeView) -> Seq<Seq<char>>
    decreases n,
{
    match n {
        MenuNodeView::Separator => Seq::empty(),
        MenuNodeView::Item { id, .. } => seq![id],
        MenuNodeView::Submenu { children, .. } => nodes_ids(children),
    }
}

/// Every item identifier in a sequence of nodes, in order.
pub open spec fn nodes_ids(s: Seq<MenuNodeView>) -> Seq<Seq<char>>
    decreases s,
{
    if s.len() == 0 {
        Seq::empty()
    } else {
        node_ids(s[0]) + nodes_ids(s.drop_first())
    }
}

/// The declared File group.
pub open spec fn file_group() -> MenuNodeView {
    MenuNodeView::Submenu {
        label: "File"@,
        children: seq![
            MenuNodeView::Item { id: "new_file"@, label: "New"@ },
            MenuNodeView::Item { id: "open_file"@, label: "Open..."@ },
            MenuNodeView::Item { id: "import_file"@, label: "Import..."@ },
            MenuNodeView::Separator,
            MenuNodeView::Item { id: "save_file"@, label: "Save"@ },
            MenuNodeView::Item { id: "save_as_file"@, label: "Save As..."@ },
        ],
    }
}

/// The declared Edit group.
pub open spec fn edit_group() -> MenuNodeView {
    MenuNodeView::Submenu {
        label: "Edit"@,
        children: seq![
            MenuNodeView::Item { id: "undo"@, label: "Undo"@ },
            MenuNodeView::Item { id: "redo"@, label: "Redo"@ },
            MenuNodeView::Separator,
            MenuNodeView::Item { id: "cut"@, label: "Cut"@ },
            MenuNodeView::Item { id: "copy"@, label: "Copy"@ },
            MenuNodeView::Item { id: "paste"@, label: "Paste"@ },
        ],
    }
}

/// The declared Debug group.
pub open spec fn debug_group() -> MenuNodeView {
    MenuNodeView::Submenu {
        label: "Debug"@,
        children: seq![
            MenuNodeView::Item {
                id: "add_sample_tempo_event"@,
                label: "Add Sample Tempo Event"@,
            },
            MenuNodeView::Item {
                id: "add_sample_time_signature_event"@,
                label: "Add Sample Time Signature Event"@,
            },
            MenuNodeView::Item { id: "add_doremiredo_notes"@, label: "Add 'DoReMiReDo' Notes"@ },
        ],
    }
}

/// The whole declared application menu, in rendering order.
pub open spec fn app_menu() -> Seq<MenuNodeView> {
    seq![file_group(), edit_group(), debug_group()]
}

/// The identifiers the application menu declares, in rendering order.
pub open spec fn app_menu_ids() -> Seq<Seq<char>> {
    seq![
        "new_file"@,
        "open_file"@,
        "import_file"@,
        "save_file"@,
        "save_as_file"@,
        "undo"@,
        "redo"@,
        "cut"@,
        "copy"@,
        "paste"@,
        "add_sample_tempo_event"@,
        "add_sample_time_signature_event"@,
        "add_doremiredo_notes"@,
    ]
}

/// The application menu declares exactly `app_menu_ids()`, in that order, and
/// no identifier appears twice anywhere in the tree: dispatch can rely on an
/// activation event naming at most one item.
pub proof fn lemma_app_menu_ids_unique()
    ensures
        nodes_ids(app_menu()) == app_menu_ids(),
        app_menu_ids().no_duplicates(),
{
    reveal_with_fuel(nodes_ids, 8);
    reveal_with_fuel(node_ids, 8);
    assert(node_ids(file_group()) =~= seq![
        "new_file"@,
        "open_file"@,
        "import_file"@,
        "save_file"@,
        "save_as_file"@,
    ]);
    assert(node_ids(edit_group()) =~= seq!["undo"@, "redo"@, "cut"@, "copy"@, "paste"@]);
    assert(node_ids(debug_group()) =~= seq![
        "add_sample_tempo_event"@,
        "add_sample_time_signature_event"@,
        "add_doremiredo_notes"@,
    ]);
    assert(nodes_ids(app_menu()) =~= app_menu_ids());
    reveal_strlit("new_file");
    reveal_strlit("open_file");
    reveal_strlit("import_file");
    reveal_strlit("save_file");
    reveal_strlit("save_as_file");
    reveal_strlit("undo");
    reveal_strlit("redo");
    reveal_strlit("cut");
    reveal_strlit("copy");
    reveal_strlit("paste");
    reveal_strlit("add_sample_tempo_event");
    reveal_strlit("add_sample_time_signature_event");
    reveal_strlit("add_doremiredo_notes");
    assert("open_file"@[0] == 'o' && "save_file"@[0] == 's');
    assert("undo"@[0] == 'u' && "redo"@[0] == 'r' && "copy"@[0] == 'c');
    assert forall|i: int, j: int|
        0 <= i < app_menu_ids().len() && 0 <= j < app_menu_ids().len() && i != j implies app_menu_ids()[i]
        != app_menu_ids()[j] by {
        assert("new_file"@.len() == 8);
        assert("open_file"@.len() == 9);
        assert("import_file"@.len() == 11);
        assert("save_file"@.len() == 9);
        assert("save_as_file"@.len() == 12);
        assert("undo"@.len() == 4);
        assert("redo"@.len() == 4);
        assert("cut"@.len() == 3);
        assert("copy"@.len() == 4);
        assert("paste"@.len() == 5);
        assert("add_sample_tempo_event"@.len() == 22);
        assert("add_sample_time_signature_event"@.len() == 31);
        assert("add_doremiredo_notes"@.len() == 20);
    }
}

/// One activatable item.
fn item(id: &str, label: &str) -> (n: MenuNode)
    ensures
        n@ == (MenuNodeView::Item { id: id@, label: label@ }),
{
    MenuNode::Item { id: String::from_str(id), label: String::from_str(label) }
}

/// One named group over the given children.
fn submenu(label: &str, children: Vec<MenuNode>) -> (n: MenuNode)
    ensures
        n@ == (MenuNodeView::Submenu { label: label@, children: views_of(children@) }),
{
    MenuNode::Submenu { label: String::from_str(label), children }
}

/// Build the application menu: the File, Edit and Debug groups, each with its
/// items in declaration order. The tree is built once at startup and never
/// mutated afterwards; the shell owns it once registered.
pub fn app_menu_tree() -> (t: MenuTree)
    ensures
        t@ == app_menu(),
{
    let mut file_children: Vec<MenuNode> = Vec::new();
    file_children.push(item("new_file", "New"));
    file_children.push(item("open_file", "Open..."));
    file_children.push(item("import_file", "Import..."));
    file_children.push(MenuNode::Separator);
    file_children.push(item("save_file", "Save"));
    file_children.push(item("save_as_file", "Save As..."));
    let file = submenu("File", file_children);

    let mut edit_children: Vec<MenuNode> = Vec::new();
    edit_children.push(item("undo", "Undo"));
    edit_children.push(item("redo", "Redo"));
    edit_children.push(MenuNode::Separator);
    edit_children.push(item("cut", "Cut"));
    edit_children.push(item("copy", "Copy"));
    edit_children.push(item("paste", "Paste"));
    let edit = submenu("Edit", edit_children);

    let mut debug_children: Vec<MenuNode> = Vec::new();
    debug_children.push(item("add_sample_tempo_event", "Add Sample Tempo Event"));
    debug_children.push(item("add_sample_time_signature_event", "Add Sample Time Signature Event"));
    debug_children.push(item("add_doremiredo_notes", "Add 'DoReMiReDo' Notes"));
    let debug = submenu("Debug", debug_children);

    let mut groups: Vec<MenuNode> = Vec::new();
    groups.push(file);
    groups.push(edit);
    groups.push(debug);
    let t = MenuTree { groups };
    proof {
        reveal_with_fuel(views_of, 8);
        assert(views_of(file_children@) =~= seq![
            MenuNodeView::Item { id: "new_file"@, label: "New"@ },
            MenuNodeView::Item { id: "open_file"@, label: "Open..."@ },
            MenuNodeView::Item { id: "import_file"@, label: "Import..."@ },
            MenuNodeView::Separator,
            MenuNodeView::Item { id: "save_file"@, label: "Save"@ },
            MenuNodeView::Item { id: "save_as_file"@, label: "Save As..."@ },
        ]);
        assert(views_of(edit_children@) =~= seq![
            MenuNodeView::Item { id: "undo"@, label: "Undo"@ },
            MenuNodeView::Item { id: "redo"@, label: "Redo"@ },
            MenuNodeView::Separator,
            MenuNodeView::Item { id: "cut"@, label: "Cut"@ },
            MenuNodeView::Item { id: "copy"@, label: "Copy"@ },
            MenuNodeView::Item { id: "paste"@, label: "Paste"@ },
        ]);
        assert(views_of(debug_children@) =~= seq![
            MenuNodeView::Item { id: "add_sample_tempo_event"@, label: "Add Sample Tempo Event"@ },
            MenuNodeView::Item {
                id: "add_sample_time_signature_event"@,
                label: "Add Sample Time Signature Event"@,
            },
            MenuNodeView::Item { id: "add_doremiredo_notes"@, label: "Add 'DoReMiReDo' Notes"@ },
        ]);
        assert(file@ == file_group());
        assert(edit@ == edit_group());
        assert(debug@ == debug_group());
        assert(t@ =~= app_menu());
    }
    t
}

} // verus!
