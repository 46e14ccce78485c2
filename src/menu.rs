//! Context menus: the entries of the title-bar and tab menus, and the routing
//! of a chosen menu id to an application action or a tab-scoped event.

use vstd::prelude::*;
use vstd::string::*;
use crate::text::{is_prefix_of, last_index_of, lemma_last_index_of_bounds, rfind_char, starts_with, str_equal, join};

verus! {

/// The tab-scoped actions a tab menu offers.
#[derive(Clone, Copy, Debug, PartialEq, Eq, Structural)]
pub enum TabAction {
    Refresh,
    Close,
    CloseOthers,
}

/// Id prefix that tags a tab menu item with its action.
pub open spec fn action_prefix(a: TabAction) -> Seq<char> {
    match a {
        TabAction::Refresh => "refresh_"@,
        TabAction::Close => "close_"@,
        TabAction::CloseOthers => "close_others_"@,
    }
}

/// Name of the event sent to the frontend for a tab action.
pub open spec fn event_name_of(a: TabAction) -> Seq<char> {
    match a {
        TabAction::Refresh => "tab-refresh"@,
        TabAction::Close => "tab-close"@,
        TabAction::CloseOthers => "tab-close-others"@,
    }
}

impl TabAction {
    /// The id prefix of this action's menu item.
    pub fn prefix(&self) -> (r: &'static str)
        ensures
            r@ == action_prefix(*self),
    {
        match self {
            TabAction::Refresh => "refresh_",
            TabAction::Close => "close_",
            TabAction::CloseOthers => "close_others_",
        }
    }

    /// The frontend event this action is reported as.
    pub fn event_name(&self) -> (r: &'static str)
        ensures
            r@ == event_name_of(*self),
    {
        match self {
            TabAction::Refresh => "tab-refresh",
            TabAction::Close => "tab-close",
            TabAction::CloseOthers => "tab-close-others",
        }
    }
}

/// The label a composite menu id names: what follows its last underscore,
/// when that is not empty.
pub open spec fn tab_label_of(id: Seq<char>) -> Option<Seq<char>> {
    let p = last_index_of(id, '_');
    if p >= 0 && p + 1 < id.len() {
        Some(id.subrange(p + 1, id.len() as int))
    } else {
        None
    }
}

/// The tab action a menu id asks for, by prefix, in order of precedence.
/// `close_right_` is excluded from plain closing and maps to nothing.
pub open spec fn tab_action_of(id: Seq<char>) -> Option<TabAction> {
    if is_prefix_of("refresh_"@, id) {
        Some(TabAction::Refresh)
    } else if is_prefix_of("close_"@, id) && !is_prefix_of("close_others_"@, id)
        && !is_prefix_of("close_right_"@, id) {
        Some(TabAction::Close)
    } else if is_prefix_of("close_others_"@, id) {
        Some(TabAction::CloseOthers)
    } else {
        None
    }
}

/// Recovers the tab label from a composite menu id such as `refresh_tab3`.
pub fn extract_tab_label_from_menu_id(menu_id: &str) -> (r: Option<String>)
    ensures
        match r {
            Some(l) => tab_label_of(menu_id@) == Some(l@),
            None => tab_label_of(menu_id@) is None,
        },
{
    let n = menu_id.unicode_len();
    match rfind_char(menu_id, '_') {
        Some(pos) => {
            proof {
                lemma_last_index_of_bounds(menu_id@, '_');
            }
            if pos + 1 < n {
                let tail = menu_id.substring_char(pos + 1, n);
                Some(String::from_str(tail))
            } else {
                None
            }
        },
        None => None,
    }
}

proof fn lemma_last_underscore_after_prefix(p: Seq<char>, l: Seq<char>)
    requires
        p.len() > 0,
        p.last() == '_',
        forall|i: int| 0 <= i < l.len() ==> l[i] != '_',
    ensures
        last_index_of(p + l, '_') == p.len() - 1,
    decreases l.len(),
{
    if l.len() == 0 {
        assert(p + l =~= p);
    } else {
        assert((p + l).drop_last() =~= p + l.drop_last());
        lemma_last_underscore_after_prefix(p, l.drop_last());
    }
}

/// The id of a tab menu item routes back to the item's own action and
/// label, whenever the label is not empty and holds no underscore.
pub proof fn lemma_tab_menu_id_routes_back(action: TabAction, label: Seq<char>, r: MenuDispatch)
    requires
        label.len() > 0,
        forall|i: int| 0 <= i < label.len() ==> label[i] != '_',
    ensures
        tab_label_of(action_prefix(action) + label) == Some(label),
        tab_action_of(action_prefix(action) + label) == Some(action),
        dispatch_of(action_prefix(action) + label, r) <==> (r matches MenuDispatch::Emit(b, m) && b
            == action && m@ == label),
{
    reveal_strlit("refresh_");
    reveal_strlit("close_");
    reveal_strlit("close_others_");
    reveal_strlit("close_right_");
    reveal_strlit("settings");
    reveal_strlit("restart");
    reveal_strlit("quit");
    let p = action_prefix(action);
    let id = p + label;
    lemma_last_underscore_after_prefix(p, label);
    assert(id.subrange(p.len() as int, id.len() as int) =~= label);
    assert(id.subrange(0, p.len() as int) =~= p);
    assert(id[0] == p[0]);
    assert(id[2] == p[2]);
    assert(id != "settings"@) by {
        if id == "settings"@ {
            assert(id[0] == "settings"@[0]);
        }
    }
    assert(id != "restart"@) by {
        if id == "restart"@ {
            assert(id[0] == "restart"@[0]);
            assert(id[2] == "restart"@[2]);
        }
    }
    assert(id != "quit"@) by {
        if id == "quit"@ {
            assert(id[0] == "quit"@[0]);
        }
    }
    if is_prefix_of("refresh_"@, id) {
        assert(id.subrange(0, 8)[0] == "refresh_"@[0]);
    }
    if is_prefix_of("close_others_"@, id) {
        assert(id.subrange(0, 13)[0] == "close_others_"@[0]);
        assert(id.subrange(0, 13)[12] == '_');
        if action == TabAction::Close {
            assert(id[12] == label[6]);
        }
    }
    if is_prefix_of("close_right_"@, id) {
        assert(id.subrange(0, 12)[0] == "close_right_"@[0]);
        assert(id.subrange(0, 12)[11] == '_');
        if action == TabAction::Close {
            assert(id[11] == label[5]);
        }
        if action == TabAction::CloseOthers {
            assert(id.subrange(0, 12)[6] == "close_right_"@[6]);
        }
    }
    if action != TabAction::Refresh {
        assert(id.subrange(0, 6) =~= "close_"@);
    }
}

/// What a chosen menu item asks of the application.
#[derive(Debug)]
pub enum MenuDispatch {
    OpenSettings,
    Restart,
    Quit,
    /// Send the tab event to the frontend with the tab's label as payload.
    Emit(TabAction, String),
    Ignore,
}

/// `r` is the routing that the menu id `id` calls for.
pub open spec fn dispatch_of(id: Seq<char>, r: MenuDispatch) -> bool {
    if id == "settings"@ {
        r is OpenSettings
    } else if id == "restart"@ {
        r is Restart
    } else if id == "quit"@ {
        r is Quit
    } else {
        match (tab_label_of(id), tab_action_of(id)) {
            (Some(l), Some(a)) => match r {
                MenuDispatch::Emit(b, m) => b == a && m@ == l,
                _ => false,
            },
            _ => r is Ignore,
        }
    }
}

/// Routes a menu event by the id of the chosen item.
pub fn dispatch_menu_id(menu_id: &str) -> (r: MenuDispatch)
    ensures
        dispatch_of(menu_id@, r),
{
    if str_equal(menu_id, "settings") {
        return MenuDispatch::OpenSettings;
    }
    if str_equal(menu_id, "restart") {
        return MenuDispatch::Restart;
    }
    if str_equal(menu_id, "quit") {
        return MenuDispatch::Quit;
    }
    let label = match extract_tab_label_from_menu_id(menu_id) {
        Some(l) => l,
        None => return MenuDispatch::Ignore,
    };
    let action = if starts_with(menu_id, "refresh_") {
        TabAction::Refresh
    } else if starts_with(menu_id, "close_") && !starts_with(menu_id, "close_others_")
        && !starts_with(menu_id, "close_right_") {
        TabAction::Close
    } else if starts_with(menu_id, "close_others_") {
        TabAction::CloseOthers
    } else {
        return MenuDispatch::Ignore;
    };
    MenuDispatch::Emit(action, label)
}

/// The id of the tab menu item that applies `action` to the tab `label`.
pub fn tab_menu_id(action: TabAction, label: &str) -> (r: String)
    ensures
        r@ == action_prefix(action) + label@,
{
    join(action.prefix(), label)
}

/// One entry of a native context menu.
#[derive(Clone, Debug)]
pub enum MenuEntry {
    Item { text: String, id: String, enabled: bool },
    Separator,
}

/// `e` is an item with this text, id and enabled flag.
pub open spec fn is_item(e: MenuEntry, text: Seq<char>, id: Seq<char>, enabled: bool) -> bool {
    match e {
        MenuEntry::Item { text: t, id: i, enabled: b } => t@ == text && i@ == id && b == enabled,
        MenuEntry::Separator => false,
    }
}

fn item(text: &str, id: String, enabled: bool) -> (r: MenuEntry)
    ensures
        is_item(r, text@, id@, enabled),
{
    MenuEntry::Item { text: String::from_str(text), id, enabled }
}

/// The title-bar menu: settings, restart, quit.
pub fn titlebar_menu() -> (r: Vec<MenuEntry>)
    ensures
        r@.len() == 3,
        is_item(r@[0], "设置"@, "settings"@, true),
        is_item(r@[1], "重启应用"@, "restart"@, true),
        is_item(r@[2], "退出"@, "quit"@, true),
{
    let mut v: Vec<MenuEntry> = Vec::new();
    v.push(item("设置", String::from_str("settings"), true));
    v.push(item("重启应用", String::from_str("restart"), true));
    v.push(item("退出", String::from_str("quit"), true));
    v
}

/// The menu of one tab: refresh, a separator, close, and close-others, which
/// is enabled only when more than one tab is open.
pub fn tab_menu(tab_label: &str, total_tabs: usize) -> (r: Vec<MenuEntry>)
    ensures
        r@.len() == 4,
        is_item(r@[0], "刷新"@, "refresh_"@ + tab_label@, true),
        r@[1] is Separator,
        is_item(r@[2], "关闭"@, "close_"@ + tab_label@, true),
        is_item(r@[3], "关闭其他"@, "close_others_"@ + tab_label@, total_tabs > 1),
{
    let mut v: Vec<MenuEntry> = Vec::new();
    v.push(item("刷新", tab_menu_id(TabAction::Refresh, tab_label), true));
    v.push(MenuEntry::Separator);
    v.push(item("关闭", tab_menu_id(TabAction::Close, tab_label), true));
    v.push(item("关闭其他", tab_menu_id(TabAction::CloseOthers, tab_label), total_tabs > 1));
    v
}

} // verus!
