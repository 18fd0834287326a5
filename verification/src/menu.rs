//! Main menu items and the tabs of the credentials view.

use vstd::prelude::*;

verus! {

/// Main menu items, shared between the terminal and web interfaces.
#[derive(Debug, Clone, Copy, PartialEq, Eq, Structural)]
pub enum MenuItem {
    Dashboard,
    Credentials,
    Agents,
    Sessions,
    CronJobs,
    Models,
    Settings,
}

/// Number of menu items.
pub const MENU_ITEM_COUNT: usize = 7;

/// The position of each menu item.
pub open spec fn menu_index(m: MenuItem) -> nat {
    match m {
        MenuItem::Dashboard => 0,
        MenuItem::Credentials => 1,
        MenuItem::Agents => 2,
        MenuItem::Sessions => 3,
        MenuItem::CronJobs => 4,
        MenuItem::Models => 5,
        MenuItem::Settings => 6,
    }
}

/// The menu item at a position, counting round.
pub open spec fn menu_at(i: nat) -> MenuItem {
    let k = i % 7;
    if k == 0 {
        MenuItem::Dashboard
    } else if k == 1 {
        MenuItem::Credentials
    } else if k == 2 {
        MenuItem::Agents
    } else if k == 3 {
        MenuItem::Sessions
    } else if k == 4 {
        MenuItem::CronJobs
    } else if k == 5 {
        MenuItem::Models
    } else {
        MenuItem::Settings
    }
}

/// The menu items in order.
pub open spec fn all_menu_items() -> Seq<MenuItem> {
    seq![
        MenuItem::Dashboard,
        MenuItem::Credentials,
        MenuItem::Agents,
        MenuItem::Sessions,
        MenuItem::CronJobs,
        MenuItem::Models,
        MenuItem::Settings,
    ]
}

/// Titles of the menu items.
pub open spec fn menu_title(m: MenuItem) -> Seq<char> {
    match m {
        MenuItem::Dashboard => "Dashboard"@,
        MenuItem::Credentials => "Credentials"@,
        MenuItem::Agents => "Agents"@,
        MenuItem::Sessions => "Sessions"@,
        MenuItem::CronJobs => "Cron Jobs"@,
        MenuItem::Models => "Models"@,
        MenuItem::Settings => "Settings"@,
    }
}

impl Default for MenuItem {
    fn default() -> (m: MenuItem)
        ensures
            m == MenuItem::Dashboard,
    {
        MenuItem::Dashboard
    }
}

impl MenuItem {
    pub fn all() -> (v: Vec<MenuItem>)
        ensures
            v@ == all_menu_items(),
    {
        let v = vec![
            MenuItem::Dashboard,
            MenuItem::Credentials,
            MenuItem::Agents,
            MenuItem::Sessions,
            MenuItem::CronJobs,
            MenuItem::Models,
            MenuItem::Settings,
        ];
        assert(v@ =~= all_menu_items());
        v
    }

    pub fn title(&self) -> (r: &'static str)
        ensures
            r@ == menu_title(*self),
    {
        match self {
            MenuItem::Dashboard => "Dashboard",
            MenuItem::Credentials => "Credentials",
            MenuItem::Agents => "Agents",
            MenuItem::Sessions => "Sessions",
            MenuItem::CronJobs => "Cron Jobs",
            MenuItem::Models => "Models",
            MenuItem::Settings => "Settings",
        }
    }

    pub fn icon(&self) -> (r: &'static str)
        ensures
            r@ == match *self {
                MenuItem::Dashboard => "📊"@,
                MenuItem::Credentials => "🔐"@,
                MenuItem::Agents => "🤖"@,
                MenuItem::Sessions => "💬"@,
                MenuItem::CronJobs => "🕐"@,
                MenuItem::Models => "🧠"@,
                MenuItem::Settings => "⚙️"@,
            },
    {
        match self {
            MenuItem::Dashboard => "📊",
            MenuItem::Credentials => "🔐",
            MenuItem::Agents => "🤖",
            MenuItem::Sessions => "💬",
            MenuItem::CronJobs => "🕐",
            MenuItem::Models => "🧠",
            MenuItem::Settings => "⚙️",
        }
    }

    pub fn index(&self) -> (r: usize)
        ensures
            r == menu_index(*self),
    {
        match self {
            MenuItem::Dashboard => 0,
            MenuItem::Credentials => 1,
            MenuItem::Agents => 2,
            MenuItem::Sessions => 3,
            MenuItem::CronJobs => 4,
            MenuItem::Models => 5,
            MenuItem::Settings => 6,
        }
    }

    pub fn from_index(idx: usize) -> (m: MenuItem)
        ensures
            m == menu_at(idx as nat),
    {
        let k = idx % 7;
        if k == 0 {
            MenuItem::Dashboard
        } else if k == 1 {
            MenuItem::Credentials
        } else if k == 2 {
            MenuItem::Agents
        } else if k == 3 {
            MenuItem::Sessions
        } else if k == 4 {
            MenuItem::CronJobs
        } else if k == 5 {
            MenuItem::Models
        } else {
            MenuItem::Settings
        }
    }
}

/// A menu item's position leads back to it, and the item at a position
/// has that position, counted round the seven items; `all` lists each item
/// at its position.
pub proof fn lemma_menu_index_roundtrip(m: MenuItem, i: nat)
    ensures
        menu_at(menu_index(m)) == m,
        menu_index(menu_at(i)) == i % 7,
        menu_index(m) < 7,
        all_menu_items().len() == 7,
        all_menu_items()[menu_index(m) as int] == m,
{
}

/// Tabs of the credentials view.
#[derive(Debug, Clone, Copy, PartialEq, Eq, Structural)]
pub enum CredentialsTab {
    Endpoints,
    Providers,
    Permissions,
    Audit,
}

/// The position of each credentials tab.
pub open spec fn tab_index(t: CredentialsTab) -> nat {
    match t {
        CredentialsTab::Endpoints => 0,
        CredentialsTab::Providers => 1,
        CredentialsTab::Permissions => 2,
        CredentialsTab::Audit => 3,
    }
}

/// The credentials tab at a position, counting round.
pub open spec fn tab_at(i: nat) -> CredentialsTab {
    let k = i % 4;
    if k == 0 {
        CredentialsTab::Endpoints
    } else if k == 1 {
        CredentialsTab::Providers
    } else if k == 2 {
        CredentialsTab::Permissions
    } else {
        CredentialsTab::Audit
    }
}

impl Default for CredentialsTab {
    fn default() -> (t: CredentialsTab)
        ensures
            t == CredentialsTab::Endpoints,
    {
        CredentialsTab::Endpoints
    }
}

impl CredentialsTab {
    pub fn all() -> (v: Vec<CredentialsTab>)
        ensures
            v@ == seq![
                CredentialsTab::Endpoints,
                CredentialsTab::Providers,
                CredentialsTab::Permissions,
                CredentialsTab::Audit,
            ],
    {
        let v = vec![
            CredentialsTab::Endpoints,
            CredentialsTab::Providers,
            CredentialsTab::Permissions,
            CredentialsTab::Audit,
        ];
        assert(v@ =~= seq![
            CredentialsTab::Endpoints,
            CredentialsTab::Providers,
            CredentialsTab::Permissions,
            CredentialsTab::Audit,
        ]);
        v
    }

    pub fn label(&self) -> (r: &'static str)
        ensures
            r@ == match *self {
                CredentialsTab::Endpoints => "Endpoints"@,
                CredentialsTab::Providers => "Providers"@,
                CredentialsTab::Permissions => "Permissions"@,
                CredentialsTab::Audit => "Audit Log"@,
            },
    {
        match self {
            CredentialsTab::Endpoints => "Endpoints",
            CredentialsTab::Providers => "Providers",
            CredentialsTab::Permissions => "Permissions",
            CredentialsTab::Audit => "Audit Log",
        }
    }

    pub fn index(&self) -> (r: usize)
        ensures
            r == tab_index(*self),
    {
        match self {
            CredentialsTab::Endpoints => 0,
            CredentialsTab::Providers => 1,
            CredentialsTab::Permissions => 2,
            CredentialsTab::Audit => 3,
        }
    }

    pub fn from_index(idx: usize) -> (t: CredentialsTab)
        ensures
            t == tab_at(idx as nat),
    {
        let k = idx % 4;
        if k == 0 {
            CredentialsTab::Endpoints
        } else if k == 1 {
            CredentialsTab::Providers
        } else if k == 2 {
            CredentialsTab::Permissions
        } else {
            CredentialsTab::Audit
        }
    }
}

/// A tab's position leads back to it, and the tab at a position has that
/// position, counted round the four tabs.
pub proof fn lemma_tab_index_roundtrip(t: CredentialsTab, i: nat)
    ensures
        tab_at(tab_index(t)) == t,
        tab_index(tab_at(i)) == i % 4,
{
}

} // verus!
