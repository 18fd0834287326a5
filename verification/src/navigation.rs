//! Moving the selection: between pages, within the list of the current
//! page and within the credential tabs, with the providers of the chosen
//! credential category.

use vstd::prelude::*;
use crate::app_state::AppState;
use crate::menu::{MenuItem, menu_at};
use crate::modes::{ContextMenuAction, ContextMenuItem, ContextMenuState};
use crate::schemas::{CredentialSchemaInfo, ProviderCategory, ProviderInfo};
use crate::slots::{next_wrap, prev_wrap};
use crate::text::{str_eq, string_of};

verus! {

broadcast use vstd::string::group_string_axioms;

/// How many providers the Models page cycles through: at least one.
pub open spec fn provider_slots(s: AppState) -> nat {
    if s.providers@.len() > 1 { s.providers@.len() } else { 1 }
}

/// The state after moving the selection back on the current page: the
/// selection wraps from the first item to the last; empty lists and the
/// dashboard do not move.
pub open spec fn selected_prev(b: AppState, a: AppState) -> bool {
    match b.menu_item {
        MenuItem::Dashboard => a == b,
        MenuItem::Credentials => a == (AppState {
            credentials_tab: prev_wrap(b.credentials_tab as nat, 4) as usize,
            ..b
        }),
        MenuItem::Agents => a == if b.agents@.len() > 0 {
            AppState { selected_agent: prev_wrap(b.selected_agent as nat, b.agents@.len()) as usize, ..b }
        } else {
            b
        },
        MenuItem::Sessions => a == if b.sessions@.len() > 0 {
            AppState {
                selected_session: prev_wrap(b.selected_session as nat, b.sessions@.len()) as usize,
                ..b
            }
        } else {
            b
        },
        MenuItem::CronJobs => a == (AppState {
            selected_cron_card: prev_wrap(b.selected_cron_card as nat, 3) as usize,
            ..b
        }),
        MenuItem::Models => a == (AppState {
            selected_provider: prev_wrap(b.selected_provider as nat, provider_slots(b)) as usize,
            ..b
        }),
        MenuItem::Settings => a == (AppState {
            selected_settings_card: prev_wrap(b.selected_settings_card as nat, 3) as usize,
            ..b
        }),
    }
}

/// The state after moving the selection forward on the current page: the
/// selection wraps from the last item to the first.
pub open spec fn selected_next(b: AppState, a: AppState) -> bool {
    match b.menu_item {
        MenuItem::Dashboard => a == b,
        MenuItem::Credentials => a == (AppState {
            credentials_tab: next_wrap(b.credentials_tab as nat, 4) as usize,
            ..b
        }),
        MenuItem::Agents => a == if b.agents@.len() > 0 {
            AppState { selected_agent: next_wrap(b.selected_agent as nat, b.agents@.len()) as usize, ..b }
        } else {
            b
        },
        MenuItem::Sessions => a == if b.sessions@.len() > 0 {
            AppState {
                selected_session: next_wrap(b.selected_session as nat, b.sessions@.len()) as usize,
                ..b
            }
        } else {
            b
        },
        MenuItem::CronJobs => a == (AppState {
            selected_cron_card: next_wrap(b.selected_cron_card as nat, 3) as usize,
            ..b
        }),
        MenuItem::Models => a == (AppState {
            selected_provider: next_wrap(b.selected_provider as nat, provider_slots(b)) as usize,
            ..b
        }),
        MenuItem::Settings => a == (AppState {
            selected_settings_card: next_wrap(b.selected_settings_card as nat, 3) as usize,
            ..b
        }),
    }
}

/// The state after going to the previous page of the menu, which cycles
/// through the first six pages.
pub open spec fn menu_moved_prev(b: AppState, a: AppState) -> bool {
    let i = prev_wrap(b.menu_index as nat, 6);
    a == (AppState { menu_index: i as usize, menu_item: menu_at(i), ..b })
}

/// The state after going to the next page of the menu.
pub open spec fn menu_moved_next(b: AppState, a: AppState) -> bool {
    let i = next_wrap(b.menu_index as nat, 6);
    a == (AppState { menu_index: i as usize, menu_item: menu_at(i), ..b })
}

/// The selection of the current page points into its list (an empty list
/// and the dashboard have nothing to point into).
pub open spec fn selection_in_range(s: AppState) -> bool {
    match s.menu_item {
        MenuItem::Dashboard => true,
        MenuItem::Credentials => s.credentials_tab < 4,
        MenuItem::Agents => s.agents@.len() == 0 || s.selected_agent < s.agents@.len(),
        MenuItem::Sessions => s.sessions@.len() == 0 || s.selected_session < s.sessions@.len(),
        MenuItem::CronJobs => s.selected_cron_card < 3,
        MenuItem::Models => s.selected_provider < provider_slots(s),
        MenuItem::Settings => s.selected_settings_card < 3,
    }
}

/// The selection of the current credential tab points into its list.
pub open spec fn credential_selection_in_range(s: AppState) -> bool {
    &&& s.credentials_tab == 0 ==> s.endpoints@.len() == 0 || s.selected_endpoint < s.endpoints@.len()
    &&& s.credentials_tab == 1 ==> category_count(s) == 0 || s.selected_provider_index < category_count(s)
    &&& s.credentials_tab == 2 ==> s.permissions@.len() == 0 || s.selected_permission < s.permissions@.len()
}

/// Moving forward does not overflow: the selection of the current page is
/// below the largest index.
pub open spec fn can_select_next(s: AppState) -> bool {
    match s.menu_item {
        MenuItem::Credentials => s.credentials_tab < usize::MAX,
        MenuItem::Agents => s.selected_agent < usize::MAX,
        MenuItem::Sessions => s.selected_session < usize::MAX,
        MenuItem::CronJobs => s.selected_cron_card < usize::MAX,
        MenuItem::Models => s.selected_provider < usize::MAX,
        MenuItem::Settings => s.selected_settings_card < usize::MAX,
        MenuItem::Dashboard => true,
    }
}

/// Whether a credential schema belongs to the chosen category (0 is all,
/// then model, communication and tool providers).
pub open spec fn in_category(selected: nat, category: Seq<char>) -> bool {
    if selected == 0 {
        true
    } else if selected == 1 {
        category == "model"@
    } else if selected == 2 {
        category == "communication"@
    } else if selected == 3 {
        category == "tool"@
    } else {
        false
    }
}

/// The schemas of the chosen category, in order.
pub open spec fn schemas_in_category(s: Seq<CredentialSchemaInfo>, selected: nat) -> Seq<CredentialSchemaInfo> {
    s.filter(|x: CredentialSchemaInfo| in_category(selected, x.category@))
}

/// The number of providers listed for the chosen category.
pub open spec fn category_count(s: AppState) -> nat {
    schemas_in_category(s.credential_schemas@, s.selected_category as nat).len()
}

/// The schema selected on the Providers tab, if any.
pub open spec fn selected_schema(s: AppState) -> Option<CredentialSchemaInfo> {
    let list = schemas_in_category(s.credential_schemas@, s.selected_category as nat);
    if s.credentials_tab == 1 && s.selected_category <= 3 && s.selected_provider_index < list.len() {
        Some(list[s.selected_provider_index as int])
    } else {
        None
    }
}

/// The provider category named by a schema's category; unknown names are
/// tools.
pub open spec fn category_of(category: Seq<char>) -> ProviderCategory {
    if category == "model"@ {
        ProviderCategory::Model
    } else if category == "communication"@ {
        ProviderCategory::Communication
    } else {
        ProviderCategory::Tool
    }
}

/// A provider's description: the hint of its first authentication method,
/// else that method's label, else nothing.
pub open spec fn description_of(s: CredentialSchemaInfo) -> Seq<char> {
    if s.auth_methods@.len() > 0 {
        match s.auth_methods@[0].hint {
            Some(h) => h@,
            None => s.auth_methods@[0].label@,
        }
    } else {
        Seq::empty()
    }
}

/// The state after moving the selection back within the current credential
/// tab (endpoints, providers or permissions), wrapping.
pub open spec fn credential_selected_prev(b: AppState, a: AppState) -> bool {
    if b.credentials_tab == 0 && b.endpoints@.len() > 0 {
        a == AppState { selected_endpoint: prev_wrap(b.selected_endpoint as nat, b.endpoints@.len()) as usize, ..b }
    } else if b.credentials_tab == 1 && category_count(b) > 0 {
        a == AppState {
            selected_provider_index: prev_wrap(b.selected_provider_index as nat, category_count(b)) as usize,
            ..b
        }
    } else if b.credentials_tab == 2 && b.permissions@.len() > 0 {
        a == AppState {
            selected_permission: prev_wrap(b.selected_permission as nat, b.permissions@.len()) as usize,
            ..b
        }
    } else {
        a == b
    }
}

/// The state after moving the selection forward within the current
/// credential tab, wrapping.
pub open spec fn credential_selected_next(b: AppState, a: AppState) -> bool {
    if b.credentials_tab == 0 && b.endpoints@.len() > 0 {
        a == AppState { selected_endpoint: next_wrap(b.selected_endpoint as nat, b.endpoints@.len()) as usize, ..b }
    } else if b.credentials_tab == 1 && category_count(b) > 0 {
        a == AppState {
            selected_provider_index: next_wrap(b.selected_provider_index as nat, category_count(b)) as usize,
            ..b
        }
    } else if b.credentials_tab == 2 && b.permissions@.len() > 0 {
        a == AppState {
            selected_permission: next_wrap(b.selected_permission as nat, b.permissions@.len()) as usize,
            ..b
        }
    } else {
        a == b
    }
}

/// Moving forward in the credential tab does not overflow.
pub open spec fn can_select_credential_next(s: AppState) -> bool {
    &&& s.credentials_tab == 0 ==> s.selected_endpoint < usize::MAX
    &&& s.credentials_tab == 1 ==> s.selected_provider_index < usize::MAX
    &&& s.credentials_tab == 2 ==> s.selected_permission < usize::MAX
}

/// The entries of the context menu of a page: label, key and action.
pub open spec fn context_entries(m: MenuItem) -> Seq<(Seq<char>, char, ContextMenuAction)> {
    match m {
        MenuItem::Agents => seq![
            ("Add Agent"@, 'a', ContextMenuAction::OpenAddAgent),
            ("Edit Agent"@, 'e', ContextMenuAction::OpenEditAgent),
            ("Delete Agent"@, 'd', ContextMenuAction::DeleteAgent),
            ("Context Files"@, 'f', ContextMenuAction::OpenContextFiles),
            ("Refresh"@, 'r', ContextMenuAction::RefreshPage),
        ],
        MenuItem::Credentials => seq![
            ("Add Credential"@, 'a', ContextMenuAction::OpenAddCredential),
            ("Refresh"@, 'r', ContextMenuAction::RefreshPage),
        ],
        MenuItem::Sessions => seq![
            ("New Session"@, 'n', ContextMenuAction::OpenCreateSession),
            ("Refresh"@, 'r', ContextMenuAction::RefreshPage),
        ],
        MenuItem::CronJobs => seq![
            ("Trigger Job"@, 't', ContextMenuAction::TriggerCronJob),
            ("Refresh"@, 'r', ContextMenuAction::RefreshPage),
        ],
        _ => seq![("Refresh"@, 'r', ContextMenuAction::RefreshPage)],
    }
}

/// What the items of a context menu say.
pub open spec fn menu_entries(items: Seq<ContextMenuItem>) -> Seq<(Seq<char>, char, ContextMenuAction)> {
    items.map_values(|i: ContextMenuItem| (i.label@, i.key, i.action))
}

fn menu_entry(label: &str, key: char, action: ContextMenuAction) -> (i: ContextMenuItem)
    ensures
        i.label@ == label@,
        i.key == key,
        i.action == action,
{
    ContextMenuItem { label: string_of(label), key, action }
}

/// Whether the text of a schema's category is exactly `name`.
fn category_is(s: &CredentialSchemaInfo, name: &str) -> (r: bool)
    ensures
        r == (s.category@ == name@),
{
    str_eq(s.category.as_str(), name)
}

/// Whether a schema belongs to the chosen category.
fn schema_in_category(s: &CredentialSchemaInfo, selected: usize) -> (r: bool)
    ensures
        r == in_category(selected as nat, s@.category),
{
    if selected == 0 {
        true
    } else if selected == 1 {
        category_is(s, "model")
    } else if selected == 2 {
        category_is(s, "communication")
    } else if selected == 3 {
        category_is(s, "tool")
    } else {
        false
    }
}

/// Filtering a prefix one element longer.
proof fn lemma_filter_step(s: Seq<CredentialSchemaInfo>, selected: nat, i: int)
    requires
        0 <= i < s.len(),
    ensures
        schemas_in_category(s.take(i + 1), selected) == if in_category(selected, s[i].category@) {
            schemas_in_category(s.take(i), selected).push(s[i])
        } else {
            schemas_in_category(s.take(i), selected)
        },
{
    assert(s.take(i + 1).drop_last() =~= s.take(i));
    reveal_with_fuel(Seq::filter, 1);
}

/// Filtering splits at any point.
proof fn lemma_filter_split(s: Seq<CredentialSchemaInfo>, selected: nat, i: int)
    requires
        0 <= i <= s.len(),
    ensures
        schemas_in_category(s, selected) == schemas_in_category(s.take(i), selected)
            + schemas_in_category(s.skip(i), selected),
{
    let p = |x: CredentialSchemaInfo| in_category(selected, x.category@);
    assert(s =~= s.take(i) + s.skip(i));
    Seq::filter_distributes_over_add(s.take(i), s.skip(i), p);
}

impl AppState {
    /// Number of registered model providers, at least one.
    pub fn model_provider_count(&self) -> (n: usize)
        ensures
            n == provider_slots(*self),
    {
        if self.providers.len() > 1 {
            self.providers.len()
        } else {
            1
        }
    }

    /// Move the selection up in the current page's list.
    pub fn select_prev(&mut self)
        ensures
            selected_prev(*old(self), *final(self)),
    {
        match self.menu_item {
            MenuItem::Dashboard => {},
            MenuItem::Credentials => {
                self.credentials_tab = if self.credentials_tab == 0 { 3 } else { self.credentials_tab - 1 };
            },
            MenuItem::Agents => {
                if self.agents.len() > 0 {
                    self.selected_agent = if self.selected_agent == 0 {
                        self.agents.len() - 1
                    } else {
                        self.selected_agent - 1
                    };
                }
            },
            MenuItem::Sessions => {
                if self.sessions.len() > 0 {
                    self.selected_session = if self.selected_session == 0 {
                        self.sessions.len() - 1
                    } else {
                        self.selected_session - 1
                    };
                }
            },
            MenuItem::CronJobs => {
                self.selected_cron_card = if self.selected_cron_card == 0 { 2 } else { self.selected_cron_card - 1 };
            },
            MenuItem::Models => {
                let count = self.model_provider_count();
                self.selected_provider = if self.selected_provider == 0 { count - 1 } else { self.selected_provider - 1 };
            },
            MenuItem::Settings => {
                self.selected_settings_card = if self.selected_settings_card == 0 {
                    2
                } else {
                    self.selected_settings_card - 1
                };
            },
        }
    }

    /// Move the selection down in the current page's list.
    pub fn select_next(&mut self)
        requires
            can_select_next(*old(self)),
        ensures
            selected_next(*old(self), *final(self)),
    {
        match self.menu_item {
            MenuItem::Dashboard => {},
            MenuItem::Credentials => {
                self.credentials_tab = (self.credentials_tab + 1) % 4;
            },
            MenuItem::Agents => {
                if self.agents.len() > 0 {
                    self.selected_agent = (self.selected_agent + 1) % self.agents.len();
                }
            },
            MenuItem::Sessions => {
                if self.sessions.len() > 0 {
                    self.selected_session = (self.selected_session + 1) % self.sessions.len();
                }
            },
            MenuItem::CronJobs => {
                self.selected_cron_card = (self.selected_cron_card + 1) % 3;
            },
            MenuItem::Models => {
                let count = self.model_provider_count();
                self.selected_provider = (self.selected_provider + 1) % count;
            },
            MenuItem::Settings => {
                self.selected_settings_card = (self.selected_settings_card + 1) % 3;
            },
        }
    }

    /// Number of providers listed for the chosen credential category.
    pub fn provider_count_for_category(&self) -> (n: usize)
        ensures
            n == category_count(*self),
    {
        let schemas = &self.credential_schemas;
        let mut n: usize = 0;
        let mut i: usize = 0;
        while i < schemas.len()
            invariant
                i <= schemas@.len(),
                schemas@ == self.credential_schemas@,
                n == schemas_in_category(schemas@.take(i as int), self.selected_category as nat).len(),
                n <= i,
            decreases schemas@.len() - i,
        {
            proof {
                lemma_filter_step(schemas@, self.selected_category as nat, i as int);
            }
            if schema_in_category(&schemas[i], self.selected_category) {
                n = n + 1;
            }
            i = i + 1;
        }
        proof {
            assert(schemas@.take(schemas@.len() as int) =~= schemas@);
        }
        n
    }

    /// Position of the selected schema among all schemas.
    fn selected_schema_index(&self) -> (r: Option<usize>)
        ensures
            match r {
                Some(i) => i < self.credential_schemas@.len() && selected_schema(*self) == Some(
                    self.credential_schemas@[i as int],
                ),
                None => selected_schema(*self) is None,
            },
    {
        if self.credentials_tab != 1 || self.selected_category > 3 {
            return None;
        }
        let schemas = &self.credential_schemas;
        let idx = self.selected_provider_index;
        let ghost sel = self.selected_category as nat;
        let mut n: usize = 0;
        let mut i: usize = 0;
        while i < schemas.len()
            invariant
                i <= schemas@.len(),
                schemas@ == self.credential_schemas@,
                sel == self.selected_category as nat,
                idx == self.selected_provider_index,
                self.credentials_tab == 1,
                self.selected_category <= 3,
                n == schemas_in_category(schemas@.take(i as int), sel).len(),
                n <= idx,
                n <= i,
            decreases schemas@.len() - i,
        {
            proof {
                lemma_filter_step(schemas@, sel, i as int);
            }
            if schema_in_category(&schemas[i], self.selected_category) {
                if n == idx {
                    proof {
                        lemma_filter_split(schemas@, sel, i + 1);
                        let pre = schemas_in_category(schemas@.take(i + 1), sel);
                        let all = schemas_in_category(schemas@, sel);
                        assert(pre[n as int] == schemas@[i as int]);
                        assert(all[n as int] == pre[n as int]);
                    }
                    return Some(i);
                }
                n = n + 1;
            }
            i = i + 1;
        }
        proof {
            assert(schemas@.take(schemas@.len() as int) =~= schemas@);
        }
        None
    }

    /// The credential schema of the provider selected on the Providers tab.
    pub fn get_selected_credential_schema(&self) -> (r: Option<&CredentialSchemaInfo>)
        ensures
            match r {
                Some(s) => selected_schema(*self) == Some(*s),
                None => selected_schema(*self) is None,
            },
    {
        match self.selected_schema_index() {
            Some(i) => Some(&self.credential_schemas[i]),
            None => None,
        }
    }

    /// The provider selected on the Providers tab: its id, name,
    /// description and category.
    pub fn get_selected_provider_info(&self) -> (r: Option<ProviderInfo>)
        ensures
            match selected_schema(*self) {
                Some(s) => r is Some && r->0.id@ == s.provider_id@ && r->0.name@ == s.provider_name@
                    && r->0.description@ == description_of(s) && r->0.category == category_of(s.category@),
                None => r is None,
            },
    {
        match self.selected_schema_index() {
            Some(i) => {
                let s = &self.credential_schemas[i];
                let category = if category_is(s, "model") {
                    ProviderCategory::Model
                } else if category_is(s, "communication") {
                    ProviderCategory::Communication
                } else {
                    ProviderCategory::Tool
                };
                let description = if s.auth_methods.len() > 0 {
                    match &s.auth_methods[0].hint {
                        Some(h) => h.clone(),
                        None => s.auth_methods[0].label.clone(),
                    }
                } else {
                    String::new()
                };
                Some(
                    ProviderInfo {
                        id: s.provider_id.clone(),
                        name: s.provider_name.clone(),
                        description,
                        category,
                    },
                )
            },
            None => None,
        }
    }

    /// On the Providers tab, move the focus between the category list and
    /// the provider list; entering the provider list selects its first entry.
    pub fn toggle_provider_focus(&mut self)
        ensures
            *final(self) == if old(self).credentials_tab == 1 {
                AppState {
                    provider_list_focus: !old(self).provider_list_focus,
                    selected_provider_index: if !old(self).provider_list_focus {
                        0
                    } else {
                        old(self).selected_provider_index
                    },
                    ..*old(self)
                }
            } else {
                *old(self)
            },
    {
        if self.credentials_tab == 1 {
            self.provider_list_focus = !self.provider_list_focus;
            if self.provider_list_focus {
                self.selected_provider_index = 0;
            }
        }
    }

    /// Move the selection up within the current credential tab.
    pub fn credential_list_prev(&mut self)
        ensures
            credential_selected_prev(*old(self), *final(self)),
    {
        if self.credentials_tab == 0 {
            if self.endpoints.len() > 0 {
                self.selected_endpoint = if self.selected_endpoint == 0 {
                    self.endpoints.len() - 1
                } else {
                    self.selected_endpoint - 1
                };
            }
        } else if self.credentials_tab == 1 {
            let count = self.provider_count_for_category();
            if count > 0 {
                self.selected_provider_index = if self.selected_provider_index == 0 {
                    count - 1
                } else {
                    self.selected_provider_index - 1
                };
            }
        } else if self.credentials_tab == 2 {
            if self.permissions.len() > 0 {
                self.selected_permission = if self.selected_permission == 0 {
                    self.permissions.len() - 1
                } else {
                    self.selected_permission - 1
                };
            }
        }
    }

    /// Move the selection down within the current credential tab.
    pub fn credential_list_next(&mut self)
        requires
            can_select_credential_next(*old(self)),
        ensures
            credential_selected_next(*old(self), *final(self)),
    {
        if self.credentials_tab == 0 {
            if self.endpoints.len() > 0 {
                self.selected_endpoint = (self.selected_endpoint + 1) % self.endpoints.len();
            }
        } else if self.credentials_tab == 1 {
            let count = self.provider_count_for_category();
            if count > 0 {
                self.selected_provider_index = (self.selected_provider_index + 1) % count;
            }
        } else if self.credentials_tab == 2 {
            if self.permissions.len() > 0 {
                self.selected_permission = (self.selected_permission + 1) % self.permissions.len();
            }
        }
    }

    /// Go to the previous page of the menu (the menu cycles through the
    /// first six pages).
    pub fn menu_prev(&mut self)
        ensures
            menu_moved_prev(*old(self), *final(self)),
    {
        self.menu_index = if self.menu_index == 0 { 5 } else { self.menu_index - 1 };
        self.menu_item = MenuItem::from_index(self.menu_index);
    }

    /// Go to the next page of the menu.
    pub fn menu_next(&mut self)
        requires
            old(self).menu_index < usize::MAX,
        ensures
            menu_moved_next(*old(self), *final(self)),
    {
        self.menu_index = (self.menu_index + 1) % 6;
        self.menu_item = MenuItem::from_index(self.menu_index);
    }

    /// The context menu of the current page, its first entry selected,
    /// placed below the top bar.
    pub fn build_context_menu(&self) -> (m: ContextMenuState)
        ensures
            menu_entries(m.items@) == context_entries(self.menu_item),
            m.selected == 0,
            m.position == (2u16, 6u16),
    {
        let mut items: Vec<ContextMenuItem> = Vec::new();
        match self.menu_item {
            MenuItem::Agents => {
                items.push(menu_entry("Add Agent", 'a', ContextMenuAction::OpenAddAgent));
                items.push(menu_entry("Edit Agent", 'e', ContextMenuAction::OpenEditAgent));
                items.push(menu_entry("Delete Agent", 'd', ContextMenuAction::DeleteAgent));
                items.push(menu_entry("Context Files", 'f', ContextMenuAction::OpenContextFiles));
                items.push(menu_entry("Refresh", 'r', ContextMenuAction::RefreshPage));
            },
            MenuItem::Credentials => {
                items.push(menu_entry("Add Credential", 'a', ContextMenuAction::OpenAddCredential));
                items.push(menu_entry("Refresh", 'r', ContextMenuAction::RefreshPage));
            },
            MenuItem::Sessions => {
                items.push(menu_entry("New Session", 'n', ContextMenuAction::OpenCreateSession));
                items.push(menu_entry("Refresh", 'r', ContextMenuAction::RefreshPage));
            },
            MenuItem::CronJobs => {
                items.push(menu_entry("Trigger Job", 't', ContextMenuAction::TriggerCronJob));
                items.push(menu_entry("Refresh", 'r', ContextMenuAction::RefreshPage));
            },
            _ => {
                items.push(menu_entry("Refresh", 'r', ContextMenuAction::RefreshPage));
            },
        }
        assert(menu_entries(items@) =~= context_entries(self.menu_item));
        ContextMenuState { items, selected: 0, position: (2, 6) }
    }
}

} // verus!
