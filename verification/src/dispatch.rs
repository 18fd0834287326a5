//! What a normal-mode action does: moving in the pages and the card bar,
//! opening the overlays, and running the page actions.

use vstd::prelude::*;
use crate::actions::{
    add_done, chat_opened, delete_done, edit_done, gateway_control_done, init_vault_done, kill_done,
    lock_vault_done, new_session_opened, permission_action_done, refresh_done, session_selected, test_done,
    unlock_action_ok, unlock_done, view_done,
};
use crate::active_chat::active_chat_stepped;
use crate::app_state::{AppState, Message, updated};
use crate::chat_input::{scrolled_down, scrolled_up};
use crate::chat_state::ChatView;
use crate::effect::Effect;
use crate::keybindings::{KeybindingConfig, TuiAction, lookup_spec};
use crate::keys::{KeyCode, KeyEvent};
use crate::menu::{MenuItem, menu_at, menu_index};
use crate::modal_keys::fresh_browser;
use crate::modes::{CardDetailState, InputMode, ViewContextFilesState};
use crate::navigation::{
    can_select_credential_next, can_select_next, context_entries, credential_selected_next,
    credential_selected_prev, menu_entries, selected_next, selected_prev,
};
use crate::overlay_keys::credential_item_opened;
use crate::slots::{SlotBarView, SlottedCardBar, bar_cycled, next_wrap, prev_wrap};

verus! {

/// The cron job selection stepped back or forward round the jobs.
pub open spec fn cron_selection_stepped(b: AppState, a: AppState, forward: bool) -> bool {
    let n = b.cron_jobs@.len();
    if n > 0 {
        a == (AppState {
            selected_cron_job: (if forward {
                next_wrap(b.selected_cron_job as nat, n)
            } else {
                prev_wrap(b.selected_cron_job as nat, n)
            }) as usize,
            ..b
        })
    } else {
        a == b
    }
}

/// The card bar follows the selection: on Agents and Sessions the card of
/// the selected item (one right of the mode card, within the bar) becomes
/// active.
pub open spec fn slot_follows_selection(b: AppState, a: AppState) -> bool {
    let sel: Option<usize> = match b.menu_item {
        MenuItem::Agents => Some(b.selected_agent),
        MenuItem::Sessions => Some(b.selected_session),
        _ => None,
    };
    match sel {
        Some(i) => {
            let last: int = if b.slot_bar.slots@.len() > 0 { b.slot_bar.slots@.len() - 1 } else { 0 };
            a == (AppState {
                slot_bar: SlottedCardBar {
                    active_slot: (if i + 1 <= last { i + 1 } else { last }) as usize,
                    ..b.slot_bar
                },
                ..b
            })
        },
        None => a == b,
    }
}

/// The selection follows the card bar: on Agents and Sessions the item of
/// the active card (one left of it, within the list) is selected, a
/// selected session's chat following it.
pub open spec fn selection_follows_slot(b: AppState, a: AppState, r: Effect) -> bool {
    let idx: int = if b.slot_bar.active_slot > 0 { b.slot_bar.active_slot - 1 } else { 0 };
    match b.menu_item {
        MenuItem::Agents => r == Effect::Nothing && a == if b.agents@.len() > 0 {
            let last = b.agents@.len() - 1;
            AppState { selected_agent: (if idx <= last { idx } else { last }) as usize, ..b }
        } else {
            b
        },
        MenuItem::Sessions => if b.sessions@.len() > 0 {
            let last = b.sessions@.len() - 1;
            session_selected(AppState { selected_session: (if idx <= last { idx } else { last }) as usize, ..b }, a, r)
        } else {
            r == Effect::Nothing && a == b
        },
        _ => r == Effect::Nothing && a == b,
    }
}

/// The selection moved back or forward in the current page.
pub open spec fn selection_moved(b: AppState, a: AppState, forward: bool) -> bool {
    if forward {
        selected_next(b, a)
    } else {
        selected_prev(b, a)
    }
}

/// Left or Right in a page: the selection moves, the card bar follows it,
/// and a selected session's chat follows too.
pub open spec fn nav_side_done(b: AppState, a: AppState, r: Effect, forward: bool) -> bool {
    exists|m1: AppState, m2: AppState|
        #![trigger selection_moved(b, m1, forward), slot_follows_selection(m1, m2)]
        selection_moved(b, m1, forward) && slot_follows_selection(m1, m2) && if m2.menu_item == MenuItem::Sessions {
            session_selected(m2, a, r)
        } else {
            r == Effect::Nothing && a == m2
        }
}

/// The active card moved left or right within the bar.
pub open spec fn card_moved(b: AppState, a: AppState, right: bool) -> bool {
    let s = b.slot_bar@.active_slot;
    &&& a == (AppState { slot_bar: a.slot_bar, ..b })
    &&& a.slot_bar@ == (SlotBarView {
        active_slot: if right {
            if s + 1 < b.slot_bar@.slots.len() { s + 1 } else { s }
        } else {
            if s > 0 { (s - 1) as nat } else { 0 }
        },
        ..b.slot_bar@
    })
}

/// Alt+Left or Alt+Right: the active card moves and the selection follows
/// it.
pub open spec fn card_side_done(b: AppState, a: AppState, r: Effect, right: bool) -> bool {
    exists|m: AppState| #[trigger] card_moved(b, m, right) && selection_follows_slot(m, a, r)
}

/// Alt+Up or Alt+Down: the card bar cycles, and the page is the bar's mode.
pub open spec fn card_cycled(b: AppState, a: AppState, down: bool) -> bool {
    &&& a == (AppState { slot_bar: a.slot_bar, menu_item: a.menu_item, menu_index: a.menu_index, ..b })
    &&& bar_cycled(b.slot_bar@, a.slot_bar@, b.agents@, b.sessions@, down)
    &&& a.menu_item == menu_at(a.slot_bar@.mode)
    &&& a.menu_index == menu_index(a.menu_item)
}

/// The page of a section number from 1 to 4.
pub open spec fn section_item(n: u8) -> MenuItem {
    if n == 1 {
        MenuItem::Dashboard
    } else if n == 2 {
        MenuItem::Agents
    } else if n == 3 {
        MenuItem::Sessions
    } else {
        MenuItem::CronJobs
    }
}

/// A jump to section `n`: 1 to 4 go to Dashboard, Agents, Sessions and
/// Cron Jobs; 5, 6 and 7 open the cron, vault and models overlays.
pub open spec fn jumped(b: AppState, a: AppState, n: u8) -> bool {
    if 1 <= n <= 4 {
        updated(b, a, Message::Navigate(section_item(n)))
    } else if n == 5 {
        a == (AppState { input_mode: InputMode::CronOverlay { scroll: 0 }, ..b })
    } else if n == 6 {
        a == (AppState { input_mode: InputMode::VaultOverlay, ..b })
    } else if n == 7 {
        a == (AppState { input_mode: InputMode::ModelsOverlay { provider_index: 0, scroll: 0 }, ..b })
    } else {
        a == b
    }
}

/// Enter in a page: on Credentials the selected item opens; on Models
/// (with providers) the selected provider's model list.
pub open spec fn entered(b: AppState, a: AppState) -> bool {
    match b.menu_item {
        MenuItem::Credentials => credential_item_opened(b, a),
        MenuItem::Models => if b.providers@.len() > 0 {
            a == (AppState {
                input_mode: InputMode::ViewModelList { provider_index: b.selected_provider, scroll: 0 },
                ..b
            })
        } else {
            a == b
        },
        _ => a == b,
    }
}

/// The context-file browser opened for the selected agent, on Agents.
pub open spec fn context_files_opened(b: AppState, a: AppState, r: Effect) -> bool {
    if b.menu_item == MenuItem::Agents && b.selected_agent < b.agents@.len() {
        let id = b.agents@[b.selected_agent as int].id@;
        &&& a == (AppState { input_mode: a.input_mode, ..b })
        &&& a.input_mode matches InputMode::ViewContextFiles(v) && fresh_browser(v, id)
        &&& r matches Effect::FetchContextFiles(k) && k@ == id
    } else {
        r == Effect::Nothing && a == b
    }
}

/// The vault overlay's tab stepped back or forward round the four.
pub open spec fn tab_stepped(b: AppState, a: AppState, forward: bool) -> bool {
    if b.input_mode == InputMode::VaultOverlay {
        a == (AppState {
            credentials_tab: (if forward {
                next_wrap(b.credentials_tab as nat, 4)
            } else {
                prev_wrap(b.credentials_tab as nat, 4)
            }) as usize,
            ..b
        })
    } else {
        a == b
    }
}

/// The chat of the selected session changed by `step`, on Sessions.
pub open spec fn session_chat_stepped(b: AppState, a: AppState, step: spec_fn(ChatView, ChatView) -> bool) -> bool {
    if b.menu_item == MenuItem::Sessions {
        active_chat_stepped(b, a, step)
    } else {
        a == b
    }
}

/// The state and action after a normal-mode action.
pub open spec fn dispatched(b: AppState, a: AppState, action: TuiAction, r: Effect) -> bool {
    let nothing = r == Effect::Nothing;
    match action {
        TuiAction::Quit => nothing && a == (AppState { should_exit: true, ..b }),
        TuiAction::NavUp => nothing && match b.menu_item {
            MenuItem::Credentials => credential_selected_prev(b, a),
            MenuItem::Sessions => active_chat_stepped(b, a, |pv: ChatView, av: ChatView| scrolled_up(pv, av, 1)),
            MenuItem::CronJobs => cron_selection_stepped(b, a, false),
            _ => a == b,
        },
        TuiAction::NavDown => nothing && match b.menu_item {
            MenuItem::Credentials => credential_selected_next(b, a),
            MenuItem::Sessions => active_chat_stepped(b, a, |pv: ChatView, av: ChatView| scrolled_down(pv, av, 1)),
            MenuItem::CronJobs => cron_selection_stepped(b, a, true),
            _ => a == b,
        },
        TuiAction::NavLeft => nav_side_done(b, a, r, false),
        TuiAction::NavRight => nav_side_done(b, a, r, true),
        TuiAction::Enter => nothing && entered(b, a),
        TuiAction::Escape => nothing && a == b,
        TuiAction::CardLeft => card_side_done(b, a, r, false),
        TuiAction::CardRight => card_side_done(b, a, r, true),
        TuiAction::CardUp => nothing && card_cycled(b, a, false),
        TuiAction::CardDown => nothing && card_cycled(b, a, true),
        TuiAction::CardActivate => nothing && if b.slot_bar.active_slot > 0 {
            a == (AppState {
                input_mode: InputMode::CardDetail(
                    CardDetailState { mode: b.menu_item, slot_index: b.slot_bar.active_slot, scroll: 0 },
                ),
                ..b
            })
        } else {
            a == b
        },
        TuiAction::JumpToSection(n) => nothing && jumped(b, a, n),
        TuiAction::PrevTab => nothing && tab_stepped(b, a, false),
        TuiAction::NextTab => nothing && tab_stepped(b, a, true),
        TuiAction::ScrollUp => nothing && session_chat_stepped(
            b,
            a,
            |pv: ChatView, av: ChatView| scrolled_up(pv, av, 10),
        ),
        TuiAction::ScrollDown => nothing && session_chat_stepped(
            b,
            a,
            |pv: ChatView, av: ChatView| scrolled_down(pv, av, 10),
        ),
        TuiAction::ScrollEnd => nothing && session_chat_stepped(
            b,
            a,
            |pv: ChatView, av: ChatView| av == (ChatView { auto_scroll: true, ..pv }),
        ),
        TuiAction::Add => nothing && add_done(b, a),
        TuiAction::Delete => nothing && delete_done(b, a),
        TuiAction::Refresh => refresh_done(b, a, r),
        TuiAction::InitVault => nothing && init_vault_done(b, a),
        TuiAction::UnlockVault => unlock_done(b, a, r),
        TuiAction::LockVault => nothing && lock_vault_done(b, a),
        TuiAction::Chat => nothing && chat_opened(b, a),
        TuiAction::NewSession => nothing && if b.menu_item == MenuItem::Sessions {
            new_session_opened(b, a)
        } else {
            a == b
        },
        TuiAction::Edit => edit_done(b, a, r),
        TuiAction::ContextFiles => context_files_opened(b, a, r),
        TuiAction::Permissions => nothing && permission_action_done(b, a),
        TuiAction::Kill => nothing && kill_done(b, a),
        TuiAction::View => view_done(b, a, r),
        TuiAction::TestAction => test_done(b, a, r),
        TuiAction::StartGateway => gateway_control_done(b, a, true, r),
        TuiAction::StopGateway => gateway_control_done(b, a, false, r),
        TuiAction::OpenContextMenu => {
            &&& nothing
            &&& a == (AppState { input_mode: a.input_mode, ..b })
            &&& a.input_mode matches InputMode::ContextMenu(m) && menu_entries(m.items@) == context_entries(
                b.menu_item,
            ) && m.selected == 0 && m.position == (2u16, 6u16)
        },
        TuiAction::OpenVault => nothing && a == (AppState { input_mode: InputMode::VaultOverlay, ..b }),
        TuiAction::OpenSettings => r == Effect::SyncSettingsPicker && a == (AppState {
            input_mode: InputMode::SettingsOverlay,
            ..b
        }),
        TuiAction::OpenModels => nothing && a == (AppState {
            input_mode: InputMode::ModelsOverlay { provider_index: 0, scroll: 0 },
            ..b
        }),
        TuiAction::OpenCron => nothing && a == (AppState { input_mode: InputMode::CronOverlay { scroll: 0 }, ..b }),
    }
}

/// What an action needs of the state: counters below the largest index,
/// and the card bar's mode among the seven when cycling from the mode card.
pub open spec fn dispatch_ok(b: AppState, action: TuiAction) -> bool {
    &&& b.wf()
    &&& match action {
        TuiAction::NavDown => (b.menu_item == MenuItem::Credentials ==> can_select_credential_next(b)) && (
        b.menu_item == MenuItem::CronJobs ==> b.selected_cron_job < usize::MAX),
        TuiAction::NavRight => can_select_next(b),
        TuiAction::CardRight => b.slot_bar.active_slot < usize::MAX,
        TuiAction::CardUp => b.slot_bar.active_slot == 0 ==> b.slot_bar.mode <= 7,
        TuiAction::CardDown => (b.slot_bar.active_slot == 0 ==> b.slot_bar.mode < usize::MAX) && (
        b.slot_bar.active_slot != 0 && b.slot_bar.active_slot < b.slot_bar.slots@.len()
            ==> b.slot_bar.slots@[b.slot_bar.active_slot as int].active_view < usize::MAX),
        TuiAction::NextTab => b.input_mode is VaultOverlay ==> b.credentials_tab < usize::MAX,
        TuiAction::UnlockVault => unlock_action_ok(b),
        _ => true,
    }
}

impl AppState {
    /// The card bar follows the selection.
    fn sync_slot_bar_from_selection(&mut self)
        ensures
            slot_follows_selection(*old(self), *final(self)),
    {
        let idx = match self.menu_item {
            MenuItem::Agents => self.selected_agent,
            MenuItem::Sessions => self.selected_session,
            _ => {
                return;
            },
        };
        let slot = if idx < usize::MAX { idx + 1 } else { idx };
        let last = if self.slot_bar.slots.len() > 0 { self.slot_bar.slots.len() - 1 } else { 0 };
        self.slot_bar.active_slot = if slot <= last { slot } else { last };
    }

    /// The selection follows the card bar.
    fn sync_selection_from_slot_bar(&mut self) -> (r: Effect)
        requires
            old(self).wf(),
        ensures
            selection_follows_slot(*old(self), *final(self), r),
    {
        let idx = if self.slot_bar.active_slot > 0 { self.slot_bar.active_slot - 1 } else { 0 };
        match self.menu_item {
            MenuItem::Agents => {
                if self.agents.len() > 0 {
                    let last = self.agents.len() - 1;
                    self.selected_agent = if idx <= last { idx } else { last };
                }
                Effect::Nothing
            },
            MenuItem::Sessions => {
                if self.sessions.len() > 0 {
                    let last = self.sessions.len() - 1;
                    self.selected_session = if idx <= last { idx } else { last };
                    self.session_selection_changed()
                } else {
                    Effect::Nothing
                }
            },
            _ => Effect::Nothing,
        }
    }

    /// Left or Right in a page.
    fn nav_side(&mut self, forward: bool) -> (r: Effect)
        requires
            old(self).wf(),
            forward ==> can_select_next(*old(self)),
        ensures
            final(self).wf(),
            nav_side_done(*old(self), *final(self), r, forward),
    {
        if forward {
            self.select_next();
        } else {
            self.select_prev();
        }
        let ghost m1 = *self;
        self.sync_slot_bar_from_selection();
        let ghost m2 = *self;
        let r = if self.menu_item == MenuItem::Sessions {
            self.session_selection_changed()
        } else {
            Effect::Nothing
        };
        assert(selection_moved(*old(self), m1, forward) && slot_follows_selection(m1, m2));
        r
    }

    /// Alt+Left or Alt+Right.
    fn card_side(&mut self, right: bool) -> (r: Effect)
        requires
            old(self).wf(),
            right ==> old(self).slot_bar.active_slot < usize::MAX,
        ensures
            final(self).wf(),
            card_side_done(*old(self), *final(self), r, right),
    {
        assert(self.slot_bar.slots@.len() == self.slot_bar@.slots.len());
        if right {
            self.slot_bar.select_right();
        } else {
            self.slot_bar.select_left();
        }
        assert(self.slot_bar.slots@.len() == self.slot_bar@.slots.len());
        let ghost m = *self;
        assert(card_moved(*old(self), m, right));
        self.sync_selection_from_slot_bar()
    }

    /// Alt+Up or Alt+Down.
    fn card_cycle(&mut self, down: bool)
        requires
            old(self).wf(),
            down ==> (old(self).slot_bar.active_slot == 0 ==> old(self).slot_bar.mode < usize::MAX),
            down ==> (old(self).slot_bar.active_slot != 0 && old(self).slot_bar.active_slot
                < old(self).slot_bar.slots@.len() ==> old(self).slot_bar.slots@[old(self).slot_bar.active_slot as int].active_view
                < usize::MAX),
            !down ==> (old(self).slot_bar.active_slot == 0 ==> old(self).slot_bar.mode <= 7),
        ensures
            card_cycled(*old(self), *final(self), down),
    {
        if down {
            self.slot_bar.cycle_down(&self.agents, &self.sessions);
        } else {
            self.slot_bar.cycle_up(&self.agents, &self.sessions);
        }
        let mode = self.slot_bar.current_mode();
        self.menu_item = mode;
        self.menu_index = mode.index();
    }
}

/// The state and action after a key in normal mode: `{` and `}` step the
/// vault overlay's tab; other keys run the action bound to them, if any.
pub open spec fn normal_keyed(b: AppState, a: AppState, key: KeyEvent, kb: KeybindingConfig, r: Effect) -> bool {
    if key.code == KeyCode::Char('{') {
        r == Effect::Nothing && tab_stepped(b, a, false)
    } else if key.code == KeyCode::Char('}') {
        r == Effect::Nothing && tab_stepped(b, a, true)
    } else {
        match lookup_spec(kb, "normal"@, key) {
            Some(action) => dispatched(b, a, action, r),
            None => r == Effect::Nothing && a == b,
        }
    }
}

/// What a normal-mode key needs of the state.
pub open spec fn normal_key_ok(b: AppState, key: KeyEvent, kb: KeybindingConfig) -> bool {
    &&& b.wf()
    &&& key.code == KeyCode::Char('}') && b.input_mode is VaultOverlay ==> b.credentials_tab < usize::MAX
    &&& lookup_spec(kb, "normal"@, key) matches Some(action) ==> dispatch_ok(b, action)
}

/// Actions that move within a page.
pub open spec fn is_move_action(action: TuiAction) -> bool {
    match action {
        TuiAction::Quit | TuiAction::NavUp | TuiAction::NavDown | TuiAction::NavLeft | TuiAction::NavRight
        | TuiAction::Enter | TuiAction::Escape | TuiAction::PrevTab | TuiAction::NextTab | TuiAction::ScrollUp
        | TuiAction::ScrollDown | TuiAction::ScrollEnd => true,
        _ => false,
    }
}

/// Actions of the card bar.
pub open spec fn is_card_bar_action(action: TuiAction) -> bool {
    match action {
        TuiAction::CardLeft | TuiAction::CardRight | TuiAction::CardUp | TuiAction::CardDown
        | TuiAction::CardActivate | TuiAction::JumpToSection(_) => true,
        _ => false,
    }
}

/// Actions that open the context menu or an overlay.
pub open spec fn is_open_action(action: TuiAction) -> bool {
    match action {
        TuiAction::OpenContextMenu | TuiAction::OpenVault | TuiAction::OpenSettings | TuiAction::OpenModels
        | TuiAction::OpenCron => true,
        _ => false,
    }
}

impl AppState {
    fn dispatch_move(&mut self, action: TuiAction) -> (r: Effect)
        requires
            dispatch_ok(*old(self), action),
            is_move_action(action),
        ensures
            dispatched(*old(self), *final(self), action, r),
    {
        match action {
            TuiAction::Quit => {
                self.should_exit = true;
                Effect::Nothing
            },
            TuiAction::NavUp => {
                match self.menu_item {
                    MenuItem::Credentials => self.credential_list_prev(),
                    MenuItem::Sessions => self.scroll_active_up(1),
                    MenuItem::CronJobs => {
                        if self.cron_jobs.len() > 0 {
                            self.selected_cron_job = if self.selected_cron_job == 0 {
                                self.cron_jobs.len() - 1
                            } else {
                                self.selected_cron_job - 1
                            };
                        }
                    },
                    _ => {},
                }
                Effect::Nothing
            },
            TuiAction::NavDown => {
                match self.menu_item {
                    MenuItem::Credentials => self.credential_list_next(),
                    MenuItem::Sessions => self.scroll_active_down(1),
                    MenuItem::CronJobs => {
                        if self.cron_jobs.len() > 0 {
                            self.selected_cron_job = (self.selected_cron_job + 1) % self.cron_jobs.len();
                        }
                    },
                    _ => {},
                }
                Effect::Nothing
            },
            TuiAction::NavLeft => self.nav_side(false),
            TuiAction::NavRight => self.nav_side(true),
            TuiAction::Enter => {
                match self.menu_item {
                    MenuItem::Credentials => self.open_credential_item(),
                    MenuItem::Models => {
                        if self.providers.len() > 0 {
                            self.input_mode = InputMode::ViewModelList { provider_index: self.selected_provider, scroll: 0 };
                        }
                    },
                    _ => {},
                }
                Effect::Nothing
            },
            TuiAction::PrevTab => {
                if let InputMode::VaultOverlay = self.input_mode {
                    self.credentials_tab = if self.credentials_tab == 0 { 3 } else { self.credentials_tab - 1 };
                }
                Effect::Nothing
            },
            TuiAction::NextTab => {
                if let InputMode::VaultOverlay = self.input_mode {
                    self.credentials_tab = (self.credentials_tab + 1) % 4;
                }
                Effect::Nothing
            },
            TuiAction::ScrollUp => {
                if self.menu_item == MenuItem::Sessions {
                    self.scroll_active_up(10);
                }
                Effect::Nothing
            },
            TuiAction::ScrollDown => {
                if self.menu_item == MenuItem::Sessions {
                    self.scroll_active_down(10);
                }
                Effect::Nothing
            },
            TuiAction::ScrollEnd => {
                if self.menu_item == MenuItem::Sessions {
                    self.scroll_active_end();
                }
                Effect::Nothing
            },
            _ => Effect::Nothing,
        }
    }

    fn dispatch_card(&mut self, action: TuiAction) -> (r: Effect)
        requires
            dispatch_ok(*old(self), action),
            is_card_bar_action(action),
        ensures
            dispatched(*old(self), *final(self), action, r),
    {
        match action {
            TuiAction::CardLeft => self.card_side(false),
            TuiAction::CardRight => self.card_side(true),
            TuiAction::CardUp => {
                self.card_cycle(false);
                Effect::Nothing
            },
            TuiAction::CardDown => {
                self.card_cycle(true);
                Effect::Nothing
            },
            TuiAction::CardActivate => {
                if self.slot_bar.active_slot > 0 {
                    self.input_mode = InputMode::CardDetail(
                        CardDetailState { mode: self.menu_item, slot_index: self.slot_bar.active_slot, scroll: 0 },
                    );
                }
                Effect::Nothing
            },
            TuiAction::JumpToSection(n) => {
                if 1 <= n && n <= 4 {
                    let item = if n == 1 {
                        MenuItem::Dashboard
                    } else if n == 2 {
                        MenuItem::Agents
                    } else if n == 3 {
                        MenuItem::Sessions
                    } else {
                        MenuItem::CronJobs
                    };
                    self.navigate(item);
                } else if n == 5 {
                    self.input_mode = InputMode::CronOverlay { scroll: 0 };
                } else if n == 6 {
                    self.input_mode = InputMode::VaultOverlay;
                } else if n == 7 {
                    self.input_mode = InputMode::ModelsOverlay { provider_index: 0, scroll: 0 };
                }
                Effect::Nothing
            },
            _ => Effect::Nothing,
        }
    }

    fn dispatch_open(&mut self, action: TuiAction) -> (r: Effect)
        requires
            is_open_action(action),
        ensures
            dispatched(*old(self), *final(self), action, r),
    {
        match action {
            TuiAction::OpenContextMenu => {
                let menu = self.build_context_menu();
                self.input_mode = InputMode::ContextMenu(menu);
                Effect::Nothing
            },
            TuiAction::OpenVault => {
                self.input_mode = InputMode::VaultOverlay;
                Effect::Nothing
            },
            TuiAction::OpenSettings => {
                self.input_mode = InputMode::SettingsOverlay;
                Effect::SyncSettingsPicker
            },
            TuiAction::OpenModels => {
                self.input_mode = InputMode::ModelsOverlay { provider_index: 0, scroll: 0 };
                Effect::Nothing
            },
            _ => {
                self.input_mode = InputMode::CronOverlay { scroll: 0 };
                Effect::Nothing
            },
        }
    }

    fn dispatch_page(&mut self, action: TuiAction) -> (r: Effect)
        requires
            dispatch_ok(*old(self), action),
            !is_move_action(action),
            !is_card_bar_action(action),
            !is_open_action(action),
        ensures
            dispatched(*old(self), *final(self), action, r),
    {
        match action {
            TuiAction::Add => {
                self.add_action();
                Effect::Nothing
            },
            TuiAction::Delete => {
                self.delete_action();
                Effect::Nothing
            },
            TuiAction::Refresh => self.refresh_action(),
            TuiAction::InitVault => {
                self.init_vault_action();
                Effect::Nothing
            },
            TuiAction::UnlockVault => self.unlock_action(),
            TuiAction::LockVault => {
                self.lock_vault_action();
                Effect::Nothing
            },
            TuiAction::Chat => {
                self.chat_action();
                Effect::Nothing
            },
            TuiAction::NewSession => {
                if self.menu_item == MenuItem::Sessions {
                    self.new_session_action();
                }
                Effect::Nothing
            },
            TuiAction::Edit => self.edit_action(),
            TuiAction::ContextFiles => {
                if self.menu_item == MenuItem::Agents && self.selected_agent < self.agents.len() {
                    let id = self.agents[self.selected_agent].id.clone();
                    self.input_mode = InputMode::ViewContextFiles(
                        ViewContextFilesState { agent_id: id.clone(), files: Vec::new(), selected: 0, loading: true },
                    );
                    Effect::FetchContextFiles(id)
                } else {
                    Effect::Nothing
                }
            },
            TuiAction::Permissions => {
                self.permission_action();
                Effect::Nothing
            },
            TuiAction::Kill => {
                self.kill_action();
                Effect::Nothing
            },
            TuiAction::View => self.view_action(),
            TuiAction::TestAction => self.test_action(),
            TuiAction::StartGateway => self.start_action(),
            _ => self.stop_action(),
        }
    }

    /// Handle a key in normal mode.
    pub fn normal_mode_key(&mut self, key: KeyEvent, keybindings: &KeybindingConfig) -> (r: Effect)
        requires
            normal_key_ok(*old(self), key, *keybindings),
        ensures
            normal_keyed(*old(self), *final(self), key, *keybindings, r),
    {
        if key.code == KeyCode::Char('{') {
            return self.dispatch_move(TuiAction::PrevTab);
        }
        if key.code == KeyCode::Char('}') {
            return self.dispatch_move(TuiAction::NextTab);
        }
        match keybindings.lookup("normal", &key) {
            Some(action) => self.dispatch(action),
            None => Effect::Nothing,
        }
    }

    /// Run a normal-mode action.
    pub fn dispatch(&mut self, action: TuiAction) -> (r: Effect)
        requires
            dispatch_ok(*old(self), action),
        ensures
            dispatched(*old(self), *final(self), action, r),
    {
        if is_move(action) {
            self.dispatch_move(action)
        } else if is_card_bar(action) {
            self.dispatch_card(action)
        } else if is_open(action) {
            self.dispatch_open(action)
        } else {
            self.dispatch_page(action)
        }
    }
}

fn is_move(action: TuiAction) -> (r: bool)
    ensures
        r == is_move_action(action),
{
    match action {
        TuiAction::Quit | TuiAction::NavUp | TuiAction::NavDown | TuiAction::NavLeft | TuiAction::NavRight
        | TuiAction::Enter | TuiAction::Escape | TuiAction::PrevTab | TuiAction::NextTab | TuiAction::ScrollUp
        | TuiAction::ScrollDown | TuiAction::ScrollEnd => true,
        _ => false,
    }
}

fn is_card_bar(action: TuiAction) -> (r: bool)
    ensures
        r == is_card_bar_action(action),
{
    match action {
        TuiAction::CardLeft | TuiAction::CardRight | TuiAction::CardUp | TuiAction::CardDown
        | TuiAction::CardActivate | TuiAction::JumpToSection(_) => true,
        _ => false,
    }
}

fn is_open(action: TuiAction) -> (r: bool)
    ensures
        r == is_open_action(action),
{
    match action {
        TuiAction::OpenContextMenu | TuiAction::OpenVault | TuiAction::OpenSettings | TuiAction::OpenModels
        | TuiAction::OpenCron => true,
        _ => false,
    }
}

} // verus!
