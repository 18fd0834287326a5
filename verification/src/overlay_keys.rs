//! Keys in the vault, cron and models overlays.

use vstd::prelude::*;
use crate::actions::{
    gateway_control_done, add_done, delete_done, edit_done, init_vault_done, lock_vault_done, permission_action_done, refresh_done,
    test_done, unlock_action_ok, unlock_done,
};
use crate::app_state::AppState;
use crate::effect::Effect;
use crate::keys::{KeyCode, KeyEvent};
use crate::modes::InputMode;
use crate::navigation::{
    can_select_credential_next, credential_selected_next, credential_selected_prev,
};

verus! {

broadcast use vstd::string::group_string_axioms;

/// The detail view of the selected item on the current credentials tab:
/// an endpoint (when there are any), a provider, or a permission rule
/// (when there are any). Otherwise nothing changes.
pub open spec fn credential_item_opened(b: AppState, a: AppState) -> bool {
    if b.credentials_tab == 0 && b.endpoints@.len() > 0 {
        a == (AppState { input_mode: InputMode::ViewEndpoint { endpoint_index: b.selected_endpoint }, ..b })
    } else if b.credentials_tab == 1 {
        a == (AppState {
            input_mode: InputMode::ViewProvider { provider_index: b.selected_provider_index },
            ..b
        })
    } else if b.credentials_tab == 2 && b.permissions@.len() > 0 {
        a == (AppState {
            input_mode: InputMode::ViewPermission { permission_index: b.selected_permission },
            ..b
        })
    } else {
        a == b
    }
}

/// The state and action after a key in the vault overlay: Esc closes it;
/// Tab and `1` to `4` pick the tab; Up/`k` and Down/`j` move in the tab's
/// list; Enter opens the selected item; `a`, `d`, `i`, `u`, `l` and `p`
/// add, delete, create the vault, unlock, lock and edit permissions.
/// Other keys change nothing.
pub open spec fn vault_overlay_keyed(b: AppState, a: AppState, key: KeyEvent, r: Effect) -> bool {
    let code = key.code;
    if code == KeyCode::Esc {
        r == Effect::Nothing && a == (AppState { input_mode: InputMode::Normal, ..b })
    } else if code == KeyCode::Tab {
        r == Effect::Nothing && a == (AppState { credentials_tab: ((b.credentials_tab + 1) % 4) as usize, ..b })
    } else if code is Char && '1' <= code->Char_0 <= '4' {
        r == Effect::Nothing && a == (AppState {
            credentials_tab: ((code->Char_0 as u32) - ('1' as u32)) as usize,
            ..b
        })
    } else if code == KeyCode::Up || code == KeyCode::Char('k') {
        r == Effect::Nothing && credential_selected_prev(b, a)
    } else if code == KeyCode::Down || code == KeyCode::Char('j') {
        r == Effect::Nothing && credential_selected_next(b, a)
    } else if code == KeyCode::Enter {
        r == Effect::Nothing && credential_item_opened(b, a)
    } else if code == KeyCode::Char('a') {
        r == Effect::Nothing && add_done(b, a)
    } else if code == KeyCode::Char('d') {
        r == Effect::Nothing && delete_done(b, a)
    } else if code == KeyCode::Char('i') {
        r == Effect::Nothing && init_vault_done(b, a)
    } else if code == KeyCode::Char('u') {
        unlock_done(b, a, r)
    } else if code == KeyCode::Char('l') {
        r == Effect::Nothing && lock_vault_done(b, a)
    } else if code == KeyCode::Char('p') {
        r == Effect::Nothing && permission_action_done(b, a)
    } else {
        r == Effect::Nothing && a == b
    }
}

/// What the vault overlay needs to take the key.
pub open spec fn vault_overlay_key_ok(b: AppState, key: KeyEvent) -> bool {
    &&& key.code == KeyCode::Tab ==> b.credentials_tab < usize::MAX
    &&& (key.code == KeyCode::Down || key.code == KeyCode::Char('j')) ==> can_select_credential_next(b)
    &&& key.code == KeyCode::Char('u') ==> unlock_action_ok(b)
}

/// Whether a key runs a page action in the cron overlay.
pub open spec fn is_cron_letter(key: KeyEvent) -> bool {
    key.code == KeyCode::Char('e') || key.code == KeyCode::Char('d') || key.code == KeyCode::Char('t')
        || key.code == KeyCode::Char('r')
}

/// The cron overlay after a key that moves in it: Tab steps round its
/// three cards; Up/`k` and Down/`j` move round the jobs and scroll; other
/// keys leave it as it is.
pub open spec fn cron_moved(b: AppState, a: AppState, key: KeyEvent, scroll: usize) -> bool {
    let code = key.code;
    let n = b.cron_jobs@.len();
    if code == KeyCode::Tab {
        a == (AppState {
            selected_cron_card: ((b.selected_cron_card + 1) % 3) as usize,
            input_mode: InputMode::CronOverlay { scroll },
            ..b
        })
    } else if code == KeyCode::Up || code == KeyCode::Char('k') {
        a == (AppState {
            selected_cron_job: if n == 0 {
                b.selected_cron_job
            } else if b.selected_cron_job == 0 {
                (n - 1) as usize
            } else {
                (b.selected_cron_job - 1) as usize
            },
            input_mode: InputMode::CronOverlay { scroll: if scroll > 0 { (scroll - 1) as usize } else { 0 } },
            ..b
        })
    } else if code == KeyCode::Down || code == KeyCode::Char('j') {
        a == (AppState {
            selected_cron_job: if n == 0 { b.selected_cron_job } else { ((b.selected_cron_job + 1) % (n as int)) as usize },
            input_mode: InputMode::CronOverlay {
                scroll: if scroll < usize::MAX { (scroll + 1) as usize } else { scroll },
            },
            ..b
        })
    } else {
        a == (AppState { input_mode: InputMode::CronOverlay { scroll }, ..b })
    }
}

/// The state and action after a key in the cron overlay: Esc closes it;
/// `e`, `d`, `t` and `r` switch the selected job on or off, delete it, run
/// it and reload, the overlay staying open; other keys move in it.
pub open spec fn cron_overlay_keyed(b: AppState, a: AppState, key: KeyEvent, scroll: usize, r: Effect) -> bool {
    if key.code == KeyCode::Esc {
        r == Effect::Nothing && a == (AppState { input_mode: InputMode::Normal, ..b })
    } else if is_cron_letter(key) {
        &&& a.input_mode == InputMode::CronOverlay { scroll }
        &&& exists|m: InputMode| #[trigger] cron_action_done(b, AppState { input_mode: m, ..a }, key, r)
    } else {
        r == Effect::Nothing && cron_moved(b, a, key, scroll)
    }
}

/// The page action a letter runs in the cron overlay.
#[verifier::opaque]
pub open spec fn cron_action_done(b: AppState, m: AppState, key: KeyEvent, r: Effect) -> bool {
    if key.code == KeyCode::Char('e') {
        edit_done(b, m, r)
    } else if key.code == KeyCode::Char('d') {
        r == Effect::Nothing && delete_done(b, m)
    } else if key.code == KeyCode::Char('t') {
        test_done(b, m, r)
    } else {
        refresh_done(b, m, r)
    }
}

/// The state and action after a key in the models overlay: Esc closes it;
/// Left/`h` and Right/`l` move between providers, Up/`k` and Down/`j`
/// scroll; with providers, Enter opens the provider's model list and `e`
/// its form. The overlay otherwise stays open where it is.
pub open spec fn models_overlay_keyed(
    b: AppState,
    a: AppState,
    key: KeyEvent,
    index: usize,
    scroll: usize,
    r: Effect,
) -> bool {
    let code = key.code;
    let n = b.providers@.len();
    let stays = |i: nat, s: nat| r == Effect::Nothing && a == (AppState {
        input_mode: InputMode::ModelsOverlay { provider_index: i as usize, scroll: s as usize },
        ..b
    });
    if code == KeyCode::Esc {
        r == Effect::Nothing && a == (AppState { input_mode: InputMode::Normal, ..b })
    } else if code == KeyCode::Left || code == KeyCode::Char('h') {
        stays(if index > 0 { (index - 1) as nat } else { 0 }, scroll as nat)
    } else if code == KeyCode::Right || code == KeyCode::Char('l') {
        stays(
            if n > 0 {
                if index + 1 <= n - 1 { (index + 1) as nat } else { (n - 1) as nat }
            } else {
                index as nat
            },
            scroll as nat,
        )
    } else if code == KeyCode::Up || code == KeyCode::Char('k') {
        stays(index as nat, if scroll > 0 { (scroll - 1) as nat } else { 0 })
    } else if code == KeyCode::Down || code == KeyCode::Char('j') {
        stays(index as nat, if scroll < usize::MAX { (scroll + 1) as nat } else { scroll as nat })
    } else if code == KeyCode::Enter && n > 0 {
        r == Effect::Nothing && a == (AppState {
            input_mode: InputMode::ViewModelList { provider_index: index, scroll: 0 },
            ..b
        })
    } else if code == KeyCode::Char('e') && n > 0 {
        edit_done(AppState { selected_provider: index, ..b }, a, r)
    } else {
        stays(index as nat, scroll as nat)
    }
}

fn is_cron_letter_key(key: &KeyEvent) -> (r: bool)
    ensures
        r == is_cron_letter(*key),
{
    match key.code {
        KeyCode::Char('e') | KeyCode::Char('d') | KeyCode::Char('t') | KeyCode::Char('r') => true,
        _ => false,
    }
}

impl AppState {
    /// Open the detail view of the selected item on the credentials tab.
    pub fn open_credential_item(&mut self)
        ensures
            credential_item_opened(*old(self), *final(self)),
    {
        if self.credentials_tab == 0 && self.endpoints.len() > 0 {
            self.input_mode = InputMode::ViewEndpoint { endpoint_index: self.selected_endpoint };
        } else if self.credentials_tab == 1 {
            self.input_mode = InputMode::ViewProvider { provider_index: self.selected_provider_index };
        } else if self.credentials_tab == 2 && self.permissions.len() > 0 {
            self.input_mode = InputMode::ViewPermission { permission_index: self.selected_permission };
        }
    }

    /// Handle a key in the vault overlay.
    pub fn vault_overlay_key(&mut self, key: KeyEvent) -> (r: Effect)
        requires
            vault_overlay_key_ok(*old(self), key),
        ensures
            vault_overlay_keyed(*old(self), *final(self), key, r),
    {
        match key.code {
            KeyCode::Esc => {
                self.input_mode = InputMode::Normal;
                Effect::Nothing
            },
            KeyCode::Tab => {
                self.credentials_tab = (self.credentials_tab + 1) % 4;
                Effect::Nothing
            },
            KeyCode::Char(c) if '1' <= c && c <= '4' => {
                self.credentials_tab = ((c as u32) - ('1' as u32)) as usize;
                Effect::Nothing
            },
            KeyCode::Up | KeyCode::Char('k') => {
                self.credential_list_prev();
                Effect::Nothing
            },
            KeyCode::Down | KeyCode::Char('j') => {
                self.credential_list_next();
                Effect::Nothing
            },
            KeyCode::Enter => {
                self.open_credential_item();
                Effect::Nothing
            },
            KeyCode::Char('a') => {
                self.add_action();
                Effect::Nothing
            },
            KeyCode::Char('d') => {
                self.delete_action();
                Effect::Nothing
            },
            KeyCode::Char('i') => {
                self.init_vault_action();
                Effect::Nothing
            },
            KeyCode::Char('u') => self.unlock_action(),
            KeyCode::Char('l') => {
                self.lock_vault_action();
                Effect::Nothing
            },
            KeyCode::Char('p') => {
                self.permission_action();
                Effect::Nothing
            },
            _ => Effect::Nothing,
        }
    }

    /// Run the page action a letter stands for in the cron overlay.
    fn cron_action(&mut self, key: KeyEvent) -> (r: Effect)
        requires
            key.code == KeyCode::Char('e') || key.code == KeyCode::Char('d') || key.code == KeyCode::Char('t')
                || key.code == KeyCode::Char('r'),
        ensures
            cron_action_done(*old(self), *final(self), key, r),
    {
        reveal(cron_action_done);
        match key.code {
            KeyCode::Char('e') => self.edit_action(),
            KeyCode::Char('d') => {
                self.delete_action();
                Effect::Nothing
            },
            KeyCode::Char('t') => self.test_action(),
            _ => self.refresh_action(),
        }
    }

    /// Move in the cron overlay.
    fn cron_move(&mut self, key: KeyEvent, scroll: usize)
        requires
            key.code == KeyCode::Tab ==> old(self).selected_cron_card < usize::MAX,
            (key.code == KeyCode::Down || key.code == KeyCode::Char('j')) ==> old(self).selected_cron_job
                < usize::MAX,
        ensures
            cron_moved(*old(self), *final(self), key, scroll),
    {
        let mut scroll = scroll;
        match key.code {
            KeyCode::Tab => {
                self.selected_cron_card = (self.selected_cron_card + 1) % 3;
            },
            KeyCode::Up | KeyCode::Char('k') => {
                if self.cron_jobs.len() > 0 {
                    self.selected_cron_job = if self.selected_cron_job == 0 {
                        self.cron_jobs.len() - 1
                    } else {
                        self.selected_cron_job - 1
                    };
                }
                scroll = if scroll > 0 { scroll - 1 } else { 0 };
            },
            KeyCode::Down | KeyCode::Char('j') => {
                if self.cron_jobs.len() > 0 {
                    self.selected_cron_job = (self.selected_cron_job + 1) % self.cron_jobs.len();
                }
                scroll = if scroll < usize::MAX { scroll + 1 } else { scroll };
            },
            _ => {},
        }
        self.input_mode = InputMode::CronOverlay { scroll };
    }

    /// Handle a key in the cron overlay.
    pub fn cron_overlay_key(&mut self, key: KeyEvent, scroll: usize) -> (r: Effect)
        requires
            key.code == KeyCode::Tab ==> old(self).selected_cron_card < usize::MAX,
            (key.code == KeyCode::Down || key.code == KeyCode::Char('j')) ==> old(self).selected_cron_job
                < usize::MAX,
        ensures
            cron_overlay_keyed(*old(self), *final(self), key, scroll, r),
    {
        if key.code == KeyCode::Esc {
            self.input_mode = InputMode::Normal;
            return Effect::Nothing;
        }
        if is_cron_letter_key(&key) {
            let r = self.cron_action(key);
            let ghost m = self.input_mode;
            self.input_mode = InputMode::CronOverlay { scroll };
            assert(cron_action_done(*old(self), AppState { input_mode: m, ..*self }, key, r));
            return r;
        }
        self.cron_move(key, scroll);
        Effect::Nothing
    }

    /// Handle a key in the models overlay.
    pub fn models_overlay_key(&mut self, key: KeyEvent, index: usize, scroll: usize) -> (r: Effect)
        ensures
            models_overlay_keyed(*old(self), *final(self), key, index, scroll, r),
    {
        let n = self.providers.len();
        let mut index = index;
        let mut scroll = scroll;
        match key.code {
            KeyCode::Esc => {
                self.input_mode = InputMode::Normal;
                return Effect::Nothing;
            },
            KeyCode::Left | KeyCode::Char('h') => {
                index = if index > 0 { index - 1 } else { 0 };
            },
            KeyCode::Right | KeyCode::Char('l') => {
                if n > 0 {
                    index = if index < n - 1 { index + 1 } else { n - 1 };
                }
            },
            KeyCode::Up | KeyCode::Char('k') => {
                scroll = if scroll > 0 { scroll - 1 } else { 0 };
            },
            KeyCode::Down | KeyCode::Char('j') => {
                scroll = if scroll < usize::MAX { scroll + 1 } else { scroll };
            },
            KeyCode::Enter if n > 0 => {
                self.input_mode = InputMode::ViewModelList { provider_index: index, scroll: 0 };
                return Effect::Nothing;
            },
            KeyCode::Char('e') if n > 0 => {
                self.selected_provider = index;
                return self.edit_action();
            },
            _ => {},
        }
        self.input_mode = InputMode::ModelsOverlay { provider_index: index, scroll };
        Effect::Nothing
    }
}

/// What a key in the settings overlay leaves to the caller.
#[derive(Debug, Clone, PartialEq, Eq)]
pub enum SettingsKeyOutcome {
    /// Handled here; the caller does the work handed over.
    Done(Effect),
    /// Step the theme card's field (0 colour theme, 1 animation style,
    /// 2 theme token, 3 to 6 a colour component) forward or back.
    ThemeStep(usize, bool),
    /// Step the font card's field (0 font role, 1 family, 2 size) forward
    /// or back.
    FontStep(usize, bool),
}

/// What a key does in the settings overlay: Esc closes it; `s`, `S` and `r`
/// start, stop and restart the gateway; Left/Right (and Tab) move between
/// the five cards, stopping at the ends; Up/Down (and `k`/`j`) move between
/// the seven fields of the theme card or the three of the font card,
/// stopping at the ends; `]` and `[` step the selected field forward and
/// back, left to the caller. Other keys do nothing.
pub open spec fn settings_keyed(b: AppState, a: AppState, key: KeyEvent, r: SettingsKeyOutcome) -> bool {
    let c = key.code;
    let card = b.selected_settings_card;
    let up = c == KeyCode::Up || c == KeyCode::Char('k');
    let down = c == KeyCode::Down || c == KeyCode::Char('j');
    if c == KeyCode::Esc {
        r == SettingsKeyOutcome::Done(Effect::Nothing) && a == (AppState { input_mode: InputMode::Normal, ..b })
    } else if c == KeyCode::Char('s') {
        r matches SettingsKeyOutcome::Done(e) && gateway_control_done(b, a, true, e)
    } else if c == KeyCode::Char('S') {
        r matches SettingsKeyOutcome::Done(e) && gateway_control_done(b, a, false, e)
    } else if c == KeyCode::Char('r') {
        r matches SettingsKeyOutcome::Done(e) && refresh_done(b, a, e)
    } else if c == KeyCode::Left || c == KeyCode::BackTab {
        r == SettingsKeyOutcome::Done(Effect::Nothing)
            && a == (AppState { selected_settings_card: if card > 0 { (card - 1) as usize } else { 0 }, ..b })
    } else if c == KeyCode::Right || c == KeyCode::Tab {
        r == SettingsKeyOutcome::Done(Effect::Nothing)
            && a == (AppState { selected_settings_card: if card < 4 { (card + 1) as usize } else { card }, ..b })
    } else if up && card == 3 {
        let f = b.selected_settings_field;
        r == SettingsKeyOutcome::Done(Effect::Nothing)
            && a == (AppState { selected_settings_field: if f > 0 { (f - 1) as usize } else { 0 }, ..b })
    } else if down && card == 3 {
        let f = b.selected_settings_field;
        r == SettingsKeyOutcome::Done(Effect::Nothing)
            && a == (AppState { selected_settings_field: if f < 6 { (f + 1) as usize } else { f }, ..b })
    } else if up && card == 4 {
        let f = b.selected_font_field;
        r == SettingsKeyOutcome::Done(Effect::Nothing)
            && a == (AppState { selected_font_field: if f > 0 { (f - 1) as usize } else { 0 }, ..b })
    } else if down && card == 4 {
        let f = b.selected_font_field;
        r == SettingsKeyOutcome::Done(Effect::Nothing)
            && a == (AppState { selected_font_field: if f < 2 { (f + 1) as usize } else { f }, ..b })
    } else if (c == KeyCode::Char(']') || c == KeyCode::Char('[')) && card == 3 && b.selected_settings_field <= 6 {
        a == b && r == SettingsKeyOutcome::ThemeStep(b.selected_settings_field, c == KeyCode::Char(']'))
    } else if (c == KeyCode::Char(']') || c == KeyCode::Char('[')) && card == 4 && b.selected_font_field <= 2 {
        a == b && r == SettingsKeyOutcome::FontStep(b.selected_font_field, c == KeyCode::Char(']'))
    } else {
        a == b && r == SettingsKeyOutcome::Done(Effect::Nothing)
    }
}

impl AppState {
    /// Handle a key in the settings overlay (see `settings_keyed`).
    pub fn settings_overlay_key(&mut self, key: KeyEvent) -> (r: SettingsKeyOutcome)
        ensures
            settings_keyed(*old(self), *final(self), key, r),
    {
        let card = self.selected_settings_card;
        let up = key.code == KeyCode::Up || key.code == KeyCode::Char('k');
        let down = key.code == KeyCode::Down || key.code == KeyCode::Char('j');
        let step = key.code == KeyCode::Char(']') || key.code == KeyCode::Char('[');
        let forward = key.code == KeyCode::Char(']');
        if key.code == KeyCode::Esc {
            self.input_mode = InputMode::Normal;
            SettingsKeyOutcome::Done(Effect::Nothing)
        } else if key.code == KeyCode::Char('s') {
            SettingsKeyOutcome::Done(self.start_action())
        } else if key.code == KeyCode::Char('S') {
            SettingsKeyOutcome::Done(self.stop_action())
        } else if key.code == KeyCode::Char('r') {
            SettingsKeyOutcome::Done(self.refresh_action())
        } else if key.code == KeyCode::Left || key.code == KeyCode::BackTab {
            if card > 0 {
                self.selected_settings_card = card - 1;
            }
            SettingsKeyOutcome::Done(Effect::Nothing)
        } else if key.code == KeyCode::Right || key.code == KeyCode::Tab {
            if card < 4 {
                self.selected_settings_card = card + 1;
            }
            SettingsKeyOutcome::Done(Effect::Nothing)
        } else if up && card == 3 {
            if self.selected_settings_field > 0 {
                self.selected_settings_field = self.selected_settings_field - 1;
            }
            SettingsKeyOutcome::Done(Effect::Nothing)
        } else if down && card == 3 {
            if self.selected_settings_field < 6 {
                self.selected_settings_field = self.selected_settings_field + 1;
            }
            SettingsKeyOutcome::Done(Effect::Nothing)
        } else if up && card == 4 {
            if self.selected_font_field > 0 {
                self.selected_font_field = self.selected_font_field - 1;
            }
            SettingsKeyOutcome::Done(Effect::Nothing)
        } else if down && card == 4 {
            if self.selected_font_field < 2 {
                self.selected_font_field = self.selected_font_field + 1;
            }
            SettingsKeyOutcome::Done(Effect::Nothing)
        } else if step && card == 3 && self.selected_settings_field <= 6 {
            SettingsKeyOutcome::ThemeStep(self.selected_settings_field, forward)
        } else if step && card == 4 && self.selected_font_field <= 2 {
            SettingsKeyOutcome::FontStep(self.selected_font_field, forward)
        } else {
            SettingsKeyOutcome::Done(Effect::Nothing)
        }
    }
}

} // verus!
