//! The slotted card bar: a fixed mode card at slot 0 with info cards to its
//! right that depend on the mode.

use vstd::prelude::*;
use crate::menu::{MenuItem, all_menu_items, menu_at, menu_title};
use crate::model::{AgentInfo, SessionInfo};
use crate::text::{string_of, usize_to_string, decimal};

verus! {

broadcast use vstd::string::group_string_axioms;

/// Identifies a compact card-sized widget for rendering inside card slots.
#[derive(Debug, Clone, Copy, PartialEq, Eq, Structural)]
pub enum CardWidgetId {
    GatewayStatus,
    GatewayLoad,
    GatewayNetwork,
    ClientStatus,
    ClientMessages,
    ClientResources,
    AgentOverview,
    AgentSessions,
    AgentTools,
    VaultStatus,
    CronOverview,
    ModelsOverview,
    SettingsGeneral,
    Alerts,
}

/// Severity level for alerts.
#[derive(Debug, Clone, Copy, PartialEq, Eq, Structural)]
pub enum AlertSeverity {
    Info,
    Warning,
    Error,
}

/// What kind of slot this is.
#[derive(Debug, Clone, Copy, PartialEq, Eq, Structural)]
pub enum SlotKind {
    ModeSelector,
    InfoCard,
}

/// A single view within a card slot.
#[derive(Debug, Clone)]
pub struct SlotView {
    pub label: String,
    pub widget: CardWidgetId,
}

impl View for SlotView {
    type V = (Seq<char>, CardWidgetId);

    open spec fn view(&self) -> (Seq<char>, CardWidgetId) {
        (self.label@, self.widget)
    }
}

/// A single slot in the card bar.
#[derive(Debug, Clone)]
pub struct CardSlot {
    pub label: String,
    pub icon: char,
    pub badge: Option<String>,
    pub views: Vec<SlotView>,
    pub active_view: usize,
    pub kind: SlotKind,
}

/// What a card slot shows.
pub struct CardSlotView {
    pub label: Seq<char>,
    pub icon: char,
    pub badge: Option<Seq<char>>,
    pub views: Seq<(Seq<char>, CardWidgetId)>,
    pub active_view: nat,
    pub kind: SlotKind,
}

impl View for CardSlot {
    type V = CardSlotView;

    open spec fn view(&self) -> CardSlotView {
        CardSlotView {
            label: self.label@,
            icon: self.icon,
            badge: match self.badge {
                Some(b) => Some(b@),
                None => None,
            },
            views: self.views@.map_values(|v: SlotView| v@),
            active_view: self.active_view as nat,
            kind: self.kind,
        }
    }
}

/// The views of a sequence of slots.
pub open spec fn slots_view(s: Seq<CardSlot>) -> Seq<CardSlotView> {
    s.map_values(|c: CardSlot| c@)
}

/// An info card with no badge showing its first view.
pub open spec fn info_card(label: Seq<char>, icon: char, views: Seq<(Seq<char>, CardWidgetId)>) -> CardSlotView {
    CardSlotView { label, icon, badge: None, views, active_view: 0, kind: SlotKind::InfoCard }
}

/// An info card with a single view.
pub open spec fn single_card(label: Seq<char>, icon: char, view_label: Seq<char>, w: CardWidgetId) -> CardSlotView {
    info_card(label, icon, seq![(view_label, w)])
}

/// Cards of the dashboard mode.
pub open spec fn dashboard_cards() -> Seq<CardSlotView> {
    seq![
        info_card("Gateway"@, 'G', seq![("Status"@, CardWidgetId::GatewayStatus), ("Load"@, CardWidgetId::GatewayLoad), ("Network"@, CardWidgetId::GatewayNetwork)]),
        info_card("Client"@, 'C', seq![("Status"@, CardWidgetId::ClientStatus), ("Messages"@, CardWidgetId::ClientMessages), ("Resources"@, CardWidgetId::ClientResources)]),
        info_card("Agents"@, 'A', seq![("Overview"@, CardWidgetId::AgentOverview), ("Sessions"@, CardWidgetId::AgentSessions), ("Tools"@, CardWidgetId::AgentTools)]),
        single_card("Vault"@, 'V', "Status"@, CardWidgetId::VaultStatus),
    ]
}

/// Cards of the credentials mode.
pub open spec fn credentials_cards() -> Seq<CardSlotView> {
    seq![
        single_card("Endpoints"@, 'E', "Status"@, CardWidgetId::VaultStatus),
        single_card("Providers"@, 'P', "Status"@, CardWidgetId::GatewayStatus),
    ]
}

/// Cards of the cron mode.
pub open spec fn cron_cards() -> Seq<CardSlotView> {
    seq![
        single_card("All Jobs"@, 'A', "Overview"@, CardWidgetId::CronOverview),
        single_card("Active"@, '+', "Active"@, CardWidgetId::CronOverview),
        single_card("Disabled"@, 'o', "Disabled"@, CardWidgetId::CronOverview),
    ]
}

/// Cards of the models mode.
pub open spec fn models_cards() -> Seq<CardSlotView> {
    seq![
        single_card("Bedrock"@, 'B', "Status"@, CardWidgetId::ModelsOverview),
        single_card("Anthropic"@, 'A', "Status"@, CardWidgetId::ModelsOverview),
        single_card("OpenAI"@, 'O', "Status"@, CardWidgetId::ModelsOverview),
        single_card("Ollama"@, 'L', "Status"@, CardWidgetId::ModelsOverview),
    ]
}

/// Cards of the settings mode.
pub open spec fn settings_cards() -> Seq<CardSlotView> {
    seq![
        single_card("General"@, 'G', "General"@, CardWidgetId::SettingsGeneral),
        single_card("Paths"@, 'P', "Paths"@, CardWidgetId::SettingsGeneral),
        single_card("About"@, 'i', "About"@, CardWidgetId::SettingsGeneral),
    ]
}

/// The card of one agent: its id, `+` when enabled and `o` otherwise, its
/// session count as a badge.
pub open spec fn agent_card(a: AgentInfo) -> CardSlotView {
    CardSlotView {
        label: a.id@,
        icon: if a.enabled { '+' } else { 'o' },
        badge: Some(decimal(a.session_count as nat)),
        views: seq![("Overview"@, CardWidgetId::AgentOverview), ("Sessions"@, CardWidgetId::AgentSessions)],
        active_view: 0,
        kind: SlotKind::InfoCard,
    }
}

/// The card of one session: its key, with its message count as a badge.
pub open spec fn session_card(s: SessionInfo) -> CardSlotView {
    CardSlotView {
        label: s.key@,
        icon: 'S',
        badge: Some(decimal(s.message_count as nat)),
        views: seq![("Messages"@, CardWidgetId::ClientMessages)],
        active_view: 0,
        kind: SlotKind::InfoCard,
    }
}

/// Cards to the right of the mode card for a mode.
pub open spec fn mode_cards(mode: MenuItem, agents: Seq<AgentInfo>, sessions: Seq<SessionInfo>) -> Seq<CardSlotView> {
    match mode {
        MenuItem::Dashboard => dashboard_cards(),
        MenuItem::Agents => agents.map_values(|a: AgentInfo| agent_card(a)),
        MenuItem::Sessions => sessions.map_values(|s: SessionInfo| session_card(s)),
        MenuItem::Credentials => credentials_cards(),
        MenuItem::CronJobs => cron_cards(),
        MenuItem::Models => models_cards(),
        MenuItem::Settings => settings_cards(),
    }
}

/// The pinned alerts card, always rightmost.
pub open spec fn alerts_card() -> CardSlotView {
    single_card("Alerts"@, '!', "Alerts"@, CardWidgetId::Alerts)
}

/// The mode card showing a mode's title.
pub open spec fn mode_card(title: Seq<char>) -> CardSlotView {
    CardSlotView { label: title, icon: '*', badge: None, views: seq![], active_view: 0, kind: SlotKind::ModeSelector }
}

fn slot_view(label: &str, widget: CardWidgetId) -> (v: SlotView)
    ensures
        v@ == (label@, widget),
{
    SlotView { label: string_of(label), widget }
}

fn views_of(v: Vec<SlotView>) -> (r: Vec<SlotView>)
    ensures
        r@ == v@,
{
    v
}

fn info_slot(label: &str, icon: char, views: Vec<SlotView>) -> (s: CardSlot)
    ensures
        s@ == info_card(label@, icon, views@.map_values(|v: SlotView| v@)),
{
    CardSlot {
        label: string_of(label),
        icon,
        badge: None,
        views,
        active_view: 0,
        kind: SlotKind::InfoCard,
    }
}

fn single_slot(label: &str, icon: char, view_label: &str, widget: CardWidgetId) -> (s: CardSlot)
    ensures
        s@ == single_card(label@, icon, view_label@, widget),
{
    let mut views: Vec<SlotView> = Vec::new();
    views.push(slot_view(view_label, widget));
    let s = info_slot(label, icon, views);
    assert(s.views@.map_values(|v: SlotView| v@) =~= seq![(view_label@, widget)]);
    s
}

fn three_views(
    l1: &str,
    w1: CardWidgetId,
    l2: &str,
    w2: CardWidgetId,
    l3: &str,
    w3: CardWidgetId,
) -> (r: Vec<SlotView>)
    ensures
        r@.map_values(|v: SlotView| v@) == seq![(l1@, w1), (l2@, w2), (l3@, w3)],
{
    let mut r: Vec<SlotView> = Vec::new();
    r.push(slot_view(l1, w1));
    r.push(slot_view(l2, w2));
    r.push(slot_view(l3, w3));
    assert(r@.map_values(|v: SlotView| v@) =~= seq![(l1@, w1), (l2@, w2), (l3@, w3)]);
    r
}

/// Viewing slots commutes with appending one.
pub proof fn lemma_slots_view_push(s: Seq<CardSlot>, x: CardSlot)
    ensures
        slots_view(s.push(x)) == slots_view(s).push(x@),
{
    assert(slots_view(s.push(x)) =~= slots_view(s).push(x@));
}

/// Cards of the dashboard mode.
pub fn build_dashboard_slots() -> (r: Vec<CardSlot>)
    ensures
        slots_view(r@) == dashboard_cards(),
{
    let mut r: Vec<CardSlot> = Vec::new();
    r.push(info_slot("Gateway", 'G', three_views("Status", CardWidgetId::GatewayStatus, "Load", CardWidgetId::GatewayLoad, "Network", CardWidgetId::GatewayNetwork)));
    r.push(info_slot("Client", 'C', three_views("Status", CardWidgetId::ClientStatus, "Messages", CardWidgetId::ClientMessages, "Resources", CardWidgetId::ClientResources)));
    r.push(info_slot("Agents", 'A', three_views("Overview", CardWidgetId::AgentOverview, "Sessions", CardWidgetId::AgentSessions, "Tools", CardWidgetId::AgentTools)));
    r.push(single_slot("Vault", 'V', "Status", CardWidgetId::VaultStatus));
    assert(slots_view(r@) =~= dashboard_cards());
    r
}

/// Cards of the credentials mode.
pub fn build_credentials_slots() -> (r: Vec<CardSlot>)
    ensures
        slots_view(r@) == credentials_cards(),
{
    let mut r: Vec<CardSlot> = Vec::new();
    r.push(single_slot("Endpoints", 'E', "Status", CardWidgetId::VaultStatus));
    r.push(single_slot("Providers", 'P', "Status", CardWidgetId::GatewayStatus));
    assert(slots_view(r@) =~= credentials_cards());
    r
}

/// Cards of the cron mode.
pub fn build_cron_slots() -> (r: Vec<CardSlot>)
    ensures
        slots_view(r@) == cron_cards(),
{
    let mut r: Vec<CardSlot> = Vec::new();
    r.push(single_slot("All Jobs", 'A', "Overview", CardWidgetId::CronOverview));
    r.push(single_slot("Active", '+', "Active", CardWidgetId::CronOverview));
    r.push(single_slot("Disabled", 'o', "Disabled", CardWidgetId::CronOverview));
    assert(slots_view(r@) =~= cron_cards());
    r
}

/// Cards of the models mode.
pub fn build_models_slots() -> (r: Vec<CardSlot>)
    ensures
        slots_view(r@) == models_cards(),
{
    let mut r: Vec<CardSlot> = Vec::new();
    r.push(single_slot("Bedrock", 'B', "Status", CardWidgetId::ModelsOverview));
    r.push(single_slot("Anthropic", 'A', "Status", CardWidgetId::ModelsOverview));
    r.push(single_slot("OpenAI", 'O', "Status", CardWidgetId::ModelsOverview));
    r.push(single_slot("Ollama", 'L', "Status", CardWidgetId::ModelsOverview));
    assert(slots_view(r@) =~= models_cards());
    r
}

/// Cards of the settings mode.
pub fn build_settings_slots() -> (r: Vec<CardSlot>)
    ensures
        slots_view(r@) == settings_cards(),
{
    let mut r: Vec<CardSlot> = Vec::new();
    r.push(single_slot("General", 'G', "General", CardWidgetId::SettingsGeneral));
    r.push(single_slot("Paths", 'P', "Paths", CardWidgetId::SettingsGeneral));
    r.push(single_slot("About", 'i', "About", CardWidgetId::SettingsGeneral));
    assert(slots_view(r@) =~= settings_cards());
    r
}

/// One card per agent.
pub fn build_agents_slots_from(agents: &Vec<AgentInfo>) -> (r: Vec<CardSlot>)
    ensures
        slots_view(r@) == agents@.map_values(|a: AgentInfo| agent_card(a)),
{
    let mut r: Vec<CardSlot> = Vec::new();
    let mut i: usize = 0;
    while i < agents.len()
        invariant
            i <= agents.len(),
            slots_view(r@) == agents@.take(i as int).map_values(|a: AgentInfo| agent_card(a)),
        decreases agents.len() - i,
    {
        let a = &agents[i];
        let mut views: Vec<SlotView> = Vec::new();
        views.push(slot_view("Overview", CardWidgetId::AgentOverview));
        views.push(slot_view("Sessions", CardWidgetId::AgentSessions));
        let slot = CardSlot {
            label: a.id.clone(),
            icon: if a.enabled { '+' } else { 'o' },
            badge: Some(usize_to_string(a.session_count)),
            views,
            active_view: 0,
            kind: SlotKind::InfoCard,
        };
        assert(slot.views@.map_values(|v: SlotView| v@) =~= seq![("Overview"@, CardWidgetId::AgentOverview), ("Sessions"@, CardWidgetId::AgentSessions)]);
        assert(slot@ == agent_card(agents@[i as int]));
        let ghost before = r@;
        r.push(slot);
        proof {
            lemma_slots_view_push(before, slot);
        }
        assert(agents@.take(i + 1) == agents@.take(i as int).push(agents@[i as int]));
        assert(slots_view(r@) =~= agents@.take(i + 1).map_values(|a: AgentInfo| agent_card(a)));
        i = i + 1;
    }
    assert(agents@.take(agents.len() as int) == agents@);
    r
}

/// One card per session.
pub fn build_sessions_slots_from(sessions: &Vec<SessionInfo>) -> (r: Vec<CardSlot>)
    ensures
        slots_view(r@) == sessions@.map_values(|s: SessionInfo| session_card(s)),
{
    let mut r: Vec<CardSlot> = Vec::new();
    let mut i: usize = 0;
    while i < sessions.len()
        invariant
            i <= sessions.len(),
            slots_view(r@) == sessions@.take(i as int).map_values(|s: SessionInfo| session_card(s)),
        decreases sessions.len() - i,
    {
        let s = &sessions[i];
        let mut views: Vec<SlotView> = Vec::new();
        views.push(slot_view("Messages", CardWidgetId::ClientMessages));
        let slot = CardSlot {
            label: s.key.clone(),
            icon: 'S',
            badge: Some(usize_to_string(s.message_count)),
            views,
            active_view: 0,
            kind: SlotKind::InfoCard,
        };
        assert(slot.views@.map_values(|v: SlotView| v@) =~= seq![("Messages"@, CardWidgetId::ClientMessages)]);
        assert(slot@ == session_card(sessions@[i as int]));
        let ghost before = r@;
        r.push(slot);
        proof {
            lemma_slots_view_push(before, slot);
        }
        assert(sessions@.take(i + 1) == sessions@.take(i as int).push(sessions@[i as int]));
        assert(slots_view(r@) =~= sessions@.take(i + 1).map_values(|s: SessionInfo| session_card(s)));
        i = i + 1;
    }
    assert(sessions@.take(sessions.len() as int) == sessions@);
    r
}

/// A fixed "mode" card at slot 0 with dynamic info cards to the right.
pub struct SlottedCardBar {
    pub mode: usize,
    pub slots: Vec<CardSlot>,
    pub active_slot: usize,
}

/// What the card bar shows.
pub struct SlotBarView {
    pub mode: nat,
    pub slots: Seq<CardSlotView>,
    pub active_slot: nat,
}

impl View for SlottedCardBar {
    type V = SlotBarView;

    open spec fn view(&self) -> SlotBarView {
        SlotBarView {
            mode: self.mode as nat,
            slots: slots_view(self.slots@),
            active_slot: self.active_slot as nat,
        }
    }
}

/// A card with another label.
pub open spec fn relabeled(c: CardSlotView, label: Seq<char>) -> CardSlotView {
    CardSlotView {
        label,
        icon: c.icon,
        badge: c.badge,
        views: c.views,
        active_view: c.active_view,
        kind: c.kind,
    }
}

/// A card showing another of its views.
pub open spec fn showing(c: CardSlotView, active_view: nat) -> CardSlotView {
    CardSlotView {
        label: c.label,
        icon: c.icon,
        badge: c.badge,
        views: c.views,
        active_view,
        kind: c.kind,
    }
}

/// The position before `i` among `n`, wrapping from the first to the last.
pub open spec fn prev_wrap(i: nat, n: nat) -> nat {
    if i > 0 { (i - 1) as nat } else { (n - 1) as nat }
}

/// The position after `i` among `n`, wrapping from the last to the first.
pub open spec fn next_wrap(i: nat, n: nat) -> nat {
    (i + 1) % n
}

/// The card bar after Up (`forward` false) or Down: on the mode card the
/// mode steps round the seven and the cards are rebuilt for it; on another
/// card, that card shows its previous (next) view, round its views.
pub open spec fn bar_cycled(
    b: SlotBarView,
    a: SlotBarView,
    agents: Seq<AgentInfo>,
    sessions: Seq<SessionInfo>,
    forward: bool,
) -> bool {
    if b.active_slot == 0 {
        let m = if forward { next_wrap(b.mode, 7) } else { prev_wrap(b.mode, 7) };
        &&& a.mode == m
        &&& a.slots == rebuilt_slots(
            b.slots.update(0, relabeled(b.slots[0], menu_title(all_menu_items()[m as int]))),
            menu_at(m),
            agents,
            sessions,
        )
        &&& a.active_slot == clamped_slot(0, a.slots.len())
    } else {
        &&& a.mode == b.mode
        &&& a.active_slot == b.active_slot
        &&& a.slots == if b.active_slot < b.slots.len() && b.slots[b.active_slot as int].views.len() > 0 {
            let v = b.slots[b.active_slot as int];
            b.slots.update(
                b.active_slot as int,
                showing(
                    v,
                    if forward { next_wrap(v.active_view, v.views.len()) } else { prev_wrap(v.active_view, v.views.len()) },
                ),
            )
        } else {
            b.slots
        }
    }
}

/// The slots after rebuilding for a mode: the mode card kept (if any), the
/// mode's cards, then the alerts card.
pub open spec fn rebuilt_slots(
    old: Seq<CardSlotView>,
    mode: MenuItem,
    agents: Seq<AgentInfo>,
    sessions: Seq<SessionInfo>,
) -> Seq<CardSlotView> {
    old.take(if old.len() > 0 { 1int } else { 0int }) + mode_cards(mode, agents, sessions) + seq![
        alerts_card(),
    ]
}

/// The active slot after the slots change to `len` of them: kept if still in
/// range, else the last slot.
pub open spec fn clamped_slot(active: nat, len: nat) -> nat {
    if active >= len { (len - 1) as nat } else { active }
}

/// Viewing slots commutes with concatenation.
pub proof fn lemma_slots_view_add(a: Seq<CardSlot>, b: Seq<CardSlot>)
    ensures
        slots_view(a + b) == slots_view(a) + slots_view(b),
{
    assert(slots_view(a + b) =~= slots_view(a) + slots_view(b));
}

impl SlottedCardBar {
    /// A bar in dashboard mode with the dashboard's cards.
    pub fn new() -> (bar: SlottedCardBar)
        ensures
            bar@.mode == 0,
            bar@.active_slot == 0,
            bar@.slots == seq![mode_card("Dashboard"@)] + dashboard_cards(),
    {
        let mut slots: Vec<CardSlot> = Vec::new();
        slots.push(CardSlot {
            label: string_of(MenuItem::Dashboard.title()),
            icon: '*',
            badge: None,
            views: Vec::new(),
            active_view: 0,
            kind: SlotKind::ModeSelector,
        });
        let mut rest = build_dashboard_slots();
        let ghost first = slots@;
        let ghost second = rest@;
        slots.append(&mut rest);
        proof {
            lemma_slots_view_add(first, second);
            assert(first[0].views@.map_values(|v: SlotView| v@) =~= Seq::<(Seq<char>, CardWidgetId)>::empty());
            assert(slots_view(first) =~= seq![mode_card("Dashboard"@)]);
        }
        SlottedCardBar { mode: 0, slots, active_slot: 0 }
    }

    pub fn select_left(&mut self)
        ensures
            final(self)@.mode == old(self)@.mode,
            final(self)@.slots == old(self)@.slots,
            final(self)@.active_slot == if old(self).active_slot > 0 {
                (old(self).active_slot - 1) as nat
            } else {
                0
            },
    {
        if self.active_slot > 0 {
            self.active_slot = self.active_slot - 1;
        }
    }

    pub fn select_right(&mut self)
        requires
            old(self).active_slot < usize::MAX,
        ensures
            final(self)@.mode == old(self)@.mode,
            final(self)@.slots == old(self)@.slots,
            final(self)@.active_slot == if old(self).active_slot + 1 < old(self).slots.len() {
                old(self).active_slot + 1
            } else {
                old(self).active_slot as int
            },
    {
        if self.active_slot + 1 < self.slots.len() {
            self.active_slot = self.active_slot + 1;
        }
    }

    /// Current mode as a menu item.
    pub fn current_mode(&self) -> (m: MenuItem)
        ensures
            m == menu_at(self.mode as nat),
    {
        MenuItem::from_index(self.mode)
    }

    /// Widget of the active slot's current view, if both exist.
    pub fn active_widget(&self) -> (r: Option<CardWidgetId>)
        ensures
            r == if self@.active_slot < self@.slots.len() && self@.slots[self@.active_slot as int].active_view
                < self@.slots[self@.active_slot as int].views.len() {
                Some(
                    self@.slots[self@.active_slot as int].views[self@.slots[self@.active_slot as int].active_view as int].1,
                )
            } else {
                None::<CardWidgetId>
            },
    {
        if self.active_slot < self.slots.len() {
            let slot = &self.slots[self.active_slot];
            assert(self@.slots[self.active_slot as int] == slot@);
            if slot.active_view < slot.views.len() {
                assert(slot@.views[slot.active_view as int] == slot.views@[slot.active_view as int]@);
                return Some(slot.views[slot.active_view].widget);
            }
        }
        None
    }

    /// Rebuild the slots to the right of the mode card for the current mode,
    /// with the alerts card pinned rightmost, and keep the active slot in
    /// range.
    pub fn rebuild_content_slots(&mut self, agents: &Vec<AgentInfo>, sessions: &Vec<SessionInfo>)
        ensures
            final(self)@.mode == old(self)@.mode,
            final(self)@.slots == rebuilt_slots(
                old(self)@.slots,
                menu_at(old(self)@.mode),
                agents@,
                sessions@,
            ),
            final(self)@.active_slot == clamped_slot(old(self)@.active_slot, final(self)@.slots.len()),
    {
        let ghost old_slots = self@.slots;
        self.slots.truncate(1);
        let ghost kept = self.slots@;
        assert(slots_view(kept) == old_slots.take(if old_slots.len() > 0 { 1int } else { 0int })) by {
            assert(slots_view(kept) =~= old_slots.take(if old_slots.len() > 0 { 1int } else { 0int }));
        }
        let mut new_slots = match self.current_mode() {
            MenuItem::Dashboard => build_dashboard_slots(),
            MenuItem::Agents => build_agents_slots_from(agents),
            MenuItem::Sessions => build_sessions_slots_from(sessions),
            MenuItem::Credentials => build_credentials_slots(),
            MenuItem::CronJobs => build_cron_slots(),
            MenuItem::Models => build_models_slots(),
            MenuItem::Settings => build_settings_slots(),
        };
        let ghost added = new_slots@;
        self.slots.append(&mut new_slots);
        proof {
            lemma_slots_view_add(kept, added);
        }
        let alerts = single_slot("Alerts", '!', "Alerts", CardWidgetId::Alerts);
        let ghost before = self.slots@;
        self.slots.push(alerts);
        proof {
            lemma_slots_view_push(before, alerts);
        }
        if self.active_slot >= self.slots.len() {
            self.active_slot = self.slots.len() - 1;
        }
    }

    /// On the mode card, switch to the previous mode (from the first to the
    /// last) and rebuild; on another card, show its previous view (from the
    /// first to the last).
    pub fn cycle_up(&mut self, agents: &Vec<AgentInfo>, sessions: &Vec<SessionInfo>)
        requires
            old(self).active_slot == 0 ==> old(self).slots.len() > 0 && old(self).mode <= 7,
        ensures
            bar_cycled(old(self)@, final(self)@, agents@, sessions@, false),
    {
        if self.active_slot == 0 {
            let modes = MenuItem::all();
            if self.mode > 0 {
                self.mode = self.mode - 1;
            } else {
                self.mode = modes.len() - 1;
            }
            let ghost old_slots = self.slots@;
            let mut first = self.slots.remove(0);
            first.label = string_of(modes[self.mode].title());
            let ghost first_view = first@;
            self.slots.insert(0, first);
            assert(slots_view(self.slots@) =~= slots_view(old_slots).update(0, first_view));
            self.rebuild_content_slots(agents, sessions);
        } else if self.active_slot < self.slots.len() {
            let ghost old_slots = self.slots@;
            let at = self.active_slot;
            let mut slot = self.slots.remove(at);
            if slot.views.len() > 0 {
                if slot.active_view > 0 {
                    slot.active_view = slot.active_view - 1;
                } else {
                    slot.active_view = slot.views.len() - 1;
                }
            }
            let ghost slot_view = slot@;
            self.slots.insert(at, slot);
            assert(slots_view(self.slots@) =~= slots_view(old_slots).update(at as int, slot_view));
            assert(old_slots[at as int]@.views.len() == 0 ==> slots_view(self.slots@) =~= slots_view(old_slots));
        }
    }

    /// On the mode card, switch to the next mode (from the last to the
    /// first) and rebuild; on another card, show its next view (from the
    /// last to the first).
    pub fn cycle_down(&mut self, agents: &Vec<AgentInfo>, sessions: &Vec<SessionInfo>)
        requires
            old(self).active_slot == 0 ==> old(self).slots.len() > 0 && old(self).mode < usize::MAX,
            old(self).active_slot != 0 && old(self).active_slot < old(self).slots.len()
                ==> old(self).slots@[old(self).active_slot as int].active_view < usize::MAX,
        ensures
            bar_cycled(old(self)@, final(self)@, agents@, sessions@, true),
    {
        if self.active_slot == 0 {
            let modes = MenuItem::all();
            self.mode = (self.mode + 1) % modes.len();
            let ghost old_slots = self.slots@;
            let mut first = self.slots.remove(0);
            first.label = string_of(modes[self.mode].title());
            let ghost first_view = first@;
            self.slots.insert(0, first);
            assert(slots_view(self.slots@) =~= slots_view(old_slots).update(0, first_view));
            self.rebuild_content_slots(agents, sessions);
        } else if self.active_slot < self.slots.len() {
            let ghost old_slots = self.slots@;
            let at = self.active_slot;
            let mut slot = self.slots.remove(at);
            if slot.views.len() > 0 {
                slot.active_view = (slot.active_view + 1) % slot.views.len();
            }
            let ghost slot_view = slot@;
            self.slots.insert(at, slot);
            assert(slots_view(self.slots@) =~= slots_view(old_slots).update(at as int, slot_view));
            assert(old_slots[at as int]@.views.len() == 0 ==> slots_view(self.slots@) =~= slots_view(old_slots));
        }
    }
}

} // verus!
