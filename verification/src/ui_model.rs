//! Shared UI-facing models that both the terminal and the web front ends
//! render.

use vstd::prelude::*;
use crate::text::string_of;

verus! {

broadcast use vstd::string::group_string_axioms;

/// Tone of a status pill.
#[derive(Debug, Clone, Copy, PartialEq, Eq, Structural)]
pub enum StatusTone {
    Idle,
    Okay,
    Warn,
    Danger,
}

impl StatusTone {
    /// The CSS class of the tone.
    pub fn css_class(self) -> (r: &'static str)
        ensures
            r@ == match self {
                StatusTone::Idle => "pill-idle"@,
                StatusTone::Okay => "pill-ok"@,
                StatusTone::Warn => "pill-warn"@,
                StatusTone::Danger => "pill-danger"@,
            },
    {
        match self {
            StatusTone::Idle => "pill-idle",
            StatusTone::Okay => "pill-ok",
            StatusTone::Warn => "pill-warn",
            StatusTone::Danger => "pill-danger",
        }
    }
}

/// A labelled status pill.
#[derive(Debug, Clone)]
pub struct PillModel {
    pub label: String,
    pub tone: StatusTone,
}

impl PillModel {
    /// An idle pill with this label.
    pub fn idle(label: &str) -> (p: PillModel)
        ensures
            p.label@ == label@,
            p.tone == StatusTone::Idle,
    {
        PillModel { label: string_of(label), tone: StatusTone::Idle }
    }
}

/// The hero banner.
#[derive(Debug, Clone)]
pub struct HeroModel {
    pub eyebrow: String,
    pub title: String,
    pub body: String,
}

/// A labelled fact, optionally linked.
#[derive(Debug, Clone)]
pub struct FactModel {
    pub label: String,
    pub value: String,
    pub href: Option<String>,
}

/// A titled panel of facts.
#[derive(Debug, Clone)]
pub struct PanelModel {
    pub title: String,
    pub pill: PillModel,
    pub description: Option<String>,
    pub facts: Vec<FactModel>,
}

/// A numbered bootstrap step.
#[derive(Debug, Clone)]
pub struct BootstrapStep {
    pub title: String,
    pub body: String,
}

/// The bootstrap page shown before the client identity is imported.
#[derive(Debug, Clone)]
pub struct BootstrapShellModel {
    pub hero: HeroModel,
    pub gateway_panel: PanelModel,
    pub identity_panel: PanelModel,
    pub workspace_panel: PanelModel,
    pub steps: Vec<BootstrapStep>,
    pub nav_items: Vec<String>,
}

/// The texts of a fact.
pub open spec fn fact_view(f: FactModel) -> (Seq<char>, Seq<char>, Option<Seq<char>>) {
    (f.label@, f.value@, match f.href { Some(h) => Some(h@), None => None })
}

/// The texts of facts.
pub open spec fn facts_view(v: Seq<FactModel>) -> Seq<(Seq<char>, Seq<char>, Option<Seq<char>>)> {
    v.map_values(|f: FactModel| fact_view(f))
}

fn fact(label: &str, value: &str, href: Option<&str>) -> (f: FactModel)
    ensures
        fact_view(f) == (label@, value@, match href { Some(h) => Some(h@), None => None::<Seq<char>> }),
{
    FactModel {
        label: string_of(label),
        value: string_of(value),
        href: match href {
            Some(h) => Some(string_of(h)),
            None => None,
        },
    }
}

fn step(title: &str, body: &str) -> (s: BootstrapStep)
    ensures
        s.title@ == title@,
        s.body@ == body@,
{
    BootstrapStep { title: string_of(title), body: string_of(body) }
}

/// The panel content of the default bootstrap page: title, pill label,
/// description, and facts.
pub open spec fn panel_is(p: PanelModel, title: Seq<char>, pill: Seq<char>, description: Seq<char>, facts: Seq<(Seq<char>, Seq<char>, Option<Seq<char>>)>) -> bool {
    &&& p.title@ == title
    &&& p.pill.label@ == pill
    &&& p.pill.tone == StatusTone::Idle
    &&& p.description is Some
    &&& p.description->0@ == description
    &&& facts_view(p.facts@) == facts
}

impl Default for BootstrapShellModel {
    fn default() -> (m: BootstrapShellModel)
        ensures
            m.hero.eyebrow@ == "RockBot Web"@,
            m.hero.title@ == "Import your client identity, then move onto the authenticated control plane."@,
            m.hero.body@ == "The public HTTPS listener is only a bootstrap surface. The real application surface belongs on the authenticated WebSocket with imported client identity material."@,
            panel_is(m.gateway_panel, "Gateway"@, "Checking"@,
                "Bootstrap-only health and trust information from the public listener."@,
                seq![("Health"@, "Loading..."@, None), ("CA Bundle"@, "Download public CA"@, Some("/api/cert/ca"@)), ("WS Auth"@, "Not connected"@, None)]),
            panel_is(m.identity_panel, "Browser Identity"@, "No key imported"@,
                "Import a PEM client certificate and private key. The browser stores the identity locally so you do not need to re-import it every time."@,
                seq![("Storage"@, "IndexedDB-backed local identity persistence"@, None), ("Auth Path"@, "Certificate challenge/response over WebSocket"@, None)]),
            panel_is(m.workspace_panel, "Application Surface"@, "Bootstrap mode"@,
                "The next phase of the WebUI will render sessions, agents, providers, cron, and credentials over the same authenticated WS control plane used by native clients."@,
                seq![("Preferred Stack"@, "Leptos + shared UI-model/state crates"@, None), ("Shared State"@, "Protocol, view-models, and theme semantics shared across TUI and WebUI"@, None)]),
            m.steps@.map_values(|s: BootstrapStep| (s.title@, s.body@)) == seq![
                ("1. Verify the gateway"@, "Use the public health endpoint and CA bundle to confirm you are connecting to the intended cluster."@),
                ("2. Import client identity"@, "Drop or select PEM certificate and private key files, then persist them locally in the browser."@),
                ("3. Authenticate over WS"@, "The browser authenticates over the bootstrap WebSocket and then moves onto the authenticated app control plane."@),
            ],
            m.nav_items@.map_values(|s: String| s@) == seq!["Sessions"@, "Agents"@, "Providers"@, "Credentials"@, "Cron"@],
    {
        let hero = HeroModel {
            eyebrow: string_of("RockBot Web"),
            title: string_of("Import your client identity, then move onto the authenticated control plane."),
            body: string_of("The public HTTPS listener is only a bootstrap surface. The real application surface belongs on the authenticated WebSocket with imported client identity material."),
        };
        let gateway_facts = vec![
            fact("Health", "Loading...", None),
            fact("CA Bundle", "Download public CA", Some("/api/cert/ca")),
            fact("WS Auth", "Not connected", None),
        ];
        assert(facts_view(gateway_facts@) =~= seq![("Health"@, "Loading..."@, None), ("CA Bundle"@, "Download public CA"@, Some("/api/cert/ca"@)), ("WS Auth"@, "Not connected"@, None)]);
        let gateway_panel = PanelModel {
            title: string_of("Gateway"),
            pill: PillModel::idle("Checking"),
            description: Some(string_of("Bootstrap-only health and trust information from the public listener.")),
            facts: gateway_facts,
        };
        let identity_facts = vec![
            fact("Storage", "IndexedDB-backed local identity persistence", None),
            fact("Auth Path", "Certificate challenge/response over WebSocket", None),
        ];
        assert(facts_view(identity_facts@) =~= seq![("Storage"@, "IndexedDB-backed local identity persistence"@, None), ("Auth Path"@, "Certificate challenge/response over WebSocket"@, None)]);
        let identity_panel = PanelModel {
            title: string_of("Browser Identity"),
            pill: PillModel::idle("No key imported"),
            description: Some(string_of("Import a PEM client certificate and private key. The browser stores the identity locally so you do not need to re-import it every time.")),
            facts: identity_facts,
        };
        let workspace_facts = vec![
            fact("Preferred Stack", "Leptos + shared UI-model/state crates", None),
            fact("Shared State", "Protocol, view-models, and theme semantics shared across TUI and WebUI", None),
        ];
        assert(facts_view(workspace_facts@) =~= seq![("Preferred Stack"@, "Leptos + shared UI-model/state crates"@, None), ("Shared State"@, "Protocol, view-models, and theme semantics shared across TUI and WebUI"@, None)]);
        let workspace_panel = PanelModel {
            title: string_of("Application Surface"),
            pill: PillModel::idle("Bootstrap mode"),
            description: Some(string_of("The next phase of the WebUI will render sessions, agents, providers, cron, and credentials over the same authenticated WS control plane used by native clients.")),
            facts: workspace_facts,
        };
        let steps = vec![
            step("1. Verify the gateway", "Use the public health endpoint and CA bundle to confirm you are connecting to the intended cluster."),
            step("2. Import client identity", "Drop or select PEM certificate and private key files, then persist them locally in the browser."),
            step("3. Authenticate over WS", "The browser authenticates over the bootstrap WebSocket and then moves onto the authenticated app control plane."),
        ];
        assert(steps@.map_values(|s: BootstrapStep| (s.title@, s.body@)) =~= seq![
            ("1. Verify the gateway"@, "Use the public health endpoint and CA bundle to confirm you are connecting to the intended cluster."@),
            ("2. Import client identity"@, "Drop or select PEM certificate and private key files, then persist them locally in the browser."@),
            ("3. Authenticate over WS"@, "The browser authenticates over the bootstrap WebSocket and then moves onto the authenticated app control plane."@),
        ]);
        let nav_items = vec![
            string_of("Sessions"),
            string_of("Agents"),
            string_of("Providers"),
            string_of("Credentials"),
            string_of("Cron"),
        ];
        assert(nav_items@.map_values(|s: String| s@) =~= seq!["Sessions"@, "Agents"@, "Providers"@, "Credentials"@, "Cron"@]);
        BootstrapShellModel { hero, gateway_panel, identity_panel, workspace_panel, steps, nav_items }
    }
}

} // verus!
