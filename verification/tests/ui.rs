use rockbot_tui::menu::{CredentialsTab, MenuItem};
use rockbot_tui::model::{AccessLevel, AgentStatus, ChatMessage, ChatRole, PermissionSource, UnlockMethod};
use rockbot_tui::schemas::ProviderAuthType;
use rockbot_tui::slots::{CardWidgetId, SlotKind, SlottedCardBar};
use rockbot_tui::ui_model::{BootstrapShellModel, PillModel, StatusTone};

#[test]
fn menu_items_roundtrip() {
    let all = MenuItem::all();
    assert_eq!(all.len(), 7);
    for (i, m) in all.iter().enumerate() {
        assert_eq!(m.index(), i);
        assert_eq!(MenuItem::from_index(i), *m);
    }
    assert_eq!(MenuItem::CronJobs.title(), "Cron Jobs");
    assert_eq!(MenuItem::from_index(99), MenuItem::Credentials);
    assert_eq!(MenuItem::from_index(13), MenuItem::Settings);
}

#[test]
fn credential_tabs_roundtrip() {
    for (i, t) in CredentialsTab::all().iter().enumerate() {
        assert_eq!(t.index(), i);
        assert_eq!(CredentialsTab::from_index(i), *t);
    }
}

#[test]
fn slot_bar_starts_on_dashboard() {
    let bar = SlottedCardBar::new();
    assert_eq!(bar.mode, 0);
    assert_eq!(bar.active_slot, 0);
    assert_eq!(bar.slots[0].kind, SlotKind::ModeSelector);
    assert_eq!(bar.slots[0].label, "Dashboard");
    assert_eq!(bar.active_widget(), None);
}

#[test]
fn slot_bar_selection_stays_in_range() {
    let mut bar = SlottedCardBar::new();
    bar.select_left();
    assert_eq!(bar.active_slot, 0);
    for _ in 0..50 {
        bar.select_right();
    }
    assert_eq!(bar.active_slot, bar.slots.len() - 1);
}

#[test]
fn slot_bar_mode_cycles_and_alerts_stay_last() {
    let mut bar = SlottedCardBar::new();
    bar.cycle_down(&Vec::new(), &Vec::new());
    assert_eq!(bar.current_mode(), MenuItem::Credentials);
    let last = bar.slots.last().unwrap();
    assert_eq!(last.views[0].widget, CardWidgetId::Alerts);
    bar.cycle_up(&Vec::new(), &Vec::new());
    assert_eq!(bar.current_mode(), MenuItem::Dashboard);
}

#[test]
fn labels() {
    assert_eq!(AgentStatus::Active.label(), "Active");
    assert_eq!(AccessLevel::AllowHil2fa.short_label(), "2FA");
    assert_eq!(AccessLevel::AllowHil2fa.label(), "Allow HIL+2FA");
    assert_eq!(PermissionSource::Agent("main".to_string()).label(), "Agent: main");
    assert!(UnlockMethod::Password.requires_input());
    assert_eq!(ProviderAuthType::from_auth_method_id("aws_credentials"), ProviderAuthType::AwsCredentials);
}

#[test]
fn chat_message_constructors() {
    let m = ChatMessage::user("hi".to_string());
    assert_eq!(m.role, ChatRole::User);
    assert_eq!(m.timestamp.as_ref().map(|t| t.len()), Some(8));
    let s = ChatMessage::system("note".to_string());
    assert_eq!(s.timestamp, None);
}

#[test]
fn ui_model_pills() {
    assert_eq!(StatusTone::Okay.css_class(), "pill-ok");
    let p = PillModel::idle("Gateway");
    assert_eq!(p.label, "Gateway");
    let shell = BootstrapShellModel::default();
    assert!(!shell.steps.is_empty());
}
