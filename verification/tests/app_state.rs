use rockbot_tui::app_state::{AppState, Message, MAX_ALERTS};
use rockbot_tui::menu::MenuItem;
use rockbot_tui::model::{AgentInfo, AgentStatus, ChatRole, CronJobInfo, SessionInfo, ToolCallInfo};
use rockbot_tui::modes::{ContextFileInfo, ContextMenuAction, InputMode, ViewContextFilesState};
use rockbot_tui::slots::AlertSeverity;

fn state() -> AppState {
    AppState::new(
        "/etc/rockbot.toml".to_string(),
        "/var/vault".to_string(),
        "/home/user".to_string(),
        "ws://localhost:8080/ws".to_string(),
        "http://localhost:8080".to_string(),
    )
}

fn session(key: &str) -> SessionInfo {
    SessionInfo {
        key: key.to_string(),
        agent_id: "main".to_string(),
        channel: None,
        started_at: None,
        message_count: 0,
        model: None,
    }
}

fn agent(id: &str) -> AgentInfo {
    AgentInfo {
        id: id.to_string(),
        model: None,
        status: AgentStatus::Active,
        session_count: 0,
        parent_id: None,
        system_prompt: None,
        workspace: None,
        max_tool_calls: None,
        temperature: None,
        max_tokens: None,
        enabled: true,
    }
}

fn job(id: &str, enabled: bool) -> CronJobInfo {
    CronJobInfo {
        id: id.to_string(),
        name: id.to_string(),
        enabled,
        agent_id: None,
        schedule: "* * * * *".to_string(),
        last_run: None,
        last_status: None,
        next_run: None,
    }
}

fn tool(expanded: bool) -> ToolCallInfo {
    ToolCallInfo {
        tool_name: "exec".to_string(),
        arguments: "{}".to_string(),
        result: "ok".to_string(),
        success: true,
        duration_ms: 5,
        expanded,
    }
}

#[test]
fn new_state_starts_on_dashboard() {
    let s = state();
    assert_eq!(s.menu_item, MenuItem::Dashboard);
    assert!(s.gateway_loading);
    assert!(s.agents_loading);
    assert!(!s.sessions_loading);
    assert!(s.alerts.is_empty());
    assert!(!s.is_capturing_input());
    assert_eq!(s.api_url("/api/agents"), "http://localhost:8080/api/agents");
    assert_eq!(s.ws_url(), "ws://localhost:8080/ws");
}

#[test]
fn navigate_updates_menu_and_slot_bar() {
    let mut s = state();
    s.update(Message::Navigate(MenuItem::Settings));
    assert_eq!(s.menu_item, MenuItem::Settings);
    assert_eq!(s.menu_index, 6);
    assert_eq!(s.slot_bar.mode, 6);
    assert_eq!(s.slot_bar.slots[0].label, "Settings");
    assert!(s.slot_bar.active_slot < s.slot_bar.slots.len());
}

#[test]
fn errors_raise_alerts() {
    let mut s = state();
    s.update(Message::GatewayStatusError("refused".to_string()));
    assert!(!s.gateway_loading);
    assert_eq!(s.gateway_error, Some("refused".to_string()));
    assert_eq!(s.alerts.len(), 1);
    assert_eq!(s.alerts[0].severity, AlertSeverity::Warning);
    assert_eq!(s.alerts[0].source, "gateway");
    assert_eq!(s.alerts[0].message, "refused");
    s.update(Message::VaultError("locked".to_string()));
    assert_eq!(s.alerts[1].severity, AlertSeverity::Error);
    assert_eq!(s.status_message, Some(("locked".to_string(), true)));
}

#[test]
fn alerts_keep_most_recent_hundred() {
    let mut s = state();
    for i in 0..105 {
        s.push_alert(AlertSeverity::Info, "test", format!("alert {i}"));
    }
    assert_eq!(s.alerts.len(), MAX_ALERTS);
    assert_eq!(s.alerts[0].message, "alert 5");
    assert_eq!(s.alerts[99].message, "alert 104");
}

#[test]
fn status_messages_are_formatted() {
    let mut s = state();
    s.update(Message::AgentSaved("main".to_string()));
    assert_eq!(s.status_message, Some(("Agent 'main' saved".to_string(), false)));
    s.update(Message::SessionCreateError("busy".to_string()));
    assert_eq!(
        s.status_message,
        Some(("Failed to create session: busy".to_string(), true))
    );
    s.update(Message::CredentialAdded("hass".to_string()));
    assert_eq!(s.status_message, Some(("✅ Added: hass".to_string(), false)));
    s.update(Message::ClearStatus);
    assert_eq!(s.status_message, None);
}

#[test]
fn streamed_reply_is_finalized_not_duplicated() {
    let mut s = state();
    s.update(Message::ChatStreamChunk("s1:Hel".to_string()));
    assert_eq!(s.session_chats.len(), 1);
    s.session_chats[0].state.loading = true;
    s.update(Message::ChatStreamChunk("s1:lo".to_string()));
    assert_eq!(s.session_chats[0].state.messages.len(), 1);
    assert_eq!(s.session_chats[0].state.messages[0].content, "Hello");
    s.update(Message::ChatResponse("s1".to_string(), "Hello world".to_string()));
    let chat = &s.session_chats[0].state;
    assert_eq!(chat.messages.len(), 1);
    assert_eq!(chat.messages[0].content, "Hello world");
    assert!(!chat.loading);
}

#[test]
fn reply_without_stream_appends_stamped_message() {
    let mut s = state();
    s.update(Message::ChatResponse("s2".to_string(), "Hi".to_string()));
    let chat = &s.session_chats[0].state;
    assert_eq!(s.session_chats[0].key, "s2");
    assert_eq!(chat.messages.len(), 1);
    assert_eq!(chat.messages[0].role, ChatRole::Assistant);
    let ts = chat.messages[0].timestamp.clone().unwrap();
    assert_eq!(ts.len(), 8);
    assert_eq!(&ts[2..3], ":");
}

#[test]
fn chunk_without_colon_is_ignored() {
    let mut s = state();
    s.update(Message::ChatStreamChunk("no separator".to_string()));
    assert!(s.session_chats.is_empty());
}

#[test]
fn chat_error_adds_notice() {
    let mut s = state();
    s.update(Message::ChatError("s1".to_string(), "timeout".to_string()));
    let chat = &s.session_chats[0].state;
    assert_eq!(chat.messages[0].role, ChatRole::System);
    assert_eq!(chat.messages[0].content, "Error: timeout");
    assert_eq!(chat.messages[0].timestamp, None);
}

#[test]
fn token_usage_starts_the_clock_once() {
    let mut s = state();
    s.update(Message::ChatTokenUsage {
        session_key: "s1".to_string(),
        prompt_tokens: 10,
        completion_tokens: 20,
        total_tokens: 30,
        cumulative_total: 30,
    });
    let first = s.session_chats[0].state.thinking.started_at;
    assert!(first.is_some());
    s.update(Message::ChatThinkingStatus {
        session_key: "s1".to_string(),
        phase: "tool".to_string(),
        tool_name: Some("exec".to_string()),
        iteration: Some(2),
    });
    let t = &s.session_chats[0].state.thinking;
    assert_eq!(t.started_at, first);
    assert_eq!(t.completion_tokens, 20);
    assert_eq!(t.phase, "tool");
    assert_eq!(t.iteration, Some(2));
}

#[test]
fn cron_toggle_and_delete() {
    let mut s = state();
    s.update(Message::CronJobsLoaded(vec![job("a", true), job("b", true), job("a", true)]));
    s.update(Message::CronJobToggled("a".to_string(), false));
    assert!(!s.cron_jobs[0].enabled);
    assert!(s.cron_jobs[2].enabled);
    assert_eq!(s.status_message, Some(("Cron job disabled".to_string(), false)));
    s.update(Message::CronJobDeleted("a".to_string()));
    assert_eq!(s.cron_jobs.len(), 1);
    assert_eq!(s.cron_jobs[0].id, "b");
    assert_eq!(s.status_message, Some(("Cron job deleted".to_string(), false)));
}

#[test]
fn context_files_reach_the_open_browser_only() {
    let mut s = state();
    s.input_mode = InputMode::ViewContextFiles(ViewContextFilesState {
        agent_id: "main".to_string(),
        files: Vec::new(),
        selected: 0,
        loading: true,
    });
    let file = ContextFileInfo {
        name: "SOUL.md".to_string(),
        exists: true,
        size_bytes: 12,
        well_known: true,
    };
    s.update(Message::ContextFilesLoaded("other".to_string(), vec![file.clone()]));
    if let InputMode::ViewContextFiles(st) = &s.input_mode {
        assert!(st.loading);
        assert!(st.files.is_empty());
    } else {
        panic!("mode changed");
    }
    s.update(Message::ContextFilesLoaded("main".to_string(), vec![file]));
    if let InputMode::ViewContextFiles(st) = &s.input_mode {
        assert!(!st.loading);
        assert_eq!(st.files.len(), 1);
    } else {
        panic!("mode changed");
    }
    s.update(Message::ContextFileLoaded("main".to_string(), "SOUL.md".to_string(), String::new()));
    if let InputMode::EditContextFile(ed) = &s.input_mode {
        assert!(ed.is_new_file);
        assert_eq!(ed.cursor_line, 0);
    } else {
        panic!("editor not opened");
    }
    assert!(s.is_capturing_input());
}

#[test]
fn tick_wraps_and_quit_exits() {
    let mut s = state();
    s.tick_count = usize::MAX;
    s.update(Message::Tick);
    assert_eq!(s.tick_count, 0);
    s.update(Message::Quit);
    assert!(s.should_exit);
}

#[test]
fn butler_chat_streams_and_finishes() {
    let mut s = state();
    s.butler_chat.messages.push(rockbot_tui::model::ChatMessage::user("hi".to_string()));
    s.update(Message::ButlerChunk("Hel".to_string()));
    s.update(Message::ButlerChunk("lo".to_string()));
    assert_eq!(s.butler_chat.messages.len(), 2);
    assert_eq!(s.butler_chat.messages[1].content, "Hello");
    assert_eq!(s.butler_chat.scroll, usize::MAX);
    s.update(Message::ButlerDone("ignored".to_string()));
    assert_eq!(s.butler_chat.messages.len(), 2);
    assert_eq!(s.butler_chat.messages[1].content, "Hello");
    s.update(Message::ButlerError("down".to_string()));
    assert_eq!(s.butler_chat.messages[2].content, "Butler error: down");
}

#[test]
fn selection_wraps_both_ways() {
    let mut s = state();
    s.update(Message::AgentsLoaded(vec![agent("a"), agent("b"), agent("c")]));
    s.update(Message::Navigate(MenuItem::Agents));
    s.select_prev();
    assert_eq!(s.selected_agent, 2);
    s.select_next();
    assert_eq!(s.selected_agent, 0);
    s.select_next();
    assert_eq!(s.selected_agent, 1);
}

#[test]
fn menu_cycles_through_six_pages() {
    let mut s = state();
    s.menu_prev();
    assert_eq!(s.menu_index, 5);
    assert_eq!(s.menu_item, MenuItem::Models);
    s.menu_next();
    assert_eq!(s.menu_index, 0);
    assert_eq!(s.menu_item, MenuItem::Dashboard);
}

#[test]
fn models_page_cycles_at_least_one_provider() {
    let mut s = state();
    s.update(Message::Navigate(MenuItem::Models));
    assert_eq!(s.model_provider_count(), 1);
    s.select_next();
    assert_eq!(s.selected_provider, 0);
}

#[test]
fn context_menu_per_page() {
    let mut s = state();
    s.update(Message::Navigate(MenuItem::Agents));
    let m = s.build_context_menu();
    assert_eq!(m.items.len(), 5);
    assert_eq!(m.items[0].label, "Add Agent");
    assert_eq!(m.items[3].action, ContextMenuAction::OpenContextFiles);
    assert_eq!(m.position, (2, 6));
    s.update(Message::Navigate(MenuItem::Models));
    let m = s.build_context_menu();
    assert_eq!(m.items.len(), 1);
    assert_eq!(m.items[0].key, 'r');
}

#[test]
fn active_chat_follows_selected_session() {
    let mut s = state();
    assert!(s.active_session_key().is_none());
    assert!(s.chat_messages().is_empty());
    assert!(s.chat_auto_scroll());
    s.update(Message::SessionsLoaded(vec![session("s1"), session("s2")]));
    s.selected_session = 1;
    assert_eq!(s.active_session_key(), Some("s2"));
    assert!(s.active_chat().is_none());
    s.update(Message::ChatResponse("s2".to_string(), "Hi".to_string()));
    assert_eq!(s.chat_messages().len(), 1);
    assert!(!s.chat_loading());
    assert_eq!(s.chat_scroll(), 0);
    if let Some(chat) = s.active_chat_mut() {
        chat.scroll = 4;
    }
    assert_eq!(s.chat_scroll(), 4);
}

#[test]
fn tool_expansion_toggles_all() {
    let mut s = state();
    s.update(Message::SessionsLoaded(vec![session("s1")]));
    s.update(Message::ChatAgentResponse(
        "s1".to_string(),
        "done".to_string(),
        vec![tool(false), tool(true)],
    ));
    s.toggle_tool_expansion();
    let calls = &s.session_chats[0].state.messages[0].tool_calls;
    assert!(calls.iter().all(|c| !c.expanded));
    s.toggle_tool_expansion();
    let calls = &s.session_chats[0].state.messages[0].tool_calls;
    assert!(calls.iter().all(|c| c.expanded));
}

#[test]
fn clear_input_resets_cursor() {
    let mut s = state();
    s.input_buffer = "typed".to_string();
    s.input_cursor = 5;
    s.clear_input();
    assert_eq!(s.input_buffer, "");
    assert_eq!(s.input_cursor, 0);
}
