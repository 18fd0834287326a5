//! Verified core of the RockBot terminal interface: navigation state, form
//! states, the keybinding grammar, text editing and small text codecs.

pub mod actions;
pub mod active_chat;
pub mod agent_config;
pub mod agent_form;
pub mod agent_records;
pub mod animation;
pub mod app_state;
pub mod chat_input;
pub mod chat_send;
pub mod chat_state;
pub mod chat_view;
pub mod codec;
pub mod cron_jobs;
pub mod dashboard_detail;
pub mod credential_forms;
pub mod dispatch;
pub mod editor;
pub mod editor_lines;
pub mod effect;
pub mod form_keys;
pub mod gateway_events;
pub mod geometry;
pub mod input;
pub mod keybindings;
pub mod key_router;
pub mod keys;
pub mod laws;
pub mod line_edit;
pub mod menu;
pub mod modal_keys;
pub mod modes;
pub mod navigation;
pub mod overlay_keys;
pub mod model;
pub mod permission_form;
pub mod permission_rules;
pub mod provider_form;
pub mod provider_save;
pub mod schemas;
pub mod session_form;
pub mod session_records;
pub mod slots;
pub mod text;
pub mod ui_laws;
pub mod ui_model;
pub mod vault_results;
pub mod view_keys;
pub mod widgets;
