//! The decisions behind starting child agents from a conversation, the card that asks the user
//! to confirm an orchestration, and the repository picker of a tab configuration.

pub mod agent;
pub mod branch_picker;
pub mod by_action;
pub mod card;
pub mod card_laws;
pub mod keymap;
pub mod launch;
pub mod launch_laws;
pub mod orchestrate;
pub mod orchestrate_laws;
pub mod outcome;
pub mod picker_laws;
pub mod repo_picker;
pub mod start_agent;
pub mod start_agent_laws;
pub mod startup;
pub mod startup_laws;
pub mod text;
