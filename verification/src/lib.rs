//! The interactive line reader of a shell: command line editing with undo, kill buffer, history
//! search, autosuggestions, tab completion, abbreviations and the pager, as a state machine.
//!
//! The reader works on plain values. What only the surrounding shell can tell (where a token
//! starts, what a script printed, which completions exist) is handed in as arguments; what the
//! shell has to carry out (paint, run an event handler, add to the kill ring) is queued as
//! [`action::Action`] values, in the order in which it is to happen.

pub mod abbreviation;
pub mod abbreviation_laws;
pub mod action;
pub mod bracket_laws;
pub mod cancel_laws;
pub mod choice;
pub mod command;
pub mod command_laws;
pub mod completion;
pub mod completion_laws;
pub mod cursor;
pub mod data;
pub mod edit;
pub mod edit_laws;
pub mod event;
pub mod event_laws;
pub mod execution_laws;
pub mod finish;
pub mod flags;
pub mod highlight;
pub mod history_pager;
pub mod host;
pub mod import;
pub mod jump_laws;
pub mod kill_laws;
pub mod laws;
pub mod layout;
pub mod line;
pub mod motion;
pub mod motion_laws;
pub mod pager;
pub mod paging;
pub mod paging_laws;
pub mod paint;
pub mod paint_laws;
pub mod prompt;
pub mod prompt_laws;
pub mod readline;
pub mod recall;
pub mod rewrite;
pub mod rewrite_laws;
pub mod script;
pub mod search;
pub mod search_laws;
pub mod state;
pub mod suggestion;
pub mod suggestion_laws;
pub mod term;
pub mod text;
pub mod tty;
pub mod unicode;
pub mod world;
pub mod world_laws;
