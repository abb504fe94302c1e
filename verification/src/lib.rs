//! Orderly keeps folders tidy. A rule set names folders; each folder has
//! rules; each rule has conditions that select files and actions that move,
//! copy, delete or sort them.
//!
//! The library decides and never touches the file system. A pass over the
//! rule set is a machine: [`pass::run_orderly`] takes the reply to what the
//! step before asked for and says what to do next, until the pass is done.
//! The caller performs the requests.
//!
//! - [`config`]: the rule set.
//! - [`conditions`]: which files a rule selects.
//! - [`effects`]: requests, replies and steps.
//! - [`actions`]: the plans of the four file operations.
//! - [`handlers`]: what an action of a rule means for a file.
//! - [`engine`]: the scan of one rule over one folder.
//! - [`pass`]: one pass over all folders.
//! - [`watch`]: when to start a pass.
//! - [`laws`] and [`progress`]: what holds of every pass.
//! - [`paths`] and [`text`]: paths and text as sequences of characters.
//! - [`error`]: the failures and their renderings.

pub mod actions;
pub mod conditions;
pub mod config;
pub mod effects;
pub mod engine;
pub mod error;
pub mod handlers;
pub mod laws;
pub mod pass;
pub mod paths;
pub mod progress;
pub mod text;
pub mod watch;
