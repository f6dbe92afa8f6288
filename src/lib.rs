//! Renders a one-line shell prompt: the working directory, the current git
//! branch, the last command's duration and its exit status, with escape
//! sequences suited to the target shell.

mod text;

pub mod duration;
pub mod escape;
pub mod init;
pub mod input;
pub mod path;
pub mod prompt;
pub mod vcs;

pub use duration::humanize_duration;
pub use escape::{Attribute, Color, Shell};
pub use init::{init_args, init_script};
pub use input::{elapsed_seconds_validator, exit_code_nonzero, parse_seconds};
pub use path::{abbreviate, PathMode};
pub use prompt::{display_path, render_prompt, PromptInvocation, MIN_CMD_EXEC_SECS};
pub use vcs::{
    branch_from, branch_from_head_file, branch_name_from_ref, dir_name, head_state_of, Git,
    HeadState,
};
