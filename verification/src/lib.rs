//! A package-manager front end for several Linux distributions: the verified
//! core that reads the command line and `/etc/os-release`, picks a backend
//! (`apt`, `pacman` or `xbps`) and turns an action into the commands to run.
pub mod action;
pub mod backends;
pub mod chooser;
pub mod cli;
pub mod env;
pub mod host;
pub mod kind;
pub mod kv;
pub mod plan;
pub mod text;

pub use action::{is_single_package_install, single_package_name, Action, Package, PackageName};
pub use backends::{
    make_backend, run, AnyBackend, AptBackend, Backend, PacmanBackend, RunPlan, XbpsBackend,
};
pub use chooser::{Chooser, ChooserAction, ChooserError, ChooserEvent, ChooserPhase};
pub use cli::{
    action_from_op, config_candidates, menu_line, menu_order, needs_backend_prompt,
    parse_backend_kind, parse_choice, parse_command_line, pick_backend, preview_lines, shown_hits,
    CliError, CliRequest,
};
pub use env::{kernel_from_output, os_release_to_map, parse_os_release, unquote, EnvInfo, OsReleaseFields};
pub use host::{
    any_found, backend_available, backend_probes, bootstrap_finish, bootstrap_step, command_exists,
    finish_verdict, tool_label, try_bootstrap_backend_tools, BootstrapError, BootstrapStep,
};
pub use kind::BackendKind;
pub use kv::KvMap;
pub use plan::{recipe, resolve, with_sudo, Alternative, BackendError, Invocation, Recipe};
