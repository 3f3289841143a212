//! Packages a standalone executable, and optionally an icon, into a macOS
//! application bundle.
//!
//! The library holds the bundle's logic: the outcome codes, the text of the
//! generated files, the bundle's layout, and the bundling procedure as a state
//! machine whose actions a caller performs on the file system.
//!
//! A caller starts a run with `Bundler::new`, then repeatedly performs
//! `Bundler::action` and reports whether it succeeded with `Bundler::advance`,
//! until the action is `Action::Finish`, which carries the outcome. A run
//! stops at the first failure and undoes nothing.
pub mod exit_code;
pub mod template;
pub mod paths;
pub mod bundler;

pub use paths::{is_icns, ICON_EXT};
pub use bundler::{Action, Bundler, DataParsed, LAUNCHER_MODE};

pub use exit_code::ExitCode;
pub use template::{create_launch_context, create_plist};
