//! Interactive desktop-environment switcher: the profile catalog, resolution
//! of the running desktop to a profile, the selection session with its
//! two-step input flow, output-path validation and script synthesis.

pub mod catalog;
pub mod discovery;
pub mod path_check;
pub mod profile;
pub mod script;
pub mod session;
pub mod text;

pub use catalog::{
    catalog_entry, catalog_profile_names, display_manager_for, install_group_for,
    package_manager_name, CATALOG_LEN, PKG_MANAGER_COUNT, SENTINEL_PROFILE,
};
pub use discovery::{desktop_from_session, get_available_des};
pub use path_check::{parent_dir, validate, PathError};
pub use profile::{
    filename_fragment, generate_initial_filename, map_raw_de_to_profile, resolve_uppercased,
};
pub use script::{generate, SCRIPT_NAME_PLACEHOLDER};
pub use session::{App, AppStep, Flow, Key};
pub use text::{contains_str, ends_with_str, starts_with_str, str_equal};
