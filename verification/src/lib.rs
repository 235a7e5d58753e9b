//! A stable, namespaced on-disk location for an application's configuration
//! and log data, plus a small template engine that renders a human-readable
//! identity string (name, version, build provenance) for display.

pub mod decimal;
pub mod paths;
pub mod product;
pub mod registry;
pub mod templates;

pub use paths::application_directory;
pub use paths::config_path;
pub use paths::configs_root;
pub use paths::data_root;
pub use paths::log_path;
pub use paths::log_path_at;
pub use paths::logs_root;
pub use paths::DirKind;
pub use paths::PathError;
pub use paths::DEFAULT_PRODUCT_BASE;
pub use product::BuildAgent;
pub use product::BuildProvenance;
pub use product::ProductName;
pub use registry::RegisterError;
pub use registry::Registry;
pub use templates::render;
pub use templates::DESCRIPTOR_DEFAULT;
pub use templates::DESCRIPTOR_DEFAULT_DIRTY;
pub use templates::DESCRIPTOR_FULL;
pub use templates::DESCRIPTOR_GIT_REF_SHORT;
pub use templates::DESCRIPTOR_LONG;
pub use templates::DESCRIPTOR_SHORT;
pub use templates::DESCRIPTOR_USER_AGENT;
