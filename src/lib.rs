//! Verified core of the DreamCanvas desktop shell: project and settings
//! documents, content checksums, and the decisions of the backend supervisor.
//!
//! Everything that touches the disk, the clock, the environment or a child
//! process lives in the application around this crate; the functions here take
//! what was read as plain values and say exactly what is to be written or done.

pub mod backend;
pub mod checksum;
pub mod project;
pub mod settings;
pub mod text;

pub use backend::{
    backend_args, python_bin, BackendManager, BackendStartedEvent, BackendStatus,
    BackendStoppedEvent, Observation, StartStep, SupervisorView,
};
pub use checksum::compute_checksum;
pub use project::{
    AssetPayload, GenerationRecord, ProjectManager, ProjectManifest, ProjectPayload,
    ProjectSummary, ScannedProject,
};
pub use settings::{normalize_settings, settings_file, AppSettings, SettingsManager, SettingsView};
