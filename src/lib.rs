//! Mirrors per-package metadata of a package registry onto a local tree.
//!
//! The library holds the decisions of the mirroring engine: where a package's
//! metadata goes, whether a cached copy is still fresh, what one package's
//! task does next, and how the dispatcher bounds and drains its workers.
//! Reading directories, talking to the registry and running threads are left
//! to the caller, which reports what it saw as plain values.
pub mod config;
pub mod dispatch;
pub mod freshness;
pub mod model;
pub mod path;
pub mod task;
pub mod walk;

pub use config::{merge_configs, ConfigError, FileConfig, FlagConfig, MainConfig};
pub use dispatch::{DispatchStep, Dispatcher};
pub use freshness::{check_metadata_file, is_fresh, CacheLookup};
pub use model::{known_versions, Crate, CrateMetadata, Version};
pub use path::{build_new_path, shard_path, DirPath};
pub use task::{metadata_file_name, CrateTask, TaskAction, TaskEvent, TaskOutcome, TaskStage};
pub use walk::{is_short_shard, DirEntry, Level, PackageJob, Walker};
