//! Staging of firmware updates for the next boot: hardware identity, the
//! supported-model gate, the pointer cache's decisions, manifest lookups and
//! the staging and cancellation protocols.

mod cache;
mod error;
mod identity;
mod manifest;
mod models;
mod stage;
mod timestamp;

pub use cache::{cache_accepts_spec, cache_next, lemma_fetch_only_when_stale, CacheAction, CacheEvent, CacheState};
pub use error::{err_str, FirmwareError};
pub use identity::{firmware_id, firmware_id_spec, lemma_firmware_id_parts, sha256_hex};
pub use manifest::{
    firmware_file, is_first_entry, manifest_entries_of, payload_digest, resolve_manifest, ManifestRecord,
    UPDATER_FILE,
};
pub use models::{check_model, is_supported_model, model_is_whitelisted};
pub use stage::{
    after, all_succeed, apply, lemma_failed_commit, lemma_schedule_never_flags_partial, lemma_schedule_succeeds,
    lemma_unschedule_idempotent, schedule_inv, schedule_next, schedule_run, unschedule_next, unschedule_run,
    BootWorld, ScheduleState, StageAction, UnscheduleState,
};
pub use timestamp::{exceeded, exceeded_spec, lemma_staleness_boundary};
