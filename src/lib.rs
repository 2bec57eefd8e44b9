//! Progressive, interruptible ray-trace scheduling: a generation-tagged job
//! queue, the per-job worker decision, result aggregation into an accumulation
//! buffer, and the controller that invalidates work on camera changes.
//!
//! Colours are held in fixed point (one `u16` per channel, `0xFFFF` is one);
//! rays are opaque to the library and travel through it as a type parameter.

pub mod colour;
pub mod table;
pub mod quality;
pub mod material;
pub mod job;
pub mod worker;
pub mod queue;
pub mod aggregate;
pub mod scheduler;

pub use colour::{Rgb, CHANNEL_ONE};
pub use table::KeyedTable;
pub use quality::{
    get_default_preset, select_preset, QualityPreset, QualityPresetBank,
};
pub use material::{Material, MaterialBank, MaterialKind};
pub use job::{Job, RayJob, RayJobResult};
pub use worker::{
    process_job, sample_background, sample_colour, unit_from_signed, Direction, SceneHit,
    WorkerStep, SIGNED_ONE,
};
pub use queue::JobQueue;
pub use aggregate::ResultAggregator;
pub use scheduler::{get_pixel_index, schedule_work, SchedulerController};
