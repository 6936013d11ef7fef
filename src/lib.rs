pub mod clock;
pub mod context;
pub mod monitor;
pub mod profiler;
pub mod snap;
pub mod text;

pub use context::{About, CorvidContext, CorvidPlugin};
pub use monitor::{Monitor, MonitorIterator, MonitorRecordingGuard, StatsError};
pub use profiler::Profiler;
pub use snap::{Snap, SnapRecordingGuard};
