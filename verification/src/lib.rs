//! Safe access to hardware performance counters: the one-time initialisation
//! protocol of the native counter library, named event-set presets read from
//! configuration text, and the rescaling of counter samples for benchmark
//! reports.

pub mod attempt;
pub mod config;
pub mod document;
pub mod error;
pub mod init;
pub mod sample_formatter;

pub use attempt::{Attempt, NativeReplies};
pub use config::Config;
pub use document::Node;
pub use error::{check, ErrorKind, ErrorView, PAPI_OK};
pub use init::{
    InitEvent, InitGuard, InitPhase, InitState, InitStep, InitStepView, NativeCall, Papi,
    PAPI_LOW_LEVEL_INITED,
};
pub use sample_formatter::{SampleFormatter, Throughput};
