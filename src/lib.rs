//! Runs an external program with its standard streams wired by a declarative
//! policy, and hands its outcome back through a single-resolution handle that
//! reports the first failure of any of its background tasks, once.

mod trusted;
pub mod commands;
pub mod error;
pub mod future;
pub mod policy;
pub mod status;
pub mod tasks;

pub use commands::sort_cmd;
pub use error::{ExitMessage, ProcessAsyncError};
pub use future::{ChildStream, FutureExitResult};
pub use policy::{
    consumer_plan, output, output_wiring, process_reader_args, reader_plan, DealWithOutput,
    LaunchPlan, Output, ProcessReaderArgs, Wiring,
};
pub use status::{exit_status_result, exit_success, resolve_received};
pub use tasks::{
    caught_panic_message, caught_panic_to_io_error, send_or_log_result, stdin_report, wait_report,
    PanicPayload, TaskOutcome,
};
