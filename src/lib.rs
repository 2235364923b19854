//! Takes the console log out of a running editor process: the format in
//! which the injected payload hands the log over, the lifecycle of one
//! attach, the decisions of the code injector, and the document the log is
//! saved as.
pub mod cls_file;
pub mod injector;
pub mod invoker;
pub mod packages;
pub mod payload;
pub mod process_remote;
pub mod processes;
pub mod redact;
pub mod saver;
pub mod session;
pub mod text;
pub mod transfer;
pub mod version;
pub mod wire;

pub use processes::UnityProcess;
pub use saver::run_console_log_saver;
use vstd::prelude::*;

verus! {

/// A process identifier.
pub type ProcessId = u64;

/// What to hide in the saved log.
#[derive(Debug, Clone, Copy)]
pub struct ConsoleLogSaverConfig {
    pub hide_user_name: bool,
    pub hide_user_home: bool,
    pub hide_os_info: bool,
    pub hide_aws_upload_signature: bool,
}

impl Default for ConsoleLogSaverConfig {
    /// Hides the user's name and home directory and upload signatures, and
    /// keeps the OS description.
    fn default() -> (r: Self)
        ensures
            r.hide_user_name,
            r.hide_user_home,
            !r.hide_os_info,
            r.hide_aws_upload_signature,
    {
        ConsoleLogSaverConfig {
            hide_user_name: true,
            hide_user_home: true,
            hide_os_info: false,
            hide_aws_upload_signature: true,
        }
    }
}

} // verus!
