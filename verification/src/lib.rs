//! Locating and invoking an external `ffprobe` executable.
//!
//! The library has two halves.  The locator computes the path of a sidecar
//! binary expected next to the running program's own executable and decides
//! whether to use it or to fall back to a bare name resolved through the
//! system's executable search path.  The command builder accumulates an
//! ordered argument list for an `ffprobe` invocation.
//!
//! All filesystem and process work (reading the current executable's path,
//! existence checks, launching) stands with the caller: every function here
//! takes the outcome of such a step as a plain value and is verified for
//! every value of it.

pub mod command;
pub mod locator;

pub use command::FfprobeCommand;
pub use locator::EffectivePath;
pub use locator::ProbeError;
pub use locator::ffprobe_is_installed;
pub use locator::ffprobe_path;
pub use locator::ffprobe_sidecar_path;
pub use locator::ffprobe_version;
pub use locator::ffprobe_version_with_path;
pub use locator::version_command;
