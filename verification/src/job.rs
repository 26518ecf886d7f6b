//! The resolved configuration of one run.
//!
//! A job is built once at startup and is immutable for the run. Target
//! dimensions must be positive; a zero dimension is a configuration error
//! caught here, before any file is touched.

use vstd::prelude::*;

verus! {

/// A fatal configuration error: the run aborts before any candidate is
/// processed.
#[derive(Clone, Copy, Debug, PartialEq, Eq, Structural)]
pub enum ConfigError {
    /// The target width is zero.
    ZeroWidth,
    /// The target height is zero.
    ZeroHeight,
}

/// The configuration of one run: where to read, where to write, the exact
/// target dimensions, and the extension filter (empty means: select every
/// file).
#[derive(Debug)]
pub struct Job {
    pub input_dir: String,
    pub output_dir: String,
    pub width: u32,
    pub height: u32,
    pub filter_ext: String,
}

impl Job {
    /// A well-formed job has positive target dimensions.
    pub open spec fn wf(&self) -> bool {
        self.width >= 1 && self.height >= 1
    }

    /// Builds the configuration, rejecting zero dimensions; a zero width is
    /// reported before a zero height.
    pub fn new(
        input_dir: String,
        output_dir: String,
        width: u32,
        height: u32,
        filter_ext: String,
    ) -> (r: Result<Job, ConfigError>)
        ensures
            match r {
                Ok(job) => {
                    &&& width >= 1 && height >= 1
                    &&& job.wf()
                    &&& job.input_dir@ == input_dir@
                    &&& job.output_dir@ == output_dir@
                    &&& job.width == width
                    &&& job.height == height
                    &&& job.filter_ext@ == filter_ext@
                },
                Err(e) => {
                    &&& (e == ConfigError::ZeroWidth <==> width == 0)
                    &&& (e == ConfigError::ZeroHeight <==> width != 0 && height == 0)
                },
            },
    {
        if width == 0 {
            Err(ConfigError::ZeroWidth)
        } else if height == 0 {
            Err(ConfigError::ZeroHeight)
        } else {
            Ok(Job { input_dir, output_dir, width, height, filter_ext })
        }
    }
}

} // verus!
