//! The arguments of the command-line tools, as plain values. Reading them
//! from a command line is left to the program that does so.

use log::LevelFilter;
use vstd::prelude::*;

verus! {

#[verifier::external_type_specification]
#[verifier::external_body]
pub struct ExLevelFilter(LevelFilter);

/// Run the scrutiny shell.
#[derive(Debug, PartialEq)]
pub struct ScrutinyShellCommand {
    /// The command to run, where the shell is not to be interactive.
    pub command: Option<String>,
}

/// Run a test suite.
#[derive(Debug, PartialEq)]
pub struct TestCommand {
    /// test timeout
    pub timeout: Option<u32>,
    /// test url
    pub test_url: String,
    /// a glob pattern for matching tests
    pub test_filter: Option<String>,
    /// list tests in the suite
    pub list: bool,
    /// run tests that have been marked disabled/ignored
    pub run_disabled: bool,
    /// run tests in parallel
    pub parallel: Option<u16>,
    /// number of times to run the test; once where it is not given
    pub count: Option<u16>,
}

impl TestCommand {
    /// The number of times to run the test.
    pub open spec fn spec_iterations(&self) -> u16 {
        match self.count {
            Some(count) => count,
            None => 1,
        }
    }

    /// The number of times to run the test.
    #[verifier::when_used_as_spec(spec_iterations)]
    pub fn iterations(&self) -> (count: u16)
        ensures
            count == self.spec_iterations(),
    {
        match self.count {
            Some(count) => count,
            None => 1,
        }
    }
}

/// The size of one block of the ramdisk where none is given, in bytes.
pub const DEFAULT_RAMDISK_BLOCK_SIZE: u64 = 512;

/// The number of blocks in the ramdisk where none is given: 106 MiB.
pub const DEFAULT_RAMDISK_BLOCK_COUNT: u64 = 217088;

/// The size of one slice in the volume manager where none is given, in bytes.
pub const DEFAULT_FVM_SLICE_SIZE: u64 = 32768;

/// Creates an instance of the volume manager and performs stressful
/// operations on it.
#[derive(Clone, Debug)]
pub struct Args {
    /// seed to use for this stressor instance
    pub seed: Option<u128>,
    /// number of operations to complete before exiting.
    pub num_operations: Option<u64>,
    /// filter logging by level (off, error, warn, info, debug, trace)
    pub log_filter: Option<LevelFilter>,
    /// size of one block of the ramdisk (in bytes)
    pub ramdisk_block_size: u64,
    /// number of blocks in the ramdisk
    pub ramdisk_block_count: u64,
    /// size of one slice in FVM (in bytes)
    pub fvm_slice_size: u64,
    /// controls how often blobfs is disconnected by crashing the block
    /// device.
    pub disconnect_secs: Option<u64>,
    /// if set, the test runs for this time limit before exiting
    /// successfully.
    pub time_limit_secs: Option<u64>,
}

impl Args {
    /// The arguments of a run for which nothing was given: the ramdisk and
    /// the slices have their default sizes, and nothing else is set.
    pub fn new() -> (args: Args)
        ensures
            args.seed is None,
            args.num_operations is None,
            args.log_filter is None,
            args.ramdisk_block_size == DEFAULT_RAMDISK_BLOCK_SIZE,
            args.ramdisk_block_count == DEFAULT_RAMDISK_BLOCK_COUNT,
            args.fvm_slice_size == DEFAULT_FVM_SLICE_SIZE,
            args.disconnect_secs is None,
            args.time_limit_secs is None,
    {
        Args {
            seed: None,
            num_operations: None,
            log_filter: None,
            ramdisk_block_size: DEFAULT_RAMDISK_BLOCK_SIZE,
            ramdisk_block_count: DEFAULT_RAMDISK_BLOCK_COUNT,
            fvm_slice_size: DEFAULT_FVM_SLICE_SIZE,
            disconnect_secs: None,
            time_limit_secs: None,
        }
    }
}

} // verus!
