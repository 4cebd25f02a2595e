//! The options that a database is opened with.

use vstd::prelude::*;

verus! {

/// Configuration options for the database.
#[derive(Clone, Copy, Debug, PartialEq, Eq)]
pub struct SystemConfig {
    /// Max size of the buffer pool in bytes; 0 lets the engine choose.
    pub buffer_pool_size: u64,
    /// The most threads that a query uses; 0 lets the engine choose.
    pub max_num_threads: u64,
    /// When true, new columns are compressed where possible.
    pub enable_compression: bool,
    /// When true, the database cannot be written to from this instance.
    pub read_only: bool,
    /// The maximum size of the database in bytes.
    pub max_db_size: u64,
    /// When true, the database makes a checkpoint by itself once the
    /// write-ahead log grows beyond the threshold.
    pub auto_checkpoint: bool,
    /// The size of the write-ahead log in bytes beyond which a checkpoint
    /// is made; -1 lets the engine choose.
    pub checkpoint_threshold: i64,
}

impl Default for SystemConfig {
    fn default() -> (r: SystemConfig)
        ensures
            r == (SystemConfig {
                buffer_pool_size: 0,
                max_num_threads: 0,
                enable_compression: true,
                read_only: false,
                max_db_size: 0xffff_ffff,
                auto_checkpoint: true,
                checkpoint_threshold: -1i64,
            }),
    {
        SystemConfig {
            buffer_pool_size: 0,
            max_num_threads: 0,
            enable_compression: true,
            read_only: false,
            max_db_size: 0xffff_ffff,
            auto_checkpoint: true,
            checkpoint_threshold: -1i64,
        }
    }
}

impl SystemConfig {
    /// The same options with another size of the buffer pool.
    pub fn buffer_pool_size(self, buffer_pool_size: u64) -> (r: SystemConfig)
        ensures
            r == (SystemConfig { buffer_pool_size, ..self }),
    {
        SystemConfig { buffer_pool_size, ..self }
    }

    /// The same options with another number of threads.
    pub fn max_num_threads(self, max_num_threads: u64) -> (r: SystemConfig)
        ensures
            r == (SystemConfig { max_num_threads, ..self }),
    {
        SystemConfig { max_num_threads, ..self }
    }

    /// The same options with compression switched on or off.
    pub fn enable_compression(self, enable_compression: bool) -> (r: SystemConfig)
        ensures
            r == (SystemConfig { enable_compression, ..self }),
    {
        SystemConfig { enable_compression, ..self }
    }

    /// The same options with writing allowed or forbidden.
    pub fn read_only(self, read_only: bool) -> (r: SystemConfig)
        ensures
            r == (SystemConfig { read_only, ..self }),
    {
        SystemConfig { read_only, ..self }
    }

    /// The same options with another maximum size of the database.
    pub fn max_db_size(self, max_db_size: u64) -> (r: SystemConfig)
        ensures
            r == (SystemConfig { max_db_size, ..self }),
    {
        SystemConfig { max_db_size, ..self }
    }

    /// The same options with checkpoints by the database itself switched
    /// on or off.
    pub fn auto_checkpoint(self, auto_checkpoint: bool) -> (r: SystemConfig)
        ensures
            r == (SystemConfig { auto_checkpoint, ..self }),
    {
        SystemConfig { auto_checkpoint, ..self }
    }

    /// The same options with another checkpoint threshold.
    pub fn checkpoint_threshold(self, checkpoint_threshold: i64) -> (r: SystemConfig)
        ensures
            r == (SystemConfig { checkpoint_threshold, ..self }),
    {
        SystemConfig { checkpoint_threshold, ..self }
    }
}

} // verus!
