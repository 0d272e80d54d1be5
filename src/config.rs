//! The settings that the writer and the reader are given.
use vstd::prelude::*;

verus! {

/// Ceiling on the declared body length that the reader accepts (10 MiB).
pub const FILE_SIZE_LIMIT: usize = 10485760;

/// Compression level that the writer uses unless told otherwise.
pub const COMPRESSION_LEVEL: u8 = 3;

/// Highest compression level the codec offers.
pub const MAX_COMPRESSION_LEVEL: u8 = 22;

/// The store's settings.
#[derive(Debug, Clone, Copy, PartialEq, Eq, Structural)]
pub struct StoreConfig {
    /// Largest body length, in bytes, that a header may declare.
    pub file_size_limit: usize,
    /// Compression level, 0 (the codec's default) to 22.
    pub compression_level: u8,
}

impl StoreConfig {
    /// The level is one the codec offers.
    pub open spec fn wf(&self) -> bool {
        self.compression_level <= MAX_COMPRESSION_LEVEL
    }

    /// Settings with the given ceiling and level; `None` if the level is
    /// above 22.
    pub fn new(file_size_limit: usize, compression_level: u8) -> (r: Option<StoreConfig>)
        ensures
            compression_level <= MAX_COMPRESSION_LEVEL ==> r == Some(
                StoreConfig { file_size_limit, compression_level },
            ),
            compression_level > MAX_COMPRESSION_LEVEL ==> r is None,
    {
        if compression_level <= MAX_COMPRESSION_LEVEL {
            Some(StoreConfig { file_size_limit, compression_level })
        } else {
            None
        }
    }
}

impl Default for StoreConfig {
    fn default() -> (r: StoreConfig)
        ensures
            r == (StoreConfig {
                file_size_limit: FILE_SIZE_LIMIT,
                compression_level: COMPRESSION_LEVEL,
            }),
    {
        StoreConfig { file_size_limit: FILE_SIZE_LIMIT, compression_level: COMPRESSION_LEVEL }
    }
}

} // verus!
