//! Batch image compression, verified: file discovery with incremental
//! common-base-path inference, deterministic output-path resolution,
//! orientation-aware resize derivation, and a per-file pipeline that applies
//! the overwrite policy around an external codec. Filesystem work is the
//! caller's: the pipeline asks for it one action at a time and is fed back
//! what was observed.

pub mod batch;
pub mod compressor;
pub mod fpath;
pub mod logger;
pub mod options;
pub mod scan_files;
pub mod scanfiles;
pub mod sniff;
