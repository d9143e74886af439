//! Around the per-file pipeline: sizing the worker pool, turning the parsed
//! command line into the pipeline's configuration, and folding the per-file
//! results into the batch's summary statistics.

use vstd::prelude::*;

use crate::compressor::{CompressionOptions, CompressionResult, CompressionStatus};
use crate::fpath::FilePath;
use crate::options::CommandLineArgs;

verus! {

/// How many workers to run: as many as available when the request is zero,
/// else the request capped at what is available.
pub fn get_parallelism_count(requested_threads: u32, available_threads: usize) -> (r: usize)
    ensures
        requested_threads == 0 ==> r == available_threads,
        requested_threads != 0 ==> r == if requested_threads as usize <= available_threads {
            requested_threads as usize
        } else {
            available_threads
        },
{
    if requested_threads == 0 {
        available_threads
    } else {
        let n = requested_threads as usize;
        if n <= available_threads {
            n
        } else {
            available_threads
        }
    }
}

/// Builds the pipeline's configuration from the parsed command line and the
/// base folder the scanner inferred, field for field.
pub fn build_compression_options(args: &CommandLineArgs, base_path: &FilePath) -> (r:
    CompressionOptions)
    ensures
        r.quality == args.compression.quality,
        r.lossless == args.compression.lossless,
        r.max_size == args.compression.max_size,
        r.width == args.resize.width,
        r.height == args.resize.height,
        r.long_edge == args.resize.long_edge,
        r.short_edge == args.resize.short_edge,
        r.no_upscale == args.resize.no_upscale,
        match args.output_destination.output {
            Some(o) => r.output_folder.is_some() && r.output_folder.unwrap().absolute
                == crate::fpath::path_is_absolute(o@) && r.output_folder.unwrap().segs()
                =~= crate::fpath::path_segments(o@),
            None => r.output_folder.is_none(),
        },
        r.same_folder_as_input == args.output_destination.same_folder_as_input,
        r.overwrite_policy == args.overwrite,
        r.format == args.format,
        match args.suffix {
            Some(s) => r.suffix.is_some() && r.suffix.unwrap()@ == s@,
            None => r.suffix.is_none(),
        },
        r.keep_structure == args.keep_structure,
        r.keep_dates == args.keep_dates,
        r.exif == args.exif,
        r.png_opt_level == args.png_opt_level,
        r.jpeg_chroma_subsampling == args.jpeg_chroma_subsampling,
        r.jpeg_baseline == args.jpeg_baseline,
        r.zopfli == args.zopfli,
        r.base_path.absolute == base_path.absolute,
        r.base_path.segs() =~= base_path.segs(),
{
    let output_folder: Option<FilePath> = match &args.output_destination.output {
        Some(o) => Some(FilePath::from_string(o.as_str())),
        None => None,
    };
    let suffix: Option<String> = match &args.suffix {
        Some(s) => Some(s.clone()),
        None => None,
    };
    CompressionOptions {
        quality: args.compression.quality,
        lossless: args.compression.lossless,
        max_size: args.compression.max_size,
        output_folder,
        same_folder_as_input: args.output_destination.same_folder_as_input,
        overwrite_policy: args.overwrite,
        format: args.format,
        suffix,
        keep_structure: args.keep_structure,
        width: args.resize.width,
        height: args.resize.height,
        long_edge: args.resize.long_edge,
        short_edge: args.resize.short_edge,
        keep_dates: args.keep_dates,
        exif: args.exif,
        png_opt_level: args.png_opt_level,
        jpeg_chroma_subsampling: args.jpeg_chroma_subsampling,
        jpeg_baseline: args.jpeg_baseline,
        zopfli: args.zopfli,
        base_path: base_path.clone_path(),
        no_upscale: args.resize.no_upscale,
    }
}

/// The batch's summary: status counts and byte totals.
#[derive(Copy, Clone, PartialEq, Eq, Structural, Debug)]
pub struct RecapStats {
    pub total_original_size: u128,
    pub total_compressed_size: u128,
    pub total_success: usize,
    pub total_skipped: usize,
    pub total_errors: usize,
}

/// How many of the first `k` results carry this status.
pub open spec fn count_status(results: Seq<CompressionResult>, s: CompressionStatus, k: int) -> int
    decreases k,
{
    if k <= 0 {
        0
    } else {
        count_status(results, s, k - 1) + if results[k - 1].status == s {
            1int
        } else {
            0int
        }
    }
}

/// The original bytes of the first `k` results, summed.
pub open spec fn sum_original(results: Seq<CompressionResult>, k: int) -> int
    decreases k,
{
    if k <= 0 {
        0
    } else {
        sum_original(results, k - 1) + results[k - 1].original_size
    }
}

/// The compressed bytes of the first `k` results, summed.
pub open spec fn sum_compressed(results: Seq<CompressionResult>, k: int) -> int
    decreases k,
{
    if k <= 0 {
        0
    } else {
        sum_compressed(results, k - 1) + results[k - 1].compressed_size
    }
}

/// A sum of `k` sizes stays under `k` times the largest size.
proof fn lemma_sum_bounds(results: Seq<CompressionResult>, k: int)
    requires
        0 <= k <= results.len(),
    ensures
        0 <= sum_original(results, k) <= k * (u64::MAX as int),
        0 <= sum_compressed(results, k) <= k * (u64::MAX as int),
    decreases k,
{
    if k > 0 {
        lemma_sum_bounds(results, k - 1);
        assert(k * (u64::MAX as int) == (k - 1) * (u64::MAX as int) + u64::MAX) by (nonlinear_arith);
    }
}

/// Folds the batch's results into status counts and byte totals.
pub fn compute_recap_stats(results: &Vec<CompressionResult>) -> (r: RecapStats)
    ensures
        r.total_success == count_status(results@, CompressionStatus::Success, results@.len() as int),
        r.total_skipped == count_status(results@, CompressionStatus::Skipped, results@.len() as int),
        r.total_errors == count_status(results@, CompressionStatus::Error, results@.len() as int),
        r.total_original_size == sum_original(results@, results@.len() as int),
        r.total_compressed_size == sum_compressed(results@, results@.len() as int),
{
    let mut stats = RecapStats {
        total_original_size: 0,
        total_compressed_size: 0,
        total_success: 0,
        total_skipped: 0,
        total_errors: 0,
    };
    let mut i: usize = 0;
    let n = results.len();
    proof {
        assert(n == results@.len() && n <= usize::MAX);
        vstd::arithmetic::mul::lemma_mul_inequality(
            results@.len() as int,
            usize::MAX as int,
            u64::MAX as int,
        );
    }
    while i < results.len()
        invariant
            0 <= i <= results@.len(),
            results@.len() * (u64::MAX as int) <= (usize::MAX as int) * (u64::MAX as int),
            stats.total_success == count_status(results@, CompressionStatus::Success, i as int),
            stats.total_skipped == count_status(results@, CompressionStatus::Skipped, i as int),
            stats.total_errors == count_status(results@, CompressionStatus::Error, i as int),
            stats.total_original_size == sum_original(results@, i as int),
            stats.total_compressed_size == sum_compressed(results@, i as int),
            stats.total_success <= i && stats.total_skipped <= i && stats.total_errors <= i,
        decreases results@.len() - i,
    {
        proof {
            lemma_sum_bounds(results@, i as int);
            vstd::arithmetic::mul::lemma_mul_inequality(
                i as int,
                results@.len() as int,
                u64::MAX as int,
            );
            assert((usize::MAX as int) * (u64::MAX as int) + (u64::MAX as int) < u128::MAX as int)
                by (nonlinear_arith);
        }
        let entry = &results[i];
        stats.total_original_size = stats.total_original_size + entry.original_size as u128;
        stats.total_compressed_size = stats.total_compressed_size + entry.compressed_size as u128;
        match entry.status {
            CompressionStatus::Success => {
                stats.total_success = stats.total_success + 1;
            },
            CompressionStatus::Skipped => {
                stats.total_skipped = stats.total_skipped + 1;
            },
            CompressionStatus::Error => {
                stats.total_errors = stats.total_errors + 1;
            },
        }
        i = i + 1;
    }
    stats
}

} // verus!
