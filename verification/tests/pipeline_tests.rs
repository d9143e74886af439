use caesiumclt::compressor::{
    CompressionOptions, CompressionStatus, FilePipeline, Phase, PipelineAction, PipelineEvent,
    PersistOutcome, MAX_FILE_SIZE,
};
use caesiumclt::fpath::FilePath;
use caesiumclt::options::{JpegChromaSubsampling, OutputFormat, OverwritePolicy};

fn batch_options() -> CompressionOptions {
    CompressionOptions {
        quality: Some(80),
        lossless: false,
        output_folder: Some(FilePath::from_string("/out")),
        same_folder_as_input: false,
        overwrite_policy: OverwritePolicy::All,
        format: OutputFormat::Original,
        suffix: None,
        keep_structure: false,
        width: None,
        height: None,
        long_edge: None,
        short_edge: None,
        max_size: None,
        keep_dates: false,
        exif: true,
        png_opt_level: 0,
        jpeg_chroma_subsampling: JpegChromaSubsampling::Auto,
        jpeg_baseline: false,
        zopfli: false,
        base_path: FilePath::from_string("/in"),
        no_upscale: false,
    }
}

/// A complete one-pixel PNG file.
fn tiny_png() -> Vec<u8> {
    vec![
        0x89, 0x50, 0x4E, 0x47, 0x0D, 0x0A, 0x1A, 0x0A, 0x00, 0x00, 0x00, 0x0D, 0x49, 0x48, 0x44,
        0x52, 0x00, 0x00, 0x00, 0x01, 0x00, 0x00, 0x00, 0x01, 0x08, 0x06, 0x00, 0x00, 0x00, 0x1F,
        0x15, 0xC4, 0x89, 0x00, 0x00, 0x00, 0x0A, 0x49, 0x44, 0x41, 0x54, 0x78, 0x9C, 0x63, 0x00,
        0x01, 0x00, 0x00, 0x05, 0x00, 0x01, 0x0D, 0x0A, 0x2D, 0xB4, 0x00, 0x00, 0x00, 0x00, 0x49,
        0x45, 0x4E, 0x44, 0xAE, 0x42, 0x60, 0x82,
    ]
}

#[test]
fn pipeline_metadata_error_reports_an_error() {
    let options = batch_options();
    let mut p = FilePipeline::new("/in/a.png", false);
    let action = p.step(&options, PipelineEvent::InputStat { size: None });
    assert!(matches!(action, PipelineAction::Report));
    assert!(matches!(p.result.status, CompressionStatus::Error));
    assert_eq!(p.result.message, "Error reading file metadata");
    assert!(!p.codec_ran);
}

#[test]
fn pipeline_skips_oversized_files() {
    let options = batch_options();
    let mut p = FilePipeline::new("/in/a.png", false);
    let action = p.step(&options, PipelineEvent::InputStat { size: Some(MAX_FILE_SIZE + 1) });
    assert!(matches!(action, PipelineAction::Report));
    assert!(matches!(p.result.status, CompressionStatus::Skipped));
    assert_eq!(p.result.message, "File exceeds 500Mb, skipping.");
    assert!(!p.codec_ran);
}

#[test]
fn pipeline_accepts_files_at_the_size_limit() {
    let options = batch_options();
    let mut p = FilePipeline::new("/in/a.png", false);
    let action = p.step(&options, PipelineEvent::InputStat { size: Some(MAX_FILE_SIZE) });
    assert!(matches!(action, PipelineAction::PrepareDir { .. }));
    assert_eq!(p.result.original_size, MAX_FILE_SIZE);
}

#[test]
fn pipeline_reports_resolver_failures() {
    let mut options = batch_options();
    options.keep_structure = true;
    options.base_path = FilePath::from_string("/elsewhere");
    let mut p = FilePipeline::new("/in/a.png", false);
    let action = p.step(&options, PipelineEvent::InputStat { size: Some(100) });
    assert!(matches!(action, PipelineAction::Report));
    assert!(matches!(p.result.status, CompressionStatus::Error));
    assert_eq!(p.result.message, "Error setting up output path");
}

#[test]
fn pipeline_never_policy_skips_without_codec() {
    let mut options = batch_options();
    options.overwrite_policy = OverwritePolicy::Never;
    let mut p = FilePipeline::new("/in/a.png", false);

    let a1 = p.step(&options, PipelineEvent::InputStat { size: Some(100) });
    match a1 {
        PipelineAction::PrepareDir { dir } => assert_eq!(dir, "/out"),
        _ => panic!("expected a directory preparation"),
    }
    let a2 = p.step(&options, PipelineEvent::DirReady { ok: true });
    match a2 {
        PipelineAction::CheckDest { path } => assert_eq!(path, "/out/a.png"),
        _ => panic!("expected a destination check"),
    }
    let a3 = p.step(&options, PipelineEvent::DestExists { exists: true });
    assert!(matches!(a3, PipelineAction::Report));
    assert!(matches!(p.result.status, CompressionStatus::Skipped));
    assert_eq!(p.result.compressed_size, p.result.original_size);
    assert_eq!(p.result.original_size, 100);
    assert_eq!(p.result.message, "File already exists, skipped due overwrite policy");
    // The codec was never invoked and nothing was written.
    assert!(!p.codec_ran);
}

#[test]
fn pipeline_dry_run_succeeds_without_writing() {
    let options = batch_options();
    let mut p = FilePipeline::new("/in/a.png", true);
    let a1 = p.step(&options, PipelineEvent::InputStat { size: Some(123) });
    match a1 {
        PipelineAction::CheckDest { path } => assert_eq!(path, "/out/a.png"),
        _ => panic!("expected a destination check"),
    }
    let a2 = p.step(&options, PipelineEvent::DestExists { exists: false });
    assert!(matches!(a2, PipelineAction::Report));
    assert!(matches!(p.result.status, CompressionStatus::Success));
    assert_eq!(p.result.compressed_size, 123);
    assert!(!p.codec_ran);
}

#[test]
fn pipeline_success_path_persists_codec_output() {
    let options = batch_options();
    let png = tiny_png();
    let mut p = FilePipeline::new("/in/a.png", false);

    p.step(&options, PipelineEvent::InputStat { size: Some(png.len() as u64) });
    p.step(&options, PipelineEvent::DirReady { ok: true });
    let a3 = p.step(&options, PipelineEvent::DestExists { exists: false });
    match a3 {
        PipelineAction::ReadInput { path } => assert_eq!(path, "/in/a.png"),
        _ => panic!("expected an input read"),
    }
    let a4 = p.step(&options, PipelineEvent::InputBytes { data: Some(png) });
    let produced_len = match a4 {
        PipelineAction::Persist { ref path, ref data, keep_dates } => {
            assert_eq!(path, "/out/a.png");
            assert!(!keep_dates);
            assert!(!data.is_empty());
            data.len() as u64
        },
        _ => panic!("expected the produced bytes to be staged"),
    };
    assert!(p.codec_ran);
    let a5 = p.step(&options, PipelineEvent::Persisted { outcome: PersistOutcome::Done });
    assert!(matches!(a5, PipelineAction::Report));
    assert!(matches!(p.result.status, CompressionStatus::Success));
    assert_eq!(p.result.compressed_size, produced_len);
    assert_eq!(p.result.output_path, "/out/a.png");
    assert_eq!(p.result.original_path, "/in/a.png");
}

#[test]
fn pipeline_bigger_policy_discards_larger_output() {
    let mut options = batch_options();
    options.overwrite_policy = OverwritePolicy::Bigger;
    let png = tiny_png();
    let mut p = FilePipeline::new("/in/a.png", false);

    p.step(&options, PipelineEvent::InputStat { size: Some(png.len() as u64) });
    p.step(&options, PipelineEvent::DirReady { ok: true });
    // Under the bigger-only policy an existing destination does not skip yet.
    p.step(&options, PipelineEvent::DestExists { exists: true });
    let a4 = p.step(&options, PipelineEvent::InputBytes { data: Some(png) });
    match a4 {
        PipelineAction::StatDest { path } => assert_eq!(path, "/out/a.png"),
        _ => panic!("expected a destination size check"),
    }
    // The existing file is already at least as small: the produced bytes are
    // discarded and no write is ever requested.
    let a5 = p.step(&options, PipelineEvent::DestSize { existing: Some(Some(0)) });
    assert!(matches!(a5, PipelineAction::Report));
    assert!(matches!(p.result.status, CompressionStatus::Skipped));
    assert_eq!(p.result.compressed_size, p.result.original_size);
    assert_eq!(p.result.message, "File already exists, skipped due overwrite policy");
}

#[test]
fn pipeline_bigger_policy_replaces_larger_destinations() {
    let mut options = batch_options();
    options.overwrite_policy = OverwritePolicy::Bigger;
    let png = tiny_png();
    let mut p = FilePipeline::new("/in/a.png", false);

    p.step(&options, PipelineEvent::InputStat { size: Some(png.len() as u64) });
    p.step(&options, PipelineEvent::DirReady { ok: true });
    p.step(&options, PipelineEvent::DestExists { exists: true });
    p.step(&options, PipelineEvent::InputBytes { data: Some(png) });
    let a5 = p.step(&options, PipelineEvent::DestSize { existing: Some(Some(1_000_000)) });
    let produced_len = match a5 {
        PipelineAction::Persist { ref data, .. } => data.len() as u64,
        _ => panic!("expected the produced bytes to be staged"),
    };
    let a6 = p.step(&options, PipelineEvent::Persisted { outcome: PersistOutcome::Done });
    assert!(matches!(a6, PipelineAction::Report));
    assert!(matches!(p.result.status, CompressionStatus::Success));
    assert_eq!(p.result.compressed_size, produced_len);
}

#[test]
fn pipeline_probe_feeds_orientation_aware_resize() {
    let mut options = batch_options();
    options.long_edge = Some(1000);
    let mut p = FilePipeline::new("/in/a.jpg", false);

    p.step(&options, PipelineEvent::InputStat { size: Some(100) });
    p.step(&options, PipelineEvent::DirReady { ok: true });
    let a3 = p.step(&options, PipelineEvent::DestExists { exists: false });
    match a3 {
        PipelineAction::ProbeResolution { path } => assert_eq!(path, "/in/a.jpg"),
        _ => panic!("expected a resolution probe"),
    }
    // Header size 4000 by 3000, EXIF orientation 6: the logical size is
    // 3000 by 4000, so the long edge lands on the height.
    let a4 = p.step(
        &options,
        PipelineEvent::Probe {
            dims: Ok((4000, 3000)),
            mime_is_jpeg: true,
            exif_orientation: Some(6),
        },
    );
    assert!(matches!(a4, PipelineAction::ReadInput { .. }));
    match &p.phase {
        Phase::AwaitRead { params } => {
            assert_eq!(params.width, 0);
            assert_eq!(params.height, 1000);
        },
        _ => panic!("expected the run to wait for the input bytes"),
    }
}

#[test]
fn pipeline_probe_error_reports_the_cause() {
    let mut options = batch_options();
    options.width = Some(100);
    let mut p = FilePipeline::new("/in/a.jpg", false);

    p.step(&options, PipelineEvent::InputStat { size: Some(100) });
    p.step(&options, PipelineEvent::DirReady { ok: true });
    p.step(&options, PipelineEvent::DestExists { exists: false });
    let a4 = p.step(
        &options,
        PipelineEvent::Probe {
            dims: Err("unsupported header".to_string()),
            mime_is_jpeg: false,
            exif_orientation: None,
        },
    );
    assert!(matches!(a4, PipelineAction::Report));
    assert!(matches!(p.result.status, CompressionStatus::Error));
    assert_eq!(p.result.message, "Error building compression parameters: unsupported header");
}

#[test]
fn pipeline_read_error_reports_an_error() {
    let options = batch_options();
    let mut p = FilePipeline::new("/in/a.png", false);
    p.step(&options, PipelineEvent::InputStat { size: Some(100) });
    p.step(&options, PipelineEvent::DirReady { ok: true });
    p.step(&options, PipelineEvent::DestExists { exists: false });
    let a4 = p.step(&options, PipelineEvent::InputBytes { data: None });
    assert!(matches!(a4, PipelineAction::Report));
    assert!(matches!(p.result.status, CompressionStatus::Error));
    assert_eq!(p.result.message, "Error reading input file");
    assert!(!p.codec_ran);
}

#[test]
fn pipeline_codec_failure_reports_the_cause() {
    let options = batch_options();
    let mut p = FilePipeline::new("/in/a.png", false);
    p.step(&options, PipelineEvent::InputStat { size: Some(9) });
    p.step(&options, PipelineEvent::DirReady { ok: true });
    p.step(&options, PipelineEvent::DestExists { exists: false });
    // Bytes that are no image at all make the codec fail.
    let a4 = p.step(&options, PipelineEvent::InputBytes { data: Some(b"not image".to_vec()) });
    assert!(matches!(a4, PipelineAction::Report));
    assert!(matches!(p.result.status, CompressionStatus::Error));
    assert!(p.result.message.starts_with("Error compressing file: "));
    assert!(p.codec_ran);
}

#[test]
fn pipeline_write_failure_reports_an_error() {
    let options = batch_options();
    let png = tiny_png();
    let mut p = FilePipeline::new("/in/a.png", false);
    p.step(&options, PipelineEvent::InputStat { size: Some(png.len() as u64) });
    p.step(&options, PipelineEvent::DirReady { ok: true });
    p.step(&options, PipelineEvent::DestExists { exists: false });
    p.step(&options, PipelineEvent::InputBytes { data: Some(png) });
    let a5 = p.step(&options, PipelineEvent::Persisted { outcome: PersistOutcome::WriteFailed });
    assert!(matches!(a5, PipelineAction::Report));
    assert!(matches!(p.result.status, CompressionStatus::Error));
    assert_eq!(p.result.message, "Error writing output file");
}

#[test]
fn pipeline_two_runs_with_overwrite_all_both_succeed() {
    let options = batch_options();
    let png = tiny_png();

    let mut first_data: Vec<u8> = Vec::new();
    for run in 0..2 {
        let mut p = FilePipeline::new("/in/a.png", false);
        p.step(&options, PipelineEvent::InputStat { size: Some(png.len() as u64) });
        p.step(&options, PipelineEvent::DirReady { ok: true });
        // The second run finds the first run's output in place; the all
        // policy replaces it regardless.
        p.step(&options, PipelineEvent::DestExists { exists: run == 1 });
        let staged = p.step(&options, PipelineEvent::InputBytes { data: Some(png.clone()) });
        let data = match staged {
            PipelineAction::Persist { data, .. } => data,
            _ => panic!("expected the produced bytes to be staged"),
        };
        p.step(&options, PipelineEvent::Persisted { outcome: PersistOutcome::Done });
        assert!(matches!(p.result.status, CompressionStatus::Success));
        assert_eq!(p.result.compressed_size, data.len() as u64);
        if run == 0 {
            first_data = data;
        } else {
            // What lands on disk is exactly the second run's output: its
            // staged bytes, which here match the first run's byte for byte.
            assert_eq!(data, first_data);
        }
    }
}

#[test]
fn pipeline_same_folder_writes_next_to_the_input() {
    let mut options = batch_options();
    options.output_folder = None;
    options.same_folder_as_input = true;
    options.keep_structure = true;
    let mut p = FilePipeline::new("/in/sub/a.png", false);
    let a1 = p.step(&options, PipelineEvent::InputStat { size: Some(50) });
    match a1 {
        PipelineAction::PrepareDir { dir } => assert_eq!(dir, "/in/sub"),
        _ => panic!("expected a directory preparation"),
    }
    assert_eq!(p.result.output_path, "/in/sub/a.png");
}
