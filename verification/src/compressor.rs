//! The per-file compression pipeline: output path resolution, codec
//! parameter derivation with orientation-aware resize, overwrite policy
//! rules, and the pipeline state machine that ties them together around the
//! external codec.

use vstd::prelude::*;

use crate::fpath::{ext_of, stem_of, FilePath};
use crate::options::{JpegChromaSubsampling, OutputFormat, OverwritePolicy};

verus! {

/// The terminal outcome of one file's pipeline.
#[derive(Copy, Clone, PartialEq, Eq, Structural, Debug)]
pub enum CompressionStatus {
    Success,
    Skipped,
    Error,
}

/// What one file's run produced; created once per input file.
#[derive(Debug)]
pub struct CompressionResult {
    pub original_path: String,
    pub output_path: String,
    pub original_size: u64,
    pub compressed_size: u64,
    pub status: CompressionStatus,
    pub message: String,
}

/// The per-batch configuration the pipeline reads; validated upstream.
pub struct CompressionOptions {
    pub quality: Option<u32>,
    pub max_size: Option<usize>,
    pub lossless: bool,
    pub exif: bool,
    pub png_opt_level: u8,
    pub zopfli: bool,
    pub width: Option<u32>,
    pub height: Option<u32>,
    pub long_edge: Option<u32>,
    pub short_edge: Option<u32>,
    pub output_folder: Option<FilePath>,
    pub same_folder_as_input: bool,
    pub base_path: FilePath,
    pub suffix: Option<String>,
    pub overwrite_policy: OverwritePolicy,
    pub format: OutputFormat,
    pub keep_dates: bool,
    pub keep_structure: bool,
    pub jpeg_chroma_subsampling: JpegChromaSubsampling,
    pub jpeg_baseline: bool,
    pub no_upscale: bool,
}

/// The extension the output file gets: a fixed one per target format, or the
/// input's own (possibly empty) when the format is kept.
pub open spec fn chosen_extension(format: OutputFormat, input: &FilePath) -> Seq<char> {
    match format {
        OutputFormat::Jpeg => seq!['j', 'p', 'g'],
        OutputFormat::Png => seq!['p', 'n', 'g'],
        OutputFormat::Webp => seq!['w', 'e', 'b', 'p'],
        OutputFormat::Tiff => seq!['t', 'i', 'f', 'f'],
        OutputFormat::Gif => seq!['g', 'i', 'f'],
        OutputFormat::Original => if input.segs().len() > 0 {
            ext_of(input.segs().last())
        } else {
            Seq::empty()
        },
    }
}

/// The output file name: the input's stem, then the suffix, then a dot and
/// the extension when there is one.
pub open spec fn output_name(input: &FilePath, suffix: Seq<char>, format: OutputFormat) -> Seq<
    char,
> {
    let stem = if input.segs().len() > 0 {
        stem_of(input.segs().last())
    } else {
        Seq::empty()
    };
    let ext = chosen_extension(format, input);
    if ext.len() == 0 {
        stem + suffix
    } else {
        stem + suffix + seq!['.'] + ext
    }
}

/// Where the resolved output directory must point, per the resolver's rules.
pub open spec fn resolved_dir_post(
    output_directory: &FilePath,
    input: &FilePath,
    base: &FilePath,
    keep_structure: bool,
    same_folder_as_input: bool,
    dir: &FilePath,
) -> bool {
    if keep_structure {
        if same_folder_as_input {
            &&& input.segs().len() > 0
            &&& dir.absolute == input.absolute
            &&& dir.segs() =~= input.segs().drop_last()
        } else {
            &&& input.segs().len() > 0
            &&& input.absolute == base.absolute
            &&& base.segs().is_prefix_of(input.segs().drop_last())
            &&& dir.absolute == output_directory.absolute
            &&& dir.segs() =~= output_directory.segs() + input.segs().drop_last().skip(
                base.segs().len() as int,
            )
        }
    } else {
        dir.absolute == output_directory.absolute && dir.segs() =~= output_directory.segs()
    }
}

/// When the resolver must fail: only a structure-preserving run can fail, on
/// an input without a parent or one whose parent does not descend from the
/// base folder.
pub open spec fn resolver_fails(
    input: &FilePath,
    base: &FilePath,
    keep_structure: bool,
    same_folder_as_input: bool,
) -> bool {
    keep_structure && (input.segs().len() == 0 || (!same_folder_as_input && !(input.absolute
        == base.absolute && base.segs().is_prefix_of(input.segs().drop_last()))))
}

/// Resolves the output directory and file name for one input file.
///
/// The name is the input's stem plus the suffix plus the format's extension.
/// Without `keep_structure` the directory is the output root as given; with
/// it, the input parent's position relative to the base folder is reproduced
/// under the output root, except that writing next to the input skips the
/// relative step entirely.
pub fn compute_output_full_path(
    output_directory: &FilePath,
    input_file_path: &FilePath,
    base_directory: &FilePath,
    keep_structure: bool,
    suffix: &str,
    format: OutputFormat,
    same_folder_as_input: bool,
) -> (r: Option<(FilePath, String)>)
    ensures
        match r {
            Some(pair) => {
                &&& !resolver_fails(input_file_path, base_directory, keep_structure, same_folder_as_input)
                &&& pair.1@ =~= output_name(input_file_path, suffix@, format)
                &&& resolved_dir_post(
                    output_directory,
                    input_file_path,
                    base_directory,
                    keep_structure,
                    same_folder_as_input,
                    &pair.0,
                )
            },
            None => resolver_fails(input_file_path, base_directory, keep_structure, same_folder_as_input),
        },
{
    let extension: String = match format {
        OutputFormat::Jpeg => literal_string("jpg"),
        OutputFormat::Png => literal_string("png"),
        OutputFormat::Webp => literal_string("webp"),
        OutputFormat::Tiff => literal_string("tiff"),
        OutputFormat::Gif => literal_string("gif"),
        OutputFormat::Original => input_file_path.extension(),
    };
    proof {
        reveal_strlit("jpg");
        reveal_strlit("png");
        reveal_strlit("webp");
        reveal_strlit("tiff");
        reveal_strlit("gif");
        assert(("jpg")@ =~= seq!['j', 'p', 'g']);
        assert(("png")@ =~= seq!['p', 'n', 'g']);
        assert(("webp")@ =~= seq!['w', 'e', 'b', 'p']);
        assert(("tiff")@ =~= seq!['t', 'i', 'f', 'f']);
        assert(("gif")@ =~= seq!['g', 'i', 'f']);
        assert(extension@ =~= chosen_extension(format, input_file_path));
    }
    let mut output_file_name = input_file_path.file_stem();
    output_file_name.append(suffix);
    if extension.as_str().unicode_len() != 0 {
        proof {
            reveal_strlit(".");
            assert((".")@ =~= seq!['.']);
        }
        output_file_name.append(".");
        output_file_name.append(extension.as_str());
    }
    proof {
        assert(output_file_name@ =~= output_name(input_file_path, suffix@, format));
    }
    if keep_structure {
        let parent = match input_file_path.parent() {
            Some(p) => p,
            None => {
                return None;
            },
        };
        if same_folder_as_input {
            return Some((parent, output_file_name));
        }
        let output_path_prefix = match parent.strip_prefix(base_directory) {
            Some(p) => p,
            None => {
                return None;
            },
        };
        let full_output_directory = output_directory.join(&output_path_prefix);
        Some((full_output_directory, output_file_name))
    } else {
        Some((output_directory.clone_path(), output_file_name))
    }
}

/// The directory that receives the output: the input's own parent when
/// writing next to the input, else the configured output folder.
pub fn determine_output_directory(input_file: &FilePath, options: &CompressionOptions) -> (r:
    Option<FilePath>)
    ensures
        match r {
            Some(d) => {
                if options.same_folder_as_input {
                    &&& input_file.segs().len() > 0
                    &&& d.absolute == input_file.absolute
                    &&& d.segs() =~= input_file.segs().drop_last()
                } else {
                    &&& options.output_folder.is_some()
                    &&& d.absolute == options.output_folder.unwrap().absolute
                    &&& d.segs() =~= options.output_folder.unwrap().segs()
                }
            },
            None => if options.same_folder_as_input {
                input_file.segs().len() == 0
            } else {
                options.output_folder.is_none()
            },
        },
{
    if options.same_folder_as_input {
        input_file.parent()
    } else {
        match &options.output_folder {
            Some(p) => Some(p.clone_path()),
            None => None,
        }
    }
}

/// An owned copy of a string literal.
fn literal_string(s: &str) -> (r: String)
    ensures
        r@ == s@,
{
    String::from_str(s)
}

/// The codec settings derived from the configuration, as plain values;
/// a `width` or `height` of zero means that dimension stays automatic.
#[derive(Copy, Clone, PartialEq, Eq, Structural, Debug)]
pub struct CodecParams {
    pub jpeg_quality: u32,
    pub png_quality: u32,
    pub webp_quality: u32,
    pub gif_quality: u32,
    pub jpeg_optimize: bool,
    pub png_optimize: bool,
    pub webp_lossless: bool,
    pub keep_metadata: bool,
    pub jpeg_chroma_subsampling: JpegChromaSubsampling,
    pub jpeg_progressive: bool,
    pub png_optimization_level: u8,
    pub png_force_zopfli: bool,
    pub width: u32,
    pub height: u32,
}

/// Whether the configuration asks for any resize at all.
pub open spec fn resize_requested(options: &CompressionOptions) -> bool {
    options.width.is_some() || options.height.is_some() || options.long_edge.is_some()
        || options.short_edge.is_some()
}

/// Whether any resize dimension is requested.
pub fn is_resize_needed(options: &CompressionOptions) -> (r: bool)
    ensures
        r == resize_requested(options),
{
    options.width.is_some() || options.height.is_some() || options.long_edge.is_some()
        || options.short_edge.is_some()
}

/// The quality setting, with its default.
pub open spec fn quality_of(options: &CompressionOptions) -> u32 {
    match options.quality {
        Some(q) => q,
        None => 80,
    }
}

/// The GIF quality: full for lossless, floored at one otherwise.
pub open spec fn gif_quality_of(options: &CompressionOptions) -> u32 {
    if options.lossless {
        100
    } else if quality_of(options) == 0 {
        1
    } else {
        quality_of(options)
    }
}

/// The target width the resolution order picks, starting from `prev`:
/// an explicit width wins; a long edge goes to the width when the source is
/// at least as wide as tall, and a short edge to the strictly narrower side.
pub open spec fn resize_width_sel(
    options: &CompressionOptions,
    w: usize,
    h: usize,
    prev: u32,
) -> u32 {
    if options.width.is_some() {
        options.width.unwrap()
    } else if options.height.is_some() {
        prev
    } else if options.long_edge.is_some() {
        if w >= h {
            options.long_edge.unwrap()
        } else {
            prev
        }
    } else if options.short_edge.is_some() {
        if w < h {
            options.short_edge.unwrap()
        } else {
            prev
        }
    } else {
        prev
    }
}

/// The target height the resolution order picks, starting from `prev`.
pub open spec fn resize_height_sel(
    options: &CompressionOptions,
    w: usize,
    h: usize,
    prev: u32,
) -> u32 {
    if options.width.is_some() {
        prev
    } else if options.height.is_some() {
        options.height.unwrap()
    } else if options.long_edge.is_some() {
        if w >= h {
            prev
        } else {
            options.long_edge.unwrap()
        }
    } else if options.short_edge.is_some() {
        if w < h {
            prev
        } else {
            options.short_edge.unwrap()
        }
    } else {
        prev
    }
}

/// Whether the no-upscale guard cancels the resize: some target dimension
/// would not shrink its source dimension.
pub open spec fn no_upscale_cancels(
    options: &CompressionOptions,
    w: usize,
    h: usize,
    tw: u32,
    th: u32,
) -> bool {
    options.no_upscale && (tw >= w as u32 || th >= h as u32)
}

/// The resize target for a source of `w` by `h` pixels, both dimensions
/// starting automatic: what the resolution order picks, unless the
/// no-upscale guard cancels the resize outright.
pub open spec fn resize_result(options: &CompressionOptions, w: usize, h: usize) -> (u32, u32) {
    let tw = resize_width_sel(options, w, h, 0);
    let th = resize_height_sel(options, w, h, 0);
    if no_upscale_cancels(options, w, h, tw, th) {
        (0u32, 0u32)
    } else {
        (tw, th)
    }
}

/// The logical pixel size of an image: EXIF orientations five through eight
/// lay the image out rotated, so the header's width and height swap.
pub fn get_real_resolution(raw_width: usize, raw_height: usize, orientation: u32) -> (r: (
    usize,
    usize,
))
    ensures
        5 <= orientation <= 8 ==> r == (raw_height, raw_width),
        !(5 <= orientation <= 8) ==> r == (raw_width, raw_height),
{
    if 5 <= orientation && orientation <= 8 {
        (raw_height, raw_width)
    } else {
        (raw_width, raw_height)
    }
}

/// The orientation the resize math uses: the EXIF tag counts only for a JPEG
/// whose metadata is kept, and a missing or unreadable tag means upright.
pub fn effective_orientation(mime_is_jpeg: bool, keep_metadata: bool, exif_orientation: Option<
    u32,
>) -> (r: u32)
    ensures
        r == if mime_is_jpeg && keep_metadata {
            match exif_orientation {
                Some(o) => o,
                None => 1u32,
            }
        } else {
            1u32
        },
{
    if mime_is_jpeg && keep_metadata {
        match exif_orientation {
            Some(o) => o,
            None => 1,
        }
    } else {
        1
    }
}

/// Writes the resize target for a source of `width` by `height` logical
/// pixels into `parameters`, leaving every other setting alone.
pub fn build_resize_parameters(
    options: &CompressionOptions,
    parameters: &mut CodecParams,
    width: usize,
    height: usize,
)
    ensures
        ({
            let tw = resize_width_sel(options, width, height, old(parameters).width);
            let th = resize_height_sel(options, width, height, old(parameters).height);
            if no_upscale_cancels(options, width, height, tw, th) {
                *final(parameters) == (CodecParams { width: 0u32, height: 0u32, ..*old(parameters) })
            } else {
                *final(parameters) == (CodecParams { width: tw, height: th, ..*old(parameters) })
            }
        }),
{
    if options.width.is_some() {
        parameters.width = match options.width {
            Some(w) => w,
            None => 0,
        };
    } else if options.height.is_some() {
        parameters.height = match options.height {
            Some(h) => h,
            None => 0,
        };
    } else if options.long_edge.is_some() {
        let long_edge = match options.long_edge {
            Some(e) => e,
            None => 0,
        };
        if width >= height {
            parameters.width = long_edge;
        } else {
            parameters.height = long_edge;
        }
    } else if options.short_edge.is_some() {
        let short_edge = match options.short_edge {
            Some(e) => e,
            None => 0,
        };
        if width < height {
            parameters.width = short_edge;
        } else {
            parameters.height = short_edge;
        }
    }
    if options.no_upscale && (parameters.width >= width as u32 || parameters.height >= height
        as u32) {
        parameters.width = 0;
        parameters.height = 0;
    }
}

/// What every codec parameter must be, given the configuration and, when a
/// resize is requested, the source's logical pixel size.
pub open spec fn codec_params_post(
    options: &CompressionOptions,
    resolution: Option<(usize, usize)>,
    p: CodecParams,
) -> bool {
    &&& p.jpeg_quality == quality_of(options)
    &&& p.png_quality == quality_of(options)
    &&& p.webp_quality == quality_of(options)
    &&& p.gif_quality == gif_quality_of(options)
    &&& p.jpeg_optimize == options.lossless
    &&& p.png_optimize == options.lossless
    &&& p.webp_lossless == options.lossless
    &&& p.keep_metadata == options.exif
    &&& p.jpeg_chroma_subsampling == options.jpeg_chroma_subsampling
    &&& p.jpeg_progressive == !options.jpeg_baseline
    &&& p.png_optimization_level == options.png_opt_level
    &&& p.png_force_zopfli == options.zopfli
    &&& if resize_requested(options) {
        (p.width, p.height) == resize_result(
            options,
            resolution.unwrap().0,
            resolution.unwrap().1,
        )
    } else {
        p.width == 0 && p.height == 0
    }
}

/// Derives the codec settings from the configuration. A requested resize
/// needs the source's logical pixel size; without it the derivation fails,
/// as it does when the source could not be probed.
pub fn build_compression_parameters(
    options: &CompressionOptions,
    resolution: Option<(usize, usize)>,
) -> (r: Option<CodecParams>)
    ensures
        match r {
            Some(p) => codec_params_post(options, resolution, p),
            None => resize_requested(options) && resolution.is_none(),
        },
{
    let quality: u32 = match options.quality {
        Some(q) => q,
        None => 80,
    };
    let gif_quality: u32 = if options.lossless {
        100
    } else if quality == 0 {
        1
    } else {
        quality
    };
    let mut parameters = CodecParams {
        jpeg_quality: quality,
        png_quality: quality,
        webp_quality: quality,
        gif_quality,
        jpeg_optimize: options.lossless,
        png_optimize: options.lossless,
        webp_lossless: options.lossless,
        keep_metadata: options.exif,
        jpeg_chroma_subsampling: options.jpeg_chroma_subsampling,
        jpeg_progressive: !options.jpeg_baseline,
        png_optimization_level: options.png_opt_level,
        png_force_zopfli: options.zopfli,
        width: 0,
        height: 0,
    };
    if is_resize_needed(options) {
        match resolution {
            Some(dims) => {
                build_resize_parameters(options, &mut parameters, dims.0, dims.1);
                Some(parameters)
            },
            None => None,
        }
    } else {
        Some(parameters)
    }
}

/// The no-upscale guard makes an upscaling width request a no-op: the resize
/// is cancelled outright and the output keeps the source's dimensions.
pub proof fn lemma_no_upscale_width_is_noop(options: &CompressionOptions, w: usize, h: usize)
    requires
        options.no_upscale,
        options.width.is_some(),
        options.width.unwrap() > w as u32,
    ensures
        resize_result(options, w, h) == (0u32, 0u32),
{
}

/// The one codec operation a file's run uses, fixed by the configuration.
#[derive(Copy, Clone, PartialEq, Eq, Structural, Debug)]
pub enum CodecOp {
    /// Convert to the target format, then compress under the byte budget.
    ConvertThenFitSize { max_size: usize },
    /// Compress under the byte budget, keeping the format.
    FitSize { max_size: usize },
    /// Convert to the target format.
    Convert,
    /// Recompress in the input's own format.
    Recompress,
}

/// Which codec operation the configuration selects: a byte budget and a
/// format change combine, else whichever of the two is asked for alone, else
/// a plain recompression.
pub open spec fn selected_op(options: &CompressionOptions) -> CodecOp {
    match options.max_size {
        Some(ms) => if options.format != OutputFormat::Original {
            CodecOp::ConvertThenFitSize { max_size: ms }
        } else {
            CodecOp::FitSize { max_size: ms }
        },
        None => if options.format != OutputFormat::Original {
            CodecOp::Convert
        } else {
            CodecOp::Recompress
        },
    }
}

/// Picks the codec operation for this run from the configuration.
pub fn select_codec_op(options: &CompressionOptions) -> (r: CodecOp)
    ensures
        r == selected_op(options),
{
    match options.max_size {
        Some(ms) => {
            if !matches!(options.format, OutputFormat::Original) {
                CodecOp::ConvertThenFitSize { max_size: ms }
            } else {
                CodecOp::FitSize { max_size: ms }
            }
        },
        None => {
            if !matches!(options.format, OutputFormat::Original) {
                CodecOp::Convert
            } else {
                CodecOp::Recompress
            }
        },
    }
}

#[verifier::external_type_specification]
#[verifier::external_body]
pub struct ExCSParameters(caesium::parameters::CSParameters);

#[verifier::external_type_specification]
#[verifier::external_body]
pub struct ExChromaSubsampling(caesium::parameters::ChromaSubsampling);

#[verifier::external_type_specification]
#[verifier::external_body]
pub struct ExSupportedFileTypes(caesium::SupportedFileTypes);

/// Relies on caesium's ChromaSubsampling being a plain enum: maps the
/// library's chroma choice onto the codec's, variant for variant.
#[verifier::external_body]
fn parse_jpeg_chroma_subsampling(arg: JpegChromaSubsampling) -> caesium::parameters::ChromaSubsampling {
    match arg {
        JpegChromaSubsampling::ChromaSubsampling444 => caesium::parameters::ChromaSubsampling::CS444,
        JpegChromaSubsampling::ChromaSubsampling422 => caesium::parameters::ChromaSubsampling::CS422,
        JpegChromaSubsampling::ChromaSubsampling420 => caesium::parameters::ChromaSubsampling::CS420,
        JpegChromaSubsampling::ChromaSubsampling411 => caesium::parameters::ChromaSubsampling::CS411,
        JpegChromaSubsampling::Auto => caesium::parameters::ChromaSubsampling::Auto,
    }
}

/// Relies on caesium's SupportedFileTypes being a plain enum: maps the
/// library's target format onto the codec's, variant for variant.
#[verifier::external_body]
fn map_supported_formats(format: OutputFormat) -> caesium::SupportedFileTypes {
    match format {
        OutputFormat::Jpeg => caesium::SupportedFileTypes::Jpeg,
        OutputFormat::Png => caesium::SupportedFileTypes::Png,
        OutputFormat::Gif => caesium::SupportedFileTypes::Gif,
        OutputFormat::Webp => caesium::SupportedFileTypes::WebP,
        OutputFormat::Tiff => caesium::SupportedFileTypes::Tiff,
        OutputFormat::Original => caesium::SupportedFileTypes::Unkn,
    }
}

/// Relies on CSParameters::new and its public fields: builds the codec's
/// parameter struct holding exactly the settings in `p`.
#[verifier::external_body]
fn to_cs_parameters(p: &CodecParams) -> caesium::parameters::CSParameters {
    let mut c = caesium::parameters::CSParameters::new();
    c.jpeg.quality = p.jpeg_quality;
    c.png.quality = p.png_quality;
    c.webp.quality = p.webp_quality;
    c.gif.quality = p.gif_quality;
    c.jpeg.optimize = p.jpeg_optimize;
    c.png.optimize = p.png_optimize;
    c.webp.lossless = p.webp_lossless;
    c.keep_metadata = p.keep_metadata;
    c.jpeg.chroma_subsampling = parse_jpeg_chroma_subsampling(p.jpeg_chroma_subsampling);
    c.jpeg.progressive = p.jpeg_progressive;
    c.png.optimization_level = p.png_optimization_level;
    c.png.force_zopfli = p.png_force_zopfli;
    (c.width, c.height) = (p.width, p.height);
    c
}

/// Relies on caesium::compress_in_memory: recompresses the image bytes in
/// their own format; a failure comes back as the error's message.
#[verifier::external_body]
fn codec_compress(in_file: Vec<u8>, parameters: &caesium::parameters::CSParameters) -> (r: Result<
    Vec<u8>,
    String,
>) {
    caesium::compress_in_memory(in_file, parameters).map_err(|e| e.to_string())
}

/// Relies on caesium::compress_to_size_in_memory: compresses the image bytes
/// toward the byte budget, settling for its smallest attempt; a failure comes
/// back as the error's message.
#[verifier::external_body]
fn codec_compress_to_size(
    in_file: Vec<u8>,
    parameters: &mut caesium::parameters::CSParameters,
    max_output_size: usize,
) -> (r: Result<Vec<u8>, String>) {
    caesium::compress_to_size_in_memory(in_file, parameters, max_output_size, true).map_err(|e| e.to_string())
}

/// Relies on caesium::convert_in_memory: re-encodes the image bytes in the
/// given format; a failure comes back as the error's message.
#[verifier::external_body]
fn codec_convert(
    in_file: Vec<u8>,
    parameters: &caesium::parameters::CSParameters,
    format: caesium::SupportedFileTypes,
) -> (r: Result<Vec<u8>, String>) {
    caesium::convert_in_memory(in_file, parameters, format).map_err(|e| e.to_string())
}

/// Which codec call failed, with the codec's own message as the cause.
pub enum CodecFailure {
    /// The format conversion failed.
    Convert { cause: String },
    /// The byte-budget compression failed.
    FitSize { cause: String },
    /// The same-format recompression failed.
    Recompress { cause: String },
}

/// Runs the selected codec operation on the input bytes: the one codec call
/// the operation names, or the conversion followed by the byte-budget pass
/// for a combined run. A failure says which call failed and carries the
/// codec's own message as its cause.
fn perform_image_compression(
    input_buffer: Vec<u8>,
    params: &CodecParams,
    format: OutputFormat,
    op: CodecOp,
) -> (r: Result<Vec<u8>, CodecFailure>)
    ensures
        match r {
            Ok(_) => true,
            Err(f) => match op {
                CodecOp::Recompress => f is Recompress,
                CodecOp::Convert => f is Convert,
                CodecOp::FitSize { .. } => f is FitSize,
                CodecOp::ConvertThenFitSize { .. } => f is Convert || f is FitSize,
            },
        },
{
    let mut cs = to_cs_parameters(params);
    match op {
        CodecOp::ConvertThenFitSize { max_size } => {
            let converted = match codec_convert(input_buffer, &cs, map_supported_formats(format)) {
                Ok(b) => b,
                Err(cause) => {
                    return Err(CodecFailure::Convert { cause });
                },
            };
            match codec_compress_to_size(converted, &mut cs, max_size) {
                Ok(b) => Ok(b),
                Err(cause) => Err(CodecFailure::FitSize { cause }),
            }
        },
        CodecOp::FitSize { max_size } => {
            match codec_compress_to_size(input_buffer, &mut cs, max_size) {
                Ok(b) => Ok(b),
                Err(cause) => Err(CodecFailure::FitSize { cause }),
            }
        },
        CodecOp::Convert => {
            match codec_convert(input_buffer, &cs, map_supported_formats(format)) {
                Ok(b) => Ok(b),
                Err(cause) => Err(CodecFailure::Convert { cause }),
            }
        },
        CodecOp::Recompress => {
            match codec_compress(input_buffer, &cs) {
                Ok(b) => Ok(b),
                Err(cause) => Err(CodecFailure::Recompress { cause }),
            }
        },
    }
}

/// Files above this size are skipped outright.
pub const MAX_FILE_SIZE: u64 = 500 * 1024 * 1024;

/// How the staged write ended.
#[derive(Copy, Clone, PartialEq, Eq, Structural, Debug)]
pub enum PersistOutcome {
    /// Bytes staged, renamed into place, timestamps applied if asked.
    Done,
    /// The staging file could not be created.
    CreateFailed,
    /// The bytes could not be written.
    WriteFailed,
    /// Copying the source timestamps onto the destination failed.
    TimesFailed,
}

/// What the caller observed while carrying out the last action.
pub enum PipelineEvent {
    /// The input's size, or `None` when its metadata could not be read.
    InputStat { size: Option<u64> },
    /// Whether the output directory now exists.
    DirReady { ok: bool },
    /// Whether the destination file already exists.
    DestExists { exists: bool },
    /// The input's header dimensions or the probe error, whether it sniffs
    /// as a JPEG, and its EXIF orientation tag where one could be read.
    Probe {
        dims: Result<(usize, usize), String>,
        mime_is_jpeg: bool,
        exif_orientation: Option<u32>,
    },
    /// The input's bytes, or `None` when they could not be read.
    InputBytes { data: Option<Vec<u8>> },
    /// The size of the existing destination: `None` when it does not exist,
    /// `Some(None)` when it exists but its metadata could not be read.
    DestSize { existing: Option<Option<u64>> },
    /// How the staged write ended.
    Persisted { outcome: PersistOutcome },
}

/// What the pipeline asks the caller to do next.
pub enum PipelineAction {
    /// Read the input file's metadata and answer with `InputStat`.
    StatInput { path: String },
    /// Create the directory tree unless it exists; answer with `DirReady`.
    PrepareDir { dir: String },
    /// Answer with `DestExists` for this destination path.
    CheckDest { path: String },
    /// Probe the input's header size and EXIF orientation; answer `Probe`.
    ProbeResolution { path: String },
    /// Read the whole input file; answer with `InputBytes`.
    ReadInput { path: String },
    /// Read the existing destination's size; answer with `DestSize`.
    StatDest { path: String },
    /// Stage `data` under a temporary name in the destination's directory,
    /// rename it into place, and copy the source timestamps when asked;
    /// answer with `Persisted`.
    Persist { path: String, data: Vec<u8>, keep_dates: bool },
    /// The pipeline is finished; its result is ready.
    Report,
}

/// Where one file's run stands.
pub enum Phase {
    /// Waiting for the input's metadata.
    Start,
    /// Waiting for the output directory to be created.
    AwaitDir,
    /// Waiting for the destination existence check.
    AwaitDest,
    /// Waiting for the input's pixel size probe.
    AwaitProbe,
    /// Waiting for the input's bytes; the codec settings stand ready.
    AwaitRead { params: CodecParams },
    /// Waiting for the existing destination's size before discarding or
    /// keeping the produced bytes.
    AwaitDestSize { produced: Vec<u8> },
    /// Waiting for the staged write of the produced bytes to finish; the
    /// bytes handed out are remembered in ghost form.
    AwaitPersist { produced_len: u64, produced: Ghost<Seq<u8>> },
    /// The run is over; the result stands.
    Finished,
}

/// Which event a phase waits for.
pub open spec fn expected_event(phase: &Phase, event: &PipelineEvent) -> bool {
    match (phase, event) {
        (Phase::Start, PipelineEvent::InputStat { .. }) => true,
        (Phase::AwaitDir, PipelineEvent::DirReady { .. }) => true,
        (Phase::AwaitDest, PipelineEvent::DestExists { .. }) => true,
        (Phase::AwaitProbe, PipelineEvent::Probe { .. }) => true,
        (Phase::AwaitRead { .. }, PipelineEvent::InputBytes { .. }) => true,
        (Phase::AwaitDestSize { .. }, PipelineEvent::DestSize { .. }) => true,
        (Phase::AwaitPersist { .. }, PipelineEvent::Persisted { .. }) => true,
        _ => false,
    }
}

/// The suffix appended to output names, as characters.
pub open spec fn suffix_chars(options: &CompressionOptions) -> Seq<char> {
    match options.suffix {
        Some(s) => s@,
        None => Seq::empty(),
    }
}

/// The output root directory for one input, before any structure is applied:
/// the input's parent when writing next to it, else the configured folder.
pub open spec fn output_dir_of(input: &FilePath, options: &CompressionOptions) -> Option<
    (bool, Seq<Seq<char>>),
> {
    if options.same_folder_as_input {
        if input.segs().len() > 0 {
            Some((input.absolute, input.segs().drop_last()))
        } else {
            None
        }
    } else {
        match options.output_folder {
            Some(f) => Some((f.absolute, f.segs())),
            None => None,
        }
    }
}

/// Whether the run behaves as writing next to the input: asked for directly,
/// or implied by an output root equal to the base folder.
pub open spec fn effective_same_folder(input: &FilePath, options: &CompressionOptions) -> bool {
    options.same_folder_as_input || match output_dir_of(input, options) {
        Some(od) => od.0 == options.base_path.absolute && od.1 =~= options.base_path.segs(),
        None => false,
    }
}

/// When the whole path resolution step fails for one input.
pub open spec fn resolution_fails(input: &FilePath, options: &CompressionOptions) -> bool {
    output_dir_of(input, options).is_none() || resolver_fails(
        input,
        &options.base_path,
        options.keep_structure,
        effective_same_folder(input, options),
    )
}

/// The directory the output file lands in, when resolution succeeds.
pub open spec fn final_dir_of(input: &FilePath, options: &CompressionOptions) -> (
    bool,
    Seq<Seq<char>>,
) {
    let od = output_dir_of(input, options).unwrap();
    if options.keep_structure {
        if effective_same_folder(input, options) {
            (input.absolute, input.segs().drop_last())
        } else {
            (od.0, od.1 + input.segs().drop_last().skip(options.base_path.segs().len() as int))
        }
    } else {
        od
    }
}

/// The full destination path, as characters, when resolution succeeds.
pub open spec fn dest_path_chars(input: &FilePath, options: &CompressionOptions) -> Seq<char> {
    let d = final_dir_of(input, options);
    crate::fpath::joined_name_string(
        d.0,
        d.1,
        output_name(input, suffix_chars(options), options.format),
    )
}

/// The destination's directory, as characters, when resolution succeeds.
pub open spec fn dest_dir_chars(input: &FilePath, options: &CompressionOptions) -> Seq<char> {
    let d = final_dir_of(input, options);
    crate::fpath::path_string(d.0, d.1)
}

/// The orientation the resize math uses, as a value.
pub open spec fn orientation_of(mime_is_jpeg: bool, keep: bool, tag: Option<u32>) -> u32 {
    if mime_is_jpeg && keep {
        match tag {
            Some(o) => o,
            None => 1u32,
        }
    } else {
        1u32
    }
}

/// The logical pixel size under an EXIF orientation.
pub open spec fn logical_dims(w: usize, h: usize, orientation: u32) -> (usize, usize) {
    if 5 <= orientation <= 8 {
        (h, w)
    } else {
        (w, h)
    }
}

/// One file's run, driven by the caller: the pipeline decides, the caller
/// performs the filesystem work and feeds back what it saw. The first action
/// is always to stat the input; every later one is what [`Self::step`]
/// returns.
pub struct FilePipeline {
    /// The input path, parsed.
    pub input: FilePath,
    /// Whether this run only simulates.
    pub dry_run: bool,
    /// Whether the codec has been invoked in this run.
    pub codec_ran: bool,
    /// The result assembled so far; final once the phase is `Finished`.
    pub result: CompressionResult,
    /// Where the run stands.
    pub phase: Phase,
}

/// What never changes across a step.
pub open spec fn step_keeps(pre: FilePipeline, post: FilePipeline) -> bool {
    &&& post.result.original_path == pre.result.original_path
    &&& post.dry_run == pre.dry_run
    &&& post.input == pre.input
}

/// A pipeline that ended with this status and message.
pub open spec fn finished_as(
    post: FilePipeline,
    status: CompressionStatus,
    msg: Seq<char>,
) -> bool {
    &&& post.phase is Finished
    &&& post.result.status == status
    &&& post.result.message@ == msg
}

impl FilePipeline {
    /// Starts a run for one input file. The caller's first duty is the
    /// `StatInput` action.
    pub fn new(input_path: &str, dry_run: bool) -> (r: FilePipeline)
        ensures
            r.phase is Start,
            r.result.original_path@ == input_path@,
            r.result.output_path@.len() == 0,
            r.result.original_size == 0,
            r.result.compressed_size == 0,
            r.result.status == CompressionStatus::Error,
            r.result.message@.len() == 0,
            !r.codec_ran,
            r.dry_run == dry_run,
            r.input.absolute == crate::fpath::path_is_absolute(input_path@),
            r.input.segs() =~= crate::fpath::path_segments(input_path@),
    {
        FilePipeline {
            input: FilePath::from_string(input_path),
            dry_run,
            codec_ran: false,
            result: CompressionResult {
                original_path: String::from_str(input_path),
                output_path: String::new(),
                original_size: 0,
                compressed_size: 0,
                status: CompressionStatus::Error,
                message: String::new(),
            },
            phase: Phase::Start,
        }
    }

    /// Advances the run by one observed event and says what to do next.
    ///
    /// Every transition is stated below: what ends the run with which status
    /// and message, what is asked of the caller next, and that the codec runs
    /// only on the input's bytes, after every gate before it has passed.
    pub fn step(&mut self, options: &CompressionOptions, event: PipelineEvent) -> (action:
        PipelineAction)
        requires
            expected_event(&old(self).phase, &event),
        ensures
            step_keeps(*old(self), *final(self)),
            (final(self).phase is Finished) == (action is Report),
            old(self).codec_ran ==> final(self).codec_ran,
            old(self).phase is Start ==> (event matches PipelineEvent::InputStat { size } ==> {
                &&& final(self).codec_ran == old(self).codec_ran
                &&& match size {
                    None => finished_as(
                        *final(self),
                        CompressionStatus::Error,
                        "Error reading file metadata"@,
                    ) && final(self).result.original_size == old(self).result.original_size
                        && final(self).result.compressed_size == old(self).result.compressed_size
                        && final(self).result.output_path == old(self).result.output_path,
                    Some(n) => if n > MAX_FILE_SIZE {
                        &&& finished_as(
                            *final(self),
                            CompressionStatus::Skipped,
                            "File exceeds 500Mb, skipping."@,
                        )
                        &&& final(self).result.original_size == old(self).result.original_size
                        &&& final(self).result.compressed_size == old(self).result.compressed_size
                        &&& final(self).result.output_path == old(self).result.output_path
                    } else {
                        &&& final(self).result.original_size == n
                        &&& final(self).result.compressed_size == old(self).result.compressed_size
                        &&& if resolution_fails(&old(self).input, options) {
                            finished_as(
                                *final(self),
                                CompressionStatus::Error,
                                "Error setting up output path"@,
                            )
                        } else {
                            &&& final(self).result.output_path@ =~= dest_path_chars(
                                &old(self).input,
                                options,
                            )
                            &&& final(self).result.status == old(self).result.status
                            &&& final(self).result.message@.len() == old(self).result.message@.len()
                            &&& if old(self).dry_run {
                                &&& final(self).phase is AwaitDest
                                &&& (action matches PipelineAction::CheckDest { path } && path@
                                    =~= dest_path_chars(&old(self).input, options))
                            } else {
                                &&& final(self).phase is AwaitDir
                                &&& (action matches PipelineAction::PrepareDir { dir } && dir@
                                    =~= dest_dir_chars(&old(self).input, options))
                            }
                        }
                    },
                }
            }),
            old(self).phase is AwaitDir ==> (event matches PipelineEvent::DirReady { ok } ==> {
                &&& final(self).codec_ran == old(self).codec_ran
                &&& final(self).result.original_size == old(self).result.original_size
                &&& final(self).result.output_path == old(self).result.output_path
                &&& if !ok {
                    finished_as(*final(self), CompressionStatus::Error, "Error setting up output path"@)
                } else {
                    &&& final(self).phase is AwaitDest
                    &&& (action matches PipelineAction::CheckDest { path } && path@ == old(self).result.output_path@)
                    &&& final(self).result.status == old(self).result.status
                    &&& final(self).result.message == old(self).result.message
                    &&& final(self).result.compressed_size == old(self).result.compressed_size
                }
            }),
            old(self).phase is AwaitDest ==> (event matches PipelineEvent::DestExists { exists }
                ==> {
                &&& final(self).result.original_size == old(self).result.original_size
                &&& final(self).result.output_path == old(self).result.output_path
                &&& if exists && options.overwrite_policy == OverwritePolicy::Never {
                    &&& finished_as(
                        *final(self),
                        CompressionStatus::Skipped,
                        "File already exists, skipped due overwrite policy"@,
                    )
                    &&& final(self).result.compressed_size == old(self).result.original_size
                    &&& final(self).codec_ran == old(self).codec_ran
                } else if old(self).dry_run {
                    &&& final(self).phase is Finished
                    &&& final(self).result.status == CompressionStatus::Success
                    &&& final(self).result.compressed_size == old(self).result.original_size
                    &&& final(self).result.message == old(self).result.message
                    &&& final(self).codec_ran == old(self).codec_ran
                } else {
                    &&& final(self).codec_ran == old(self).codec_ran
                    &&& final(self).result.status == old(self).result.status
                    &&& final(self).result.message == old(self).result.message
                    &&& final(self).result.compressed_size == old(self).result.compressed_size
                    &&& if resize_requested(options) {
                        &&& final(self).phase is AwaitProbe
                        &&& (action matches PipelineAction::ProbeResolution { path } && path@
                            == old(self).result.original_path@)
                    } else {
                        &&& (final(self).phase matches Phase::AwaitRead { params }
                            && codec_params_post(options, None, params))
                        &&& (action matches PipelineAction::ReadInput { path } && path@ == old(self).result.original_path@)
                    }
                }
            }),
            old(self).phase is AwaitProbe ==> (event matches PipelineEvent::Probe {
                dims,
                mime_is_jpeg,
                exif_orientation,
            } ==> {
                &&& final(self).codec_ran == old(self).codec_ran
                &&& final(self).result.original_size == old(self).result.original_size
                &&& final(self).result.output_path == old(self).result.output_path
                &&& match dims {
                    Err(e) => finished_as(
                        *final(self),
                        CompressionStatus::Error,
                        "Error building compression parameters: "@ + e@,
                    ),
                    Ok(d) => {
                        let ld = logical_dims(
                            d.0,
                            d.1,
                            orientation_of(mime_is_jpeg, options.exif, exif_orientation),
                        );
                        &&& (final(self).phase matches Phase::AwaitRead { params }
                            && codec_params_post(options, Some(ld), params))
                        &&& (action matches PipelineAction::ReadInput { path } && path@ == old(self).result.original_path@)
                        &&& final(self).result.status == old(self).result.status
                        &&& final(self).result.message == old(self).result.message
                        &&& final(self).result.compressed_size == old(self).result.compressed_size
                    },
                }
            }),
            old(self).phase is AwaitRead ==> (event matches PipelineEvent::InputBytes { data }
                ==> {
                &&& final(self).result.original_size == old(self).result.original_size
                &&& final(self).result.output_path == old(self).result.output_path
                &&& match data {
                    None => finished_as(*final(self), CompressionStatus::Error, "Error reading input file"@)
                        && final(self).codec_ran == old(self).codec_ran,
                    Some(_) => {
                        &&& final(self).codec_ran
                        &&& {
                            ||| (final(self).phase is Finished && final(self).result.status
                                == CompressionStatus::Error && has_prefix(
                                final(self).result.message@,
                                "Error compressing file: "@,
                            ))
                            ||| (options.overwrite_policy == OverwritePolicy::Bigger && final(self).phase
                                is AwaitDestSize && (action matches PipelineAction::StatDest {
                                path,
                            } && path@ == old(self).result.output_path@)
                                && final(self).result.status == old(self).result.status
                                && final(self).result.compressed_size == old(self).result.compressed_size)
                            ||| (options.overwrite_policy != OverwritePolicy::Bigger && (
                            final(self).phase matches Phase::AwaitPersist { produced_len, produced } && (
                            action matches PipelineAction::Persist { path, data: written, keep_dates }
                                && path@ == old(self).result.output_path@
                                && written@ == produced@
                                && written@.len() == produced_len
                                && keep_dates == options.keep_dates))
                                && final(self).result.status == old(self).result.status
                                && final(self).result.compressed_size == old(self).result.compressed_size)
                        }
                    },
                }
            }),
            old(self).phase matches Phase::AwaitDestSize { produced } ==> (
            event matches PipelineEvent::DestSize { existing } ==> {
                let skip = options.overwrite_policy == OverwritePolicy::Bigger && match existing {
                    Some(inner) => match inner {
                        Some(sz) => sz <= produced@.len(),
                        None => false,
                    },
                    None => false,
                };
                let stat_err = options.overwrite_policy == OverwritePolicy::Bigger
                    && match existing {
                    Some(inner) => inner.is_none(),
                    None => false,
                };
                &&& final(self).codec_ran == old(self).codec_ran
                &&& final(self).result.original_size == old(self).result.original_size
                &&& final(self).result.output_path == old(self).result.output_path
                &&& if skip {
                    &&& finished_as(
                        *final(self),
                        CompressionStatus::Skipped,
                        "File already exists, skipped due overwrite policy"@,
                    )
                    &&& final(self).result.compressed_size == old(self).result.original_size
                } else {
                    &&& persists_bytes(*old(self), *final(self), &action, produced@, options)
                    &&& (stat_err ==> final(self).result.message@
                        == "Error reading existing file metadata"@)
                    &&& (!stat_err ==> final(self).result.message == old(self).result.message)
                }
            }),
            old(self).phase matches Phase::AwaitPersist { produced_len, .. } ==> (
            event matches PipelineEvent::Persisted { outcome } ==> {
                &&& final(self).codec_ran == old(self).codec_ran
                &&& final(self).result.original_size == old(self).result.original_size
                &&& final(self).result.output_path == old(self).result.output_path
                &&& match outcome {
                    PersistOutcome::Done => {
                        &&& final(self).phase is Finished
                        &&& final(self).result.status == CompressionStatus::Success
                        &&& final(self).result.compressed_size == produced_len
                        &&& final(self).result.message == old(self).result.message
                    },
                    PersistOutcome::CreateFailed => finished_as(
                        *final(self),
                        CompressionStatus::Error,
                        "Error creating output file"@,
                    ),
                    PersistOutcome::WriteFailed => finished_as(
                        *final(self),
                        CompressionStatus::Error,
                        "Error writing output file"@,
                    ),
                    PersistOutcome::TimesFailed => finished_as(
                        *final(self),
                        CompressionStatus::Error,
                        "Error preserving file times"@,
                    ),
                }
            }),
    {
        let mut ph = Phase::Finished;
        core::mem::swap(&mut ph, &mut self.phase);
        match ph {
            Phase::Start => {
                let size = match event {
                    PipelineEvent::InputStat { size } => size,
                    _ => vstd::pervasive::unreached(),
                };
                match size {
                    None => {
                        self.result.status = CompressionStatus::Error;
                        self.result.message = literal_string("Error reading file metadata");
                        PipelineAction::Report
                    },
                    Some(n) => {
                        if n > MAX_FILE_SIZE {
                            self.result.message = literal_string("File exceeds 500Mb, skipping.");
                            self.result.status = CompressionStatus::Skipped;
                            return PipelineAction::Report;
                        }
                        self.result.original_size = n;
                        let dir0 = match determine_output_directory(&self.input, options) {
                            Some(d) => d,
                            None => {
                                self.result.status = CompressionStatus::Error;
                                self.result.message = literal_string("Error setting up output path");
                                return PipelineAction::Report;
                            },
                        };
                        let same_eff = options.same_folder_as_input || dir0.path_eq(
                            &options.base_path,
                        );
                        let suffix_str: &str = match &options.suffix {
                            Some(s) => s.as_str(),
                            None => "",
                        };
                        proof {
                            reveal_strlit("");
                            assert(suffix_str@ =~= suffix_chars(options));
                        }
                        let resolved = compute_output_full_path(
                            &dir0,
                            &self.input,
                            &options.base_path,
                            options.keep_structure,
                            suffix_str,
                            options.format,
                            same_eff,
                        );
                        match resolved {
                            None => {
                                self.result.status = CompressionStatus::Error;
                                self.result.message = literal_string("Error setting up output path");
                                PipelineAction::Report
                            },
                            Some(pair) => {
                                let dir = pair.0;
                                let name = pair.1;
                                proof {
                                    assert(dir.absolute == final_dir_of(&self.input, options).0);
                                    assert(dir.segs() =~= final_dir_of(&self.input, options).1);
                                }
                                self.result.output_path = dir.join_name_string(name.as_str());
                                if self.dry_run {
                                    self.phase = Phase::AwaitDest;
                                    PipelineAction::CheckDest {
                                        path: clone_string(&self.result.output_path),
                                    }
                                } else {
                                    let dir_string = dir.to_string();
                                    self.phase = Phase::AwaitDir;
                                    PipelineAction::PrepareDir { dir: dir_string }
                                }
                            },
                        }
                    },
                }
            },
            Phase::AwaitDir => {
                let ok = match event {
                    PipelineEvent::DirReady { ok } => ok,
                    _ => vstd::pervasive::unreached(),
                };
                if !ok {
                    self.result.status = CompressionStatus::Error;
                    self.result.message = literal_string("Error setting up output path");
                    PipelineAction::Report
                } else {
                    self.phase = Phase::AwaitDest;
                    PipelineAction::CheckDest { path: clone_string(&self.result.output_path) }
                }
            },
            Phase::AwaitDest => {
                let exists = match event {
                    PipelineEvent::DestExists { exists } => exists,
                    _ => vstd::pervasive::unreached(),
                };
                let original_size = self.result.original_size;
                if skip_due_to_overwrite_policy(options, exists, original_size, &mut self.result) {
                    return PipelineAction::Report;
                }
                if self.dry_run {
                    self.result.status = CompressionStatus::Success;
                    self.result.compressed_size = self.result.original_size;
                    return PipelineAction::Report;
                }
                if is_resize_needed(options) {
                    self.phase = Phase::AwaitProbe;
                    PipelineAction::ProbeResolution {
                        path: clone_string(&self.result.original_path),
                    }
                } else {
                    let params = match build_compression_parameters(options, None) {
                        Some(p) => p,
                        None => vstd::pervasive::unreached(),
                    };
                    self.phase = Phase::AwaitRead { params };
                    PipelineAction::ReadInput { path: clone_string(&self.result.original_path) }
                }
            },
            Phase::AwaitProbe => {
                let (dims, mime_is_jpeg, exif_orientation) = match event {
                    PipelineEvent::Probe { dims, mime_is_jpeg, exif_orientation } => (
                        dims,
                        mime_is_jpeg,
                        exif_orientation,
                    ),
                    _ => vstd::pervasive::unreached(),
                };
                match dims {
                    Err(e) => {
                        let mut msg = literal_string("Error building compression parameters: ");
                        msg.append(e.as_str());
                        self.result.status = CompressionStatus::Error;
                        self.result.message = msg;
                        PipelineAction::Report
                    },
                    Ok(d) => {
                        let orientation = effective_orientation(
                            mime_is_jpeg,
                            options.exif,
                            exif_orientation,
                        );
                        let logical = get_real_resolution(d.0, d.1, orientation);
                        let params = match build_compression_parameters(options, Some(logical)) {
                            Some(p) => p,
                            None => vstd::pervasive::unreached(),
                        };
                        self.phase = Phase::AwaitRead { params };
                        PipelineAction::ReadInput {
                            path: clone_string(&self.result.original_path),
                        }
                    },
                }
            },
            Phase::AwaitRead { params } => {
                let data = match event {
                    PipelineEvent::InputBytes { data } => data,
                    _ => vstd::pervasive::unreached(),
                };
                match data {
                    None => {
                        self.result.status = CompressionStatus::Error;
                        self.result.message = literal_string("Error reading input file");
                        PipelineAction::Report
                    },
                    Some(buffer) => {
                        self.codec_ran = true;
                        let op = select_codec_op(options);
                        match perform_image_compression(buffer, &params, options.format, op) {
                            Err(failure) => {
                                let cause: String = match failure {
                                    CodecFailure::Convert { cause } => cause,
                                    CodecFailure::FitSize { cause } => cause,
                                    CodecFailure::Recompress { cause } => cause,
                                };
                                let mut msg = literal_string("Error compressing file: ");
                                msg.append(cause.as_str());
                                proof {
                                    assert(msg@.subrange(
                                        0,
                                        ("Error compressing file: ")@.len() as int,
                                    ) =~= ("Error compressing file: ")@);
                                }
                                self.result.status = CompressionStatus::Error;
                                self.result.message = msg;
                                PipelineAction::Report
                            },
                            Ok(produced) => {
                                if matches!(options.overwrite_policy, OverwritePolicy::Bigger) {
                                    self.phase = Phase::AwaitDestSize { produced };
                                    PipelineAction::StatDest {
                                        path: clone_string(&self.result.output_path),
                                    }
                                } else {
                                    let produced_len = produced.len() as u64;
                                    self.phase = Phase::AwaitPersist {
                                        produced_len,
                                        produced: Ghost(produced@),
                                    };
                                    PipelineAction::Persist {
                                        path: clone_string(&self.result.output_path),
                                        data: produced,
                                        keep_dates: options.keep_dates,
                                    }
                                }
                            },
                        }
                    },
                }
            },
            Phase::AwaitDestSize { produced } => {
                let existing = match event {
                    PipelineEvent::DestSize { existing } => existing,
                    _ => vstd::pervasive::unreached(),
                };
                let dest_exists = existing.is_some();
                let existing_size: Option<u64> = match existing {
                    Some(inner) => inner,
                    None => None,
                };
                let output_size = produced.len() as u64;
                let original_size = self.result.original_size;
                if skip_due_to_bigger_policy(
                    options,
                    dest_exists,
                    existing_size,
                    output_size,
                    original_size,
                    &mut self.result,
                ) {
                    PipelineAction::Report
                } else {
                    let produced_len = produced.len() as u64;
                    self.phase = Phase::AwaitPersist {
                        produced_len,
                        produced: Ghost(produced@),
                    };
                    PipelineAction::Persist {
                        path: clone_string(&self.result.output_path),
                        data: produced,
                        keep_dates: options.keep_dates,
                    }
                }
            },
            Phase::AwaitPersist { produced_len, produced: _ } => {
                let outcome = match event {
                    PipelineEvent::Persisted { outcome } => outcome,
                    _ => vstd::pervasive::unreached(),
                };
                match outcome {
                    PersistOutcome::Done => {
                        self.result.status = CompressionStatus::Success;
                        self.result.compressed_size = produced_len;
                        PipelineAction::Report
                    },
                    PersistOutcome::CreateFailed => {
                        self.result.status = CompressionStatus::Error;
                        self.result.message = literal_string("Error creating output file");
                        PipelineAction::Report
                    },
                    PersistOutcome::WriteFailed => {
                        self.result.status = CompressionStatus::Error;
                        self.result.message = literal_string("Error writing output file");
                        PipelineAction::Report
                    },
                    PersistOutcome::TimesFailed => {
                        self.result.status = CompressionStatus::Error;
                        self.result.message = literal_string("Error preserving file times");
                        PipelineAction::Report
                    },
                }
            },
            Phase::Finished => vstd::pervasive::unreached(),
        }
    }
}

/// Whether `s` begins with `p`.
pub open spec fn has_prefix(s: Seq<char>, p: Seq<char>) -> bool {
    s.len() >= p.len() && s.subrange(0, p.len() as int) == p
}

/// Whether the step hands the produced bytes on to the staged write.
pub open spec fn persists_bytes(
    pre: FilePipeline,
    post: FilePipeline,
    action: &PipelineAction,
    bytes: Seq<u8>,
    options: &CompressionOptions,
) -> bool {
    &&& (post.phase matches Phase::AwaitPersist { produced_len, produced } && produced_len
        == bytes.len() && produced@ == bytes)
    &&& (action matches PipelineAction::Persist { path, data, keep_dates } && path@
        == pre.result.output_path@ && data@ =~= bytes && keep_dates == options.keep_dates)
    &&& post.result.status == pre.result.status
    &&& post.result.compressed_size == pre.result.compressed_size
}

/// Applies the never-overwrite rule: an existing destination skips the file,
/// reporting the original size as its compressed size, before any compression
/// work is done.
pub fn skip_due_to_overwrite_policy(
    options: &CompressionOptions,
    dest_exists: bool,
    original_size: u64,
    compression_result: &mut CompressionResult,
) -> (r: bool)
    ensures
        r == (options.overwrite_policy == OverwritePolicy::Never && dest_exists),
        final(compression_result).original_path == old(compression_result).original_path,
        final(compression_result).output_path == old(compression_result).output_path,
        final(compression_result).original_size == old(compression_result).original_size,
        r ==> {
            &&& final(compression_result).status == CompressionStatus::Skipped
            &&& final(compression_result).compressed_size == original_size
            &&& final(compression_result).message@
                == "File already exists, skipped due overwrite policy"@
        },
        !r ==> *final(compression_result) == *old(compression_result),
{
    if matches!(options.overwrite_policy, OverwritePolicy::Never) && dest_exists {
        compression_result.status = CompressionStatus::Skipped;
        compression_result.compressed_size = original_size;
        compression_result.message = literal_string(
            "File already exists, skipped due overwrite policy",
        );
        true
    } else {
        false
    }
}

/// Applies the bigger-only rule after compression: an existing destination
/// that is already no bigger than the produced bytes skips the file, so the
/// destination stays as it is; an unreadable destination is noted but does
/// not stop the write. `existing_size` is `None` when the destination exists
/// but its metadata could not be read.
pub fn skip_due_to_bigger_policy(
    options: &CompressionOptions,
    dest_exists: bool,
    existing_size: Option<u64>,
    output_size: u64,
    original_size: u64,
    compression_result: &mut CompressionResult,
) -> (r: bool)
    ensures
        r == (options.overwrite_policy == OverwritePolicy::Bigger && dest_exists && match existing_size {
            Some(sz) => sz <= output_size,
            None => false,
        }),
        final(compression_result).original_path == old(compression_result).original_path,
        final(compression_result).output_path == old(compression_result).output_path,
        final(compression_result).original_size == old(compression_result).original_size,
        r ==> {
            &&& final(compression_result).status == CompressionStatus::Skipped
            &&& final(compression_result).compressed_size == original_size
            &&& final(compression_result).message@
                == "File already exists, skipped due overwrite policy"@
        },
        !r ==> {
            &&& final(compression_result).status == old(compression_result).status
            &&& final(compression_result).compressed_size == old(
                compression_result,
            ).compressed_size
            &&& if options.overwrite_policy == OverwritePolicy::Bigger && dest_exists
                && existing_size.is_none() {
                final(compression_result).message@ == "Error reading existing file metadata"@
            } else {
                final(compression_result).message == old(compression_result).message
            }
        },
{
    if dest_exists && matches!(options.overwrite_policy, OverwritePolicy::Bigger) {
        match existing_size {
            Some(sz) => {
                if sz <= output_size {
                    compression_result.status = CompressionStatus::Skipped;
                    compression_result.compressed_size = original_size;
                    compression_result.message = literal_string(
                        "File already exists, skipped due overwrite policy",
                    );
                    return true;
                }
            },
            None => {
                compression_result.message = literal_string("Error reading existing file metadata");
                return false;
            },
        }
    }
    false
}

/// A finished pipeline waits for nothing: no event is expected any more, so
/// no further step can run. In particular, a run that ends skipped — an
/// existing destination under the never-overwrite policy, say — can never
/// reach the codec afterwards: its `codec_ran` flag is final.
pub proof fn lemma_finished_accepts_no_event(phase: &Phase, event: &PipelineEvent)
    ensures
        phase is Finished ==> !expected_event(phase, event),
{
}

/// A law of the pipeline, for every configuration under the
/// never-overwrite policy and every input it could meet: once the destination
/// turns out to exist, the run ends skipped, reports the original size as
/// written, leaves the codec untouched, and accepts no further event.
pub fn never_policy_skips_before_codec(options: &CompressionOptions, input_path: &str, size: u64)
    requires
        options.overwrite_policy == OverwritePolicy::Never,
        size <= MAX_FILE_SIZE,
{
    let mut p = FilePipeline::new(input_path, false);
    let a1 = p.step(options, PipelineEvent::InputStat { size: Some(size) });
    match a1 {
        PipelineAction::Report => {
            // Path resolution failed, so the destination was never consulted.
            assert(p.result.status == CompressionStatus::Error);
        },
        _ => {
            let a2 = p.step(options, PipelineEvent::DirReady { ok: true });
            match a2 {
                PipelineAction::Report => {
                    assert(p.result.status == CompressionStatus::Error);
                },
                _ => {
                    let a3 = p.step(options, PipelineEvent::DestExists { exists: true });
                    assert(p.result.status == CompressionStatus::Skipped);
                    assert(p.result.compressed_size == size);
                    assert(p.result.original_size == size);
                    assert(!p.codec_ran);
                    assert(a3 is Report);
                    proof {
                        lemma_finished_accepts_no_event(
                            &p.phase,
                            &PipelineEvent::DestExists { exists: true },
                        );
                    }
                },
            }
        },
    }
}

/// A law of the pipeline, for every configuration under the
/// bigger-only policy: when the existing destination is already no larger
/// than what the codec produced, the run ends skipped, the produced bytes are
/// never handed out for writing, and the original size is reported;
/// otherwise the produced bytes go to the staged write unchanged.
pub fn bigger_policy_discards_without_writing(
    options: &CompressionOptions,
    input_path: &str,
    size: u64,
    width: usize,
    height: usize,
    data: Vec<u8>,
    existing_size: u64,
)
    requires
        options.overwrite_policy == OverwritePolicy::Bigger,
        size <= MAX_FILE_SIZE,
{
    let mut p = FilePipeline::new(input_path, false);
    let a1 = p.step(options, PipelineEvent::InputStat { size: Some(size) });
    if !(matches!(a1, PipelineAction::Report)) {
        let a2 = p.step(options, PipelineEvent::DirReady { ok: true });
        if !(matches!(a2, PipelineAction::Report)) {
            // Under this policy an existing destination does not skip here.
            let a3 = p.step(options, PipelineEvent::DestExists { exists: true });
            match a3 {
                PipelineAction::ProbeResolution { .. } => {
                    let _ = p.step(
                        options,
                        PipelineEvent::Probe {
                            dims: Ok((width, height)),
                            mime_is_jpeg: false,
                            exif_orientation: None,
                        },
                    );
                },
                PipelineAction::ReadInput { .. } => {},
                _ => {
                    proof {
                        assert(false);
                    }
                },
            }
            let a4 = p.step(options, PipelineEvent::InputBytes { data: Some(data) });
            if !(matches!(a4, PipelineAction::Report)) {
                let produced_len: usize = match &p.phase {
                    Phase::AwaitDestSize { produced } => produced.len(),
                    _ => vstd::pervasive::unreached(),
                };
                let a5 = p.step(
                    options,
                    PipelineEvent::DestSize { existing: Some(Some(existing_size)) },
                );
                if existing_size <= produced_len as u64 {
                    // The destination stays: nothing is ever written.
                    assert(p.result.status == CompressionStatus::Skipped);
                    assert(p.result.compressed_size == size);
                    assert(a5 is Report);
                } else {
                    // The smaller output replaces it, byte for byte.
                    match a5 {
                        PipelineAction::Persist { data, keep_dates, .. } => {
                            assert(data@.len() == produced_len);
                            assert(keep_dates == options.keep_dates);
                        },
                        _ => {
                            proof {
                                assert(false);
                            }
                        },
                    }
                }
            }
        }
    }
}

/// A law of the pipeline, for every configuration under the
/// overwrite-all policy: an existing destination never causes a skip, the
/// codec's output goes to the staged write unchanged, and a completed write
/// reports success with exactly the written byte count — so a repeated run
/// leaves on disk exactly what its own codec pass produced.
pub fn all_policy_always_writes(
    options: &CompressionOptions,
    input_path: &str,
    size: u64,
    width: usize,
    height: usize,
    data: Vec<u8>,
    dest_exists: bool,
)
    requires
        options.overwrite_policy == OverwritePolicy::All,
        size <= MAX_FILE_SIZE,
{
    let mut p = FilePipeline::new(input_path, false);
    let a1 = p.step(options, PipelineEvent::InputStat { size: Some(size) });
    if !(matches!(a1, PipelineAction::Report)) {
        let a2 = p.step(options, PipelineEvent::DirReady { ok: true });
        if !(matches!(a2, PipelineAction::Report)) {
            let a3 = p.step(options, PipelineEvent::DestExists { exists: dest_exists });
            // Whatever the destination held, the run is not skipped here.
            assert(!(p.result.status == CompressionStatus::Skipped));
            match a3 {
                PipelineAction::ProbeResolution { .. } => {
                    let _ = p.step(
                        options,
                        PipelineEvent::Probe {
                            dims: Ok((width, height)),
                            mime_is_jpeg: false,
                            exif_orientation: None,
                        },
                    );
                },
                PipelineAction::ReadInput { .. } => {},
                _ => {
                    proof {
                        assert(false);
                    }
                },
            }
            let a4 = p.step(options, PipelineEvent::InputBytes { data: Some(data) });
            match a4 {
                PipelineAction::Report => {
                    // Only the codec itself can end the run at this point.
                    assert(p.result.status == CompressionStatus::Error);
                },
                PipelineAction::Persist { data, .. } => {
                    let written = data.len() as u64;
                    let a5 = p.step(
                        options,
                        PipelineEvent::Persisted { outcome: PersistOutcome::Done },
                    );
                    assert(p.result.status == CompressionStatus::Success);
                    assert(p.result.compressed_size == written);
                    assert(a5 is Report);
                },
                _ => {
                    proof {
                        assert(false);
                    }
                },
            }
        }
    }
}

/// An owned copy of a string.
fn clone_string(s: &String) -> (r: String)
    ensures
        r == s,
{
    s.clone()
}

} // verus!
