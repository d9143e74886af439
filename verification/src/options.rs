//! Configuration surface: the policy and format enums, the plain argument
//! structs, and the numeric range validators used on argument values.

use vstd::prelude::*;

verus! {

/// Policy for handling existing output files.
#[derive(Copy, Clone, PartialEq, Eq, Structural, Debug)]
pub enum OverwritePolicy {
    /// Always overwrite existing files
    All,
    /// Never overwrite existing files
    Never,
    /// Overwrite only if the existing file is bigger
    Bigger,
}

/// Target image format of the output, or `Original` to keep the input's.
#[derive(Copy, Clone, PartialEq, Eq, Structural, Debug)]
pub enum OutputFormat {
    Jpeg,
    Png,
    Gif,
    Webp,
    Tiff,
    Original,
}

/// Chroma subsampling choices for JPEG output.
#[derive(Copy, Clone, PartialEq, Eq, Structural, Debug)]
pub enum JpegChromaSubsampling {
    ChromaSubsampling444,
    ChromaSubsampling422,
    ChromaSubsampling420,
    ChromaSubsampling411,
    Auto,
}

/// Compression strength arguments.
pub struct Compression {
    /// Compression quality [0-100], higher values mean better quality
    pub quality: Option<u32>,
    /// Use lossless compression (may increase file size for some formats)
    pub lossless: bool,
    /// Target maximum file size in bytes
    pub max_size: Option<usize>,
}

/// Resize request arguments; at most one dimension selector is set.
pub struct Resize {
    /// Output image width in pixels (preserves the aspect ratio if height not set)
    pub width: Option<u32>,
    /// Output image height in pixels (preserves the aspect ratio if width not set)
    pub height: Option<u32>,
    /// Size in pixels for the longest edge of the image
    pub long_edge: Option<u32>,
    /// Size in pixels for the shortest edge of the image
    pub short_edge: Option<u32>,
    /// Cancel the resize instead of growing the image
    pub no_upscale: bool,
}

/// Where output files go.
pub struct OutputDestination {
    /// Output directory path
    pub output: Option<String>,
    /// Use input file's directory as output
    pub same_folder_as_input: bool,
}

/// The validated command line, as plain values.
pub struct CommandLineArgs {
    pub compression: Compression,
    pub resize: Resize,
    pub output_destination: OutputDestination,
    /// Convert to the selected output format or keep the original
    pub format: OutputFormat,
    /// PNG optimization level [0-6]
    pub png_opt_level: u8,
    /// Chroma subsampling for JPEG files
    pub jpeg_chroma_subsampling: JpegChromaSubsampling,
    /// Output baseline JPEG instead of progressive
    pub jpeg_baseline: bool,
    /// Use zopfli for PNG optimization
    pub zopfli: bool,
    /// Keep EXIF metadata during compression
    pub exif: bool,
    /// Preserve original file timestamps
    pub keep_dates: bool,
    /// Suffix added to output filenames
    pub suffix: Option<String>,
    /// Scan subfolders recursively when input is a directory
    pub recursive: bool,
    /// Preserve directory structure
    pub keep_structure: bool,
    /// Simulate compression without writing files
    pub dry_run: bool,
    /// Number of parallel jobs (0 = auto-detect)
    pub threads: u32,
    /// Policy for handling existing output files
    pub overwrite: OverwritePolicy,
    /// Suppress all output
    pub quiet: bool,
    /// Verbosity level
    pub verbose: u8,
    /// Input files or directories to process
    pub files: Vec<String>,
}

/// Whether `c` is a decimal digit.
pub open spec fn is_digit_char(c: char) -> bool {
    '0' <= c && c <= '9'
}

/// The numeric value of a decimal digit.
pub open spec fn digit_value(c: char) -> int {
    c as int - '0' as int
}

/// A non-empty, all-digit character sequence.
pub open spec fn all_digits(s: Seq<char>) -> bool {
    s.len() > 0 && forall|i: int| 0 <= i < s.len() ==> is_digit_char(#[trigger] s[i])
}

/// The value of a digit sequence read in base ten.
pub open spec fn digits_value(s: Seq<char>) -> int
    decreases s.len(),
{
    if s.len() == 0 {
        0
    } else {
        digits_value(s.drop_last()) * 10 + digit_value(s.last())
    }
}

/// The digits of an integer literal, with any single leading sign removed.
pub open spec fn int_body(s: Seq<char>) -> Seq<char> {
    if s.len() > 0 && (s[0] == '-' || s[0] == '+') {
        s.skip(1)
    } else {
        s
    }
}

/// Whether `s` is a decimal integer literal: an optional sign, then digits.
pub open spec fn is_int_literal(s: Seq<char>) -> bool {
    all_digits(int_body(s))
}

/// The value a decimal integer literal denotes.
pub open spec fn int_literal_value(s: Seq<char>) -> int {
    if s.len() > 0 && s[0] == '-' {
        -digits_value(int_body(s))
    } else {
        digits_value(int_body(s))
    }
}

/// An all-digit sequence has a non-negative value.
proof fn lemma_digits_value_nonneg(s: Seq<char>)
    requires
        forall|i: int| 0 <= i < s.len() ==> is_digit_char(#[trigger] s[i]),
    ensures
        digits_value(s) >= 0,
    decreases s.len(),
{
    if s.len() > 0 {
        lemma_digits_value_nonneg(s.drop_last());
    }
}

/// Extending a digit sequence never lowers its value.
proof fn lemma_digits_value_mono(s: Seq<char>, k: int)
    requires
        0 <= k <= s.len(),
        forall|i: int| 0 <= i < s.len() ==> is_digit_char(#[trigger] s[i]),
    ensures
        digits_value(s) >= digits_value(s.take(k)),
    decreases s.len() - k,
{
    if k < s.len() {
        let t = s.drop_last();
        assert(t.take(k) =~= s.take(k));
        assert(forall|i: int| 0 <= i < t.len() ==> is_digit_char(#[trigger] t[i]));
        lemma_digits_value_mono(t, k);
        lemma_digits_value_nonneg(t);
    } else {
        assert(s.take(k) =~= s);
    }
}

/// Parses a decimal integer string; `None` on malformed input and on values
/// outside the `i64` range.
pub fn parse_i64(s: &str) -> (r: Option<i64>)
    ensures
        match r {
            Some(v) => is_int_literal(s@) && int_literal_value(s@) == v as int,
            None => !is_int_literal(s@) || int_literal_value(s@) < i64::MIN || int_literal_value(
                s@,
            ) > i64::MAX,
        },
{
    let n: usize = s.unicode_len();
    if n == 0 {
        return None;
    }
    let c0 = s.get_char(0);
    let negative: bool = c0 == '-';
    let start: usize = if c0 == '-' || c0 == '+' {
        1
    } else {
        0
    };
    if start >= n {
        assert(int_body(s@).len() == 0);
        return None;
    }
    let ghost body = int_body(s@);
    proof {
        if start == 1 {
            assert(body =~= s@.skip(1));
        } else {
            assert(body =~= s@);
        }
        assert(body.take(0) =~= Seq::<char>::empty());
    }
    let mut mag: u64 = 0;
    let mut i: usize = start;
    while i < n
        invariant
            n == s@.len(),
            start <= i <= n,
            start <= 1,
            body == int_body(s@),
            body.len() == n - start,
            forall|j: int| 0 <= j < body.len() ==> body[j] == s@[j + start],
            forall|j: int| 0 <= j < i - start ==> is_digit_char(#[trigger] body[j]),
            mag == digits_value(body.take(i - start)),
        decreases n - i,
    {
        let c = s.get_char(i);
        let d: u32 = c as u32;
        if d < 48 || d > 57 {
            assert(!is_digit_char(body[i - start]));
            assert(!all_digits(body));
            return None;
        }
        assert(is_digit_char(body[i - start]));
        let dv: u64 = (d - 48) as u64;
        let ghost pre = body.take(i - start);
        proof {
            assert(body.take(i - start + 1).drop_last() =~= pre);
            assert(body.take(i - start + 1).last() == body[i - start]);
            assert(digit_value(body[i - start]) == dv as int);
        }
        if mag > (u64::MAX - dv) / 10 {
            proof {
                let m = u64::MAX - dv;
                vstd::arithmetic::div_mod::lemma_fundamental_div_mod(m as int, 10);
                vstd::arithmetic::div_mod::lemma_mod_bound(m as int, 10);
                assert(mag as int * 10 + dv as int > u64::MAX);
                assert(digits_value(body.take(i - start + 1)) > u64::MAX);
                if all_digits(body) {
                    lemma_digits_value_mono(body, i - start + 1);
                    assert(digits_value(body) > u64::MAX);
                    assert(u64::MAX >= i64::MAX);
                    if s@[0] == '-' {
                        assert(int_literal_value(s@) < i64::MIN);
                    } else {
                        assert(int_literal_value(s@) > i64::MAX);
                    }
                }
            }
            return None;
        }
        proof {
            let m = u64::MAX - dv;
            vstd::arithmetic::div_mod::lemma_fundamental_div_mod(m as int, 10);
            vstd::arithmetic::div_mod::lemma_mod_bound(m as int, 10);
            assert(mag as int * 10 + dv as int <= u64::MAX);
        }
        mag = mag * 10 + dv;
        i = i + 1;
    }
    proof {
        assert(body.take(n - start) =~= body);
        assert(all_digits(body));
    }
    if negative {
        if mag > 9223372036854775808u64 {
            proof {
                assert(int_literal_value(s@) == -(mag as int));
                assert(int_literal_value(s@) < i64::MIN);
            }
            return None;
        }
        if mag == 9223372036854775808u64 {
            Some(i64::MIN)
        } else {
            Some(-(mag as i64))
        }
    } else {
        if mag > 9223372036854775807u64 {
            proof {
                assert(int_literal_value(s@) == mag as int);
            }
            return None;
        }
        Some(mag as i64)
    }
}

/// Ten to the `k`.
spec fn pow10(k: nat) -> int
    decreases k,
{
    if k == 0 {
        1
    } else {
        10 * pow10((k - 1) as nat)
    }
}

/// The value of extracted digits read least significant first.
spec fn digits_lsf_value(ds: Seq<u8>) -> int
    decreases ds.len(),
{
    if ds.len() == 0 {
        0
    } else {
        ds[0] + 10 * digits_lsf_value(ds.skip(1))
    }
}

/// Appending a digit adds it at the next power of ten.
proof fn lemma_lsf_push(ds: Seq<u8>, d: u8)
    ensures
        digits_lsf_value(ds.push(d)) == digits_lsf_value(ds) + d * pow10(ds.len()),
    decreases ds.len(),
{
    if ds.len() == 0 {
        assert(ds.push(d).skip(1) =~= Seq::<u8>::empty());
        assert(ds.push(d)[0] == d);
        assert(digits_lsf_value(Seq::<u8>::empty()) == 0);
        assert(digits_lsf_value(ds.push(d)) == d + 10 * 0);
        assert(pow10(0) == 1);
    } else {
        assert(ds.push(d).skip(1) =~= ds.skip(1).push(d));
        assert(ds.push(d)[0] == ds[0]);
        lemma_lsf_push(ds.skip(1), d);
        let k = ds.skip(1).len();
        assert(pow10(k + 1) == 10 * pow10(k));
        assert(10 * (digits_lsf_value(ds.skip(1)) + d * pow10(k)) == 10 * digits_lsf_value(
            ds.skip(1),
        ) + d * (10 * pow10(k))) by (nonlinear_arith);
        assert(digits_lsf_value(ds.push(d)) == ds[0] + 10 * (digits_lsf_value(ds.skip(1)) + d
            * pow10(k)));
        assert(digits_lsf_value(ds) == ds[0] + 10 * digits_lsf_value(ds.skip(1)));
    }
}

/// Extending a digit string by one digit multiplies its value by ten.
proof fn lemma_digits_value_push(s: Seq<char>, c: char)
    ensures
        digits_value(s.push(c)) == digits_value(s) * 10 + digit_value(c),
{
    assert(s.push(c).drop_last() =~= s);
    assert(s.push(c).last() == c);
}

/// Renders an unsigned value in decimal.
fn u64_to_string(v: u64) -> (r: String)
    ensures
        all_digits(r@),
        digits_value(r@) == v as int,
{
    proof {
        reveal_strlit("0");
        assert(("0")@ =~= seq!['0']);
    }
    if v == 0 {
        let r = String::from_str("0");
        proof {
            assert(r@.len() == 1);
            assert(r@.last() == '0');
            assert(r@.drop_last() =~= Seq::<char>::empty());
            assert(digits_value(r@) == digits_value(Seq::<char>::empty()) * 10 + digit_value('0'));
        }
        return r;
    }
    let mut digits: Vec<u8> = Vec::new();
    let mut n: u64 = v;
    proof {
        assert(v as int == digits_lsf_value(digits@) + (n as int) * pow10(digits@.len()));
    }
    while n > 0
        invariant
            v as int == digits_lsf_value(digits@) + (n as int) * pow10(digits@.len()),
            forall|i: int| 0 <= i < digits@.len() ==> #[trigger] digits@[i] <= 9,
            n == 0 ==> digits@.len() > 0,
            v > 0,
        decreases n,
    {
        let d: u8 = (n % 10) as u8;
        let n2: u64 = n / 10;
        proof {
            vstd::arithmetic::div_mod::lemma_fundamental_div_mod(n as int, 10);
            lemma_lsf_push(digits@, d);
            let k = digits@.len();
            assert((n as int) * pow10(k) == (d as int) * pow10(k) + (n2 as int) * (10 * pow10(k)))
                by (nonlinear_arith)
                requires
                    n as int == 10 * (n2 as int) + d as int,
            ;
            assert(pow10(k + 1) == 10 * pow10(k));
            assert((n2 as int) * pow10(k + 1) == (n2 as int) * (10 * pow10(k)));
            assert(n2 < n) by (nonlinear_arith)
                requires
                    n > 0,
                    n2 == n as int / 10,
            ;
        }
        digits.push(d);
        n = n2;
    }
    let mut out = String::new();
    let mut j: usize = digits.len();
    proof {
        assert(digits@.skip(j as int) =~= Seq::<u8>::empty());
    }
    while j > 0
        invariant
            0 <= j <= digits@.len(),
            forall|i: int| 0 <= i < digits@.len() ==> #[trigger] digits@[i] <= 9,
            digits_value(out@) == digits_lsf_value(digits@.skip(j as int)),
            out@.len() == digits@.len() - j,
            forall|i: int| 0 <= i < out@.len() ==> is_digit_char(#[trigger] out@[i]),
        decreases j,
    {
        let d = digits[j - 1];
        let ghost before = out@;
        let c: char = append_digit(&mut out, d);
        proof {
            assert(out@ =~= before.push(c));
            lemma_digits_value_push(before, c);
            assert(digits@.skip(j as int - 1)[0] == digits@[j - 1]);
            assert(digits@.skip(j as int - 1).skip(1) =~= digits@.skip(j as int));
        }
        j = j - 1;
    }
    proof {
        assert(digits@.skip(0) =~= digits@);
    }
    out
}

/// Appends one decimal digit character.
fn append_digit(out: &mut String, d: u8) -> (c: char)
    requires
        d <= 9,
    ensures
        final(out)@ == old(out)@.push(c),
        is_digit_char(c),
        digit_value(c) == d as int,
{
    proof {
        reveal_strlit("0");
        reveal_strlit("1");
        reveal_strlit("2");
        reveal_strlit("3");
        reveal_strlit("4");
        reveal_strlit("5");
        reveal_strlit("6");
        reveal_strlit("7");
        reveal_strlit("8");
        reveal_strlit("9");
        assert(("0")@ =~= seq!['0']);
        assert(("1")@ =~= seq!['1']);
        assert(("2")@ =~= seq!['2']);
        assert(("3")@ =~= seq!['3']);
        assert(("4")@ =~= seq!['4']);
        assert(("5")@ =~= seq!['5']);
        assert(("6")@ =~= seq!['6']);
        assert(("7")@ =~= seq!['7']);
        assert(("8")@ =~= seq!['8']);
        assert(("9")@ =~= seq!['9']);
    }
    let c: char;
    if d == 0 {
        out.append("0");
        c = '0';
    } else if d == 1 {
        out.append("1");
        c = '1';
    } else if d == 2 {
        out.append("2");
        c = '2';
    } else if d == 3 {
        out.append("3");
        c = '3';
    } else if d == 4 {
        out.append("4");
        c = '4';
    } else if d == 5 {
        out.append("5");
        c = '5';
    } else if d == 6 {
        out.append("6");
        c = '6';
    } else if d == 7 {
        out.append("7");
        c = '7';
    } else if d == 8 {
        out.append("8");
        c = '8';
    } else {
        out.append("9");
        c = '9';
    }
    proof {
        assert(final(out)@ =~= old(out)@.push(c));
    }
    c
}

/// Renders a signed value in decimal; the result reads back as the value.
pub fn i64_to_string(v: i64) -> (r: String)
    ensures
        is_int_literal(r@),
        int_literal_value(r@) == v as int,
{
    if v >= 0 {
        let r = u64_to_string(v as u64);
        proof {
            assert(r@.len() > 0);
            assert(is_digit_char(r@[0]));
            assert(int_body(r@) =~= r@);
        }
        r
    } else {
        let mag: u64 = if v == i64::MIN {
            9223372036854775808u64
        } else {
            (-v) as u64
        };
        let ds = u64_to_string(mag);
        proof {
            reveal_strlit("-");
            assert(("-")@ =~= seq!['-']);
        }
        let mut out = String::from_str("-");
        out.append(ds.as_str());
        proof {
            assert(out@[0] == '-');
            assert(int_body(out@) =~= ds@);
        }
        out
    }
}

/// A decimal rendering of `v`: an integer literal with that value.
pub open spec fn renders_int(s: Seq<char>, v: int) -> bool {
    is_int_literal(s) && int_literal_value(s) == v
}

/// Checks that `val` names an integer between `min` and `max`, inclusive.
/// Returns the value on success; on failure, a message that either reports
/// the unparsable input or names the field, both bounds and the value.
pub fn validate_range(val: &str, min: i64, max: i64, field_name: &str) -> (r: Result<i64, String>)
    ensures
        match r {
            Ok(v) => is_int_literal(val@) && int_literal_value(val@) == v as int && min <= v <= max,
            Err(m) => {
                &&& !(is_int_literal(val@) && min as int <= int_literal_value(val@) <= max as int)
                &&& if is_int_literal(val@) && i64::MIN <= int_literal_value(val@) <= i64::MAX {
                    exists|a: Seq<char>, b: Seq<char>, c: Seq<char>|
                        {
                            &&& #[trigger] renders_int(a, min as int)
                            &&& #[trigger] renders_int(b, max as int)
                            &&& #[trigger] renders_int(c, int_literal_value(val@))
                            &&& m@ == field_name@ + " must be between "@ + a + " and "@ + b
                                + ", but got "@ + c
                        }
                } else {
                    m@ == "'"@ + val@ + "' is not a valid number"@
                }
            },
        },
{
    match parse_i64(val) {
        Some(v) => {
            if v < min || v > max {
                let rendered_min = i64_to_string(min);
                let rendered_max = i64_to_string(max);
                let rendered_val = i64_to_string(v);
                let mut msg = String::from_str(field_name);
                msg.append(" must be between ");
                msg.append(rendered_min.as_str());
                msg.append(" and ");
                msg.append(rendered_max.as_str());
                msg.append(", but got ");
                msg.append(rendered_val.as_str());
                proof {
                    assert(renders_int(rendered_min@, min as int));
                    assert(renders_int(rendered_max@, max as int));
                    assert(renders_int(rendered_val@, int_literal_value(val@)));
                    assert(msg@ == field_name@ + " must be between "@ + rendered_min@ + " and "@
                        + rendered_max@ + ", but got "@ + rendered_val@);
                }
                Err(msg)
            } else {
                Ok(v)
            }
        },
        None => {
            let mut msg = String::from_str("'");
            msg.append(val);
            msg.append("' is not a valid number");
            proof {
                assert(msg@ == "'"@ + val@ + "' is not a valid number"@);
            }
            Err(msg)
        },
    }
}

/// Validates quality values are within the valid range [0-100].
pub fn quality_validator(val: &str) -> (r: Result<u32, String>)
    ensures
        match r {
            Ok(v) => is_int_literal(val@) && int_literal_value(val@) == v as int && v <= 100,
            Err(_) => !(is_int_literal(val@) && 0 <= int_literal_value(val@) <= 100),
        },
{
    match validate_range(val, 0, 100, "Quality") {
        Ok(v) => Ok(v as u32),
        Err(e) => Err(e),
    }
}

/// Validates verbosity levels are within the valid range [0-3].
pub fn verbosity_validator(val: &str) -> (r: Result<u8, String>)
    ensures
        match r {
            Ok(v) => is_int_literal(val@) && int_literal_value(val@) == v as int && v <= 3,
            Err(_) => !(is_int_literal(val@) && 0 <= int_literal_value(val@) <= 3),
        },
{
    match validate_range(val, 0, 3, "Verbosity") {
        Ok(v) => Ok(v as u8),
        Err(e) => Err(e),
    }
}

/// Validates PNG optimization levels are within the valid range [0-6].
pub fn png_opt_level_validator(val: &str) -> (r: Result<u8, String>)
    ensures
        match r {
            Ok(v) => is_int_literal(val@) && int_literal_value(val@) == v as int && v <= 6,
            Err(_) => !(is_int_literal(val@) && 0 <= int_literal_value(val@) <= 6),
        },
{
    match validate_range(val, 0, 6, "PNG optimization level") {
        Ok(v) => Ok(v as u8),
        Err(e) => Err(e),
    }
}

} // verus!
