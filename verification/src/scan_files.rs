//! File discovery decisions: eligibility of a candidate path and the
//! incremental common-base-path computation.
//!
//! Walking directories and probing the filesystem are the caller's side;
//! the facts read there arrive here as a [`FileProbe`] and as already
//! absolutized paths.

use vstd::prelude::*;

use crate::fpath::FilePath;
use crate::sniff::{
    gif_magic, is_gif_header, is_jpeg_header, is_png_header, is_webp_header, jpeg_magic, png_magic,
    sniff_mime, sniffed_mime, webp_magic,
};

verus! {

/// What the filesystem said about one candidate path: whether it exists,
/// whether it is a regular file, and its first bytes when they could be read.
pub struct FileProbe {
    pub exists: bool,
    pub is_file: bool,
    pub header: Option<Vec<u8>>,
}

/// A header bearing one of the four supported image magics.
pub open spec fn supported_magic(b: Seq<u8>) -> bool {
    jpeg_magic(b) || png_magic(b) || webp_magic(b) || gif_magic(b)
}

/// An eligible candidate: an existing regular file whose readable header
/// bears a supported image magic.
pub open spec fn probe_eligible(p: &FileProbe) -> bool {
    &&& p.exists
    &&& p.is_file
    &&& match p.header {
        Some(h) => supported_magic(h@),
        None => false,
    }
}

/// Whether a file header bears one of the four supported image magics.
pub fn is_filetype_supported(header: &[u8]) -> (r: bool)
    ensures
        r == supported_magic(header@),
{
    is_jpeg_header(header) || is_png_header(header) || is_webp_header(header) || is_gif_header(
        header,
    )
}

/// The mime string sniffed from a file header, if its type is known.
pub fn get_file_mime_type(header: &[u8]) -> (r: Option<String>)
    ensures
        r.deep_view() == sniffed_mime(header@),
{
    sniff_mime(header)
}

/// Whether a probed candidate is an eligible input file.
pub fn is_valid(probe: &FileProbe) -> (r: bool)
    ensures
        r == probe_eligible(probe),
{
    if !probe.exists || !probe.is_file {
        return false;
    }
    match &probe.header {
        Some(h) => is_filetype_supported(h.as_slice()),
        None => false,
    }
}

/// The directory that anchors a new path in the base computation: the path
/// itself, or its parent when it names a file (the root when it has none).
pub open spec fn anchor_absolute(p: &FilePath, treat_as_file: bool) -> bool {
    if treat_as_file && p.segs().len() == 0 {
        true
    } else {
        p.absolute
    }
}

/// The component list of the anchoring directory; see [`anchor_absolute`].
pub open spec fn anchor_segs(p: &FilePath, treat_as_file: bool) -> Seq<Seq<char>> {
    if treat_as_file {
        if p.segs().len() > 0 {
            p.segs().drop_last()
        } else {
            Seq::empty()
        }
    } else {
        p.segs()
    }
}

/// What the updated base folder is: the new path's parent when no base was
/// set yet; an empty base kept when the new path has no parent; otherwise
/// the component-wise longest common prefix of the base and the new path's
/// anchoring directory.
pub open spec fn base_folder_post(
    base: &FilePath,
    newp: &FilePath,
    new_is_file: bool,
    r: &FilePath,
) -> bool {
    if base.is_empty_path() && newp.segs().len() > 0 {
        r.absolute == newp.absolute && r.segs() =~= newp.segs().drop_last()
    } else if base.segs().len() == 0 {
        r.absolute == base.absolute && r.segs().len() == 0
    } else {
        crate::fpath::common_prefix_of(
            base.absolute,
            base.segs(),
            anchor_absolute(newp, new_is_file),
            anchor_segs(newp, new_is_file),
            r.absolute,
            r.segs(),
        )
    }
}

/// Narrows the running base folder by one newly accepted path.
///
/// `new_is_file` says whether the filesystem reports `new_path` as a regular
/// file; only then is its parent, not the path itself, taken as its anchor.
pub fn compute_base_folder(base_folder: &FilePath, new_path: &FilePath, new_is_file: bool) -> (r:
    Option<FilePath>)
    ensures
        match r {
            Some(bp) => base_folder_post(base_folder, new_path, new_is_file, &bp),
            None => false,
        },
{
    if base_folder.segments.len() == 0 && !base_folder.absolute {
        match new_path.parent() {
            Some(p) => {
                return Some(p);
            },
            None => {},
        }
    }
    if base_folder.segments.len() == 0 {
        return Some(base_folder.clone_path());
    }
    let anchor: FilePath = if new_is_file {
        match new_path.parent() {
            Some(p) => p,
            None => FilePath::root(),
        }
    } else {
        new_path.clone_path()
    };
    proof {
        assert(anchor.absolute == anchor_absolute(new_path, new_is_file));
        assert(anchor.segs() =~= anchor_segs(new_path, new_is_file));
    }
    Some(base_folder.common_prefix(&anchor))
}

/// Updates the base folder for a newly discovered path, given whether the
/// path exists, whether it is a regular file, and its absolutized form;
/// `None` when the path does not exist or could not be absolutized.
pub fn compute_base_path(
    abs_path: Option<&FilePath>,
    path_exists: bool,
    path_is_file: bool,
    base_path: &FilePath,
) -> (r: Option<FilePath>)
    ensures
        match r {
            Some(bp) => path_exists && abs_path.is_some() && base_folder_post(
                base_path,
                abs_path.unwrap(),
                path_is_file,
                &bp,
            ),
            None => !path_exists || abs_path.is_none(),
        },
{
    if !path_exists {
        return None;
    }
    match abs_path {
        Some(ap) => compute_base_folder(base_path, ap, path_is_file),
        None => None,
    }
}

/// The scanner's running state: the base folder narrowed so far and the
/// ordered eligible files, each kept as it was named.
pub struct ScanState {
    pub base_path: FilePath,
    pub files: Vec<String>,
}

impl ScanState {
    /// The state before any path has been accepted.
    pub fn start() -> (r: ScanState)
        ensures
            r.base_path.is_empty_path(),
            r.files@.len() == 0,
    {
        ScanState { base_path: FilePath::new(), files: Vec::new() }
    }

    /// Feeds one candidate to the scanner: an ineligible candidate changes
    /// nothing, and an eligible one narrows the base folder and is appended
    /// to the files, in discovery order.
    pub fn accept_candidate(
        &mut self,
        path: String,
        abs_path: Option<&FilePath>,
        probe: &FileProbe,
    )
        ensures
            !(probe_eligible(probe) && abs_path.is_some()) ==> final(self).base_path
                == old(self).base_path && final(self).files@ =~= old(self).files@,
            probe_eligible(probe) && abs_path.is_some() ==> final(self).files@ =~= old(
                self,
            ).files@.push(path) && base_folder_post(
                &old(self).base_path,
                abs_path.unwrap(),
                probe.is_file,
                &final(self).base_path,
            ),
    {
        if !is_valid(probe) {
            return ;
        }
        match compute_base_path(abs_path, probe.exists, probe.is_file, &self.base_path) {
            Some(bp) => {
                self.base_path = bp;
                self.files.push(path);
            },
            None => {},
        }
    }
}

} // verus!
