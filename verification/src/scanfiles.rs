//! An alternative scanner: mime-based eligibility and a base-folder update
//! that anchors on canonicalized paths and never leaves the base relative.

use vstd::prelude::*;

use crate::fpath::FilePath;
use crate::sniff::{gif_magic, jpeg_magic, png_magic, sniff_mime, sniffed_mime, webp_magic};

verus! {

/// The mime strings this scanner accepts: the four supported image types.
pub open spec fn supported_mime(m: Seq<char>) -> bool {
    ||| m == "image/jpeg"@
    ||| m == "image/png"@
    ||| m == "image/gif"@
    ||| m == "image/webp"@
}

/// Whether a sniffed file header names one of the four supported mime types.
pub fn is_filetype_supported(header: &[u8]) -> (r: bool)
    ensures
        r == match sniffed_mime(header@) {
            Some(m) => supported_mime(m),
            None => false,
        },
        r ==> jpeg_magic(header@) || png_magic(header@) || gif_magic(header@) || webp_magic(
            header@,
        ),
{
    match sniff_mime(header) {
        Some(m) => {
            let s = m.as_str();
            str_eq(s, "image/jpeg") || str_eq(s, "image/png") || str_eq(s, "image/gif") || str_eq(
                s,
                "image/webp",
            )
        },
        None => false,
    }
}

/// Whether a probed candidate is an eligible input file for this scanner:
/// an existing regular file whose sniffed mime type is supported.
pub fn is_valid(probe: &crate::scan_files::FileProbe) -> (r: bool)
    ensures
        r == (probe.exists && probe.is_file && match probe.header {
            Some(h) => match sniffed_mime(h@) {
                Some(m) => supported_mime(m),
                None => false,
            },
            None => false,
        }),
{
    if !probe.exists || !probe.is_file {
        return false;
    }
    match &probe.header {
        Some(h) => is_filetype_supported(h.as_slice()),
        None => false,
    }
}

/// The base folder this scanner keeps after seeing a new path: a first path
/// sets it to the new path's directory, and later ones narrow it to the
/// common prefix, degraded to the root when nothing is shared.
pub open spec fn narrowed_base_post(
    base: &FilePath,
    newp: &FilePath,
    new_is_dir: bool,
    new_is_file: bool,
    r: &FilePath,
) -> bool {
    if base.segs().len() == 0 {
        if new_is_dir {
            r.absolute == newp.absolute && r.segs() =~= newp.segs()
        } else {
            r.absolute == crate::scan_files::anchor_absolute(newp, true) && r.segs()
                =~= crate::scan_files::anchor_segs(newp, true)
        }
    } else {
        let pa = crate::scan_files::anchor_absolute(newp, new_is_file);
        let ps = crate::scan_files::anchor_segs(newp, new_is_file);
        if base.absolute != pa || ps.len() == 0 || base.segs()[0] != ps[0] {
            r.absolute && r.segs().len() == 0
        } else {
            crate::fpath::common_prefix_of(base.absolute, base.segs(), pa, ps, r.absolute, r.segs())
                && r.segs().len() > 0
        }
    }
}

/// Narrows the running base folder by one canonicalized path; `new_is_dir`
/// and `new_is_file` say what the filesystem reports the path to be.
pub fn compute_base_folder(
    base_folder: &FilePath,
    new_path: &FilePath,
    new_is_dir: bool,
    new_is_file: bool,
) -> (r: FilePath)
    ensures
        narrowed_base_post(base_folder, new_path, new_is_dir, new_is_file, &r),
{
    if base_folder.segments.len() == 0 {
        if new_is_dir {
            return new_path.clone_path();
        }
        return match new_path.parent() {
            Some(p) => p,
            None => FilePath::root(),
        };
    }
    let anchor: FilePath = if new_is_file {
        match new_path.parent() {
            Some(p) => p,
            None => FilePath::root(),
        }
    } else {
        new_path.clone_path()
    };
    proof {
        assert(anchor.absolute == crate::scan_files::anchor_absolute(new_path, new_is_file));
        assert(anchor.segs() =~= crate::scan_files::anchor_segs(new_path, new_is_file));
    }
    let folder = base_folder.common_prefix(&anchor);
    if folder.segments.len() == 0 {
        let r = FilePath::root();
        proof {
            assert(crate::fpath::common_prefix_of(
                base_folder.absolute,
                base_folder.segs(),
                anchor.absolute,
                anchor.segs(),
                folder.absolute,
                folder.segs(),
            ));
        }
        return r;
    }
    proof {
        assert(folder.segs()[0] == base_folder.segs().take(folder.segs().len() as int)[0]);
        assert(folder.segs()[0] == anchor.segs().take(folder.segs().len() as int)[0]);
        assert(base_folder.segs()[0] == anchor.segs()[0]);
    }
    folder
}

/// Canonicalization happens at the caller; a path it could resolve is pushed
/// onto the file list and narrows the base folder, and one it could not
/// leaves both alone.
pub fn canonicalize_and_push(
    canonical: Option<FilePath>,
    canonical_is_dir: bool,
    canonical_is_file: bool,
    base_path: FilePath,
    files: &mut Vec<FilePath>,
) -> (r: FilePath)
    ensures
        match canonical {
            Some(ap) => final(files)@ =~= old(files)@.push(ap) && narrowed_base_post(
                &base_path,
                &ap,
                canonical_is_dir,
                canonical_is_file,
                &r,
            ),
            None => final(files)@ =~= old(files)@ && r == base_path,
        },
{
    match canonical {
        Some(ap) => {
            let bp = compute_base_folder(&base_path, &ap, canonical_is_dir, canonical_is_file);
            files.push(ap);
            bp
        },
        None => base_path,
    }
}

/// Whether a string slice holds exactly the given characters.
fn str_eq(a: &str, b: &str) -> (r: bool)
    ensures
        r == (a@ == b@),
{
    let sa = String::from_str(a);
    let sb = String::from_str(b);
    sa.eq(&sb)
}

} // verus!
