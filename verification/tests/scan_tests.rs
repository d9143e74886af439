use caesiumclt::fpath::FilePath;
use caesiumclt::scan_files::{
    compute_base_folder, compute_base_path, get_file_mime_type, is_filetype_supported, is_valid,
    FileProbe, ScanState,
};
use caesiumclt::scanfiles;

fn jpeg_header() -> Vec<u8> {
    let mut h = vec![0xFF, 0xD8, 0xFF, 0xE0];
    h.resize(16, 0);
    h
}

fn png_header() -> Vec<u8> {
    let mut h = vec![0x89, 0x50, 0x4E, 0x47, 0x0D, 0x0A, 0x1A, 0x0A];
    h.resize(16, 0);
    h
}

fn webp_header() -> Vec<u8> {
    let mut h = vec![0x52, 0x49, 0x46, 0x46, 0x00, 0x00, 0x00, 0x00];
    h.extend_from_slice(&[0x57, 0x45, 0x42, 0x50]);
    h.resize(16, 0);
    h
}

fn gif_header() -> Vec<u8> {
    let mut h = vec![0x47, 0x49, 0x46, 0x38, 0x39, 0x61];
    h.resize(16, 0);
    h
}

fn tiff_header() -> Vec<u8> {
    let mut h = vec![0x49, 0x49, 0x2A, 0x00];
    h.resize(16, 0);
    h
}

#[test]
fn test_is_filetype_supported() {
    assert!(is_filetype_supported(&jpeg_header()));
    assert!(is_filetype_supported(&png_header()));
    assert!(is_filetype_supported(&webp_header()));
    assert!(is_filetype_supported(&gif_header()));

    // TIFF is not one of the four supported magics of this scanner.
    assert!(!is_filetype_supported(&tiff_header()));
    assert!(!is_filetype_supported(b"This is a text file"));
    assert!(!is_filetype_supported(&[]));
}

#[test]
fn mime_scanner_accepts_the_four_supported_types() {
    assert!(scanfiles::is_filetype_supported(&jpeg_header()));
    assert!(scanfiles::is_filetype_supported(&png_header()));
    assert!(scanfiles::is_filetype_supported(&gif_header()));
    assert!(scanfiles::is_filetype_supported(&webp_header()));
    assert!(!scanfiles::is_filetype_supported(&tiff_header()));
    assert!(!scanfiles::is_filetype_supported(b"This is a text file"));
}

#[test]
fn test_is_valid() {
    let good = FileProbe { exists: true, is_file: true, header: Some(jpeg_header()) };
    assert!(is_valid(&good));

    let directory = FileProbe { exists: true, is_file: false, header: None };
    assert!(!is_valid(&directory));

    let missing = FileProbe { exists: false, is_file: false, header: None };
    assert!(!is_valid(&missing));

    let unreadable = FileProbe { exists: true, is_file: true, header: None };
    assert!(!is_valid(&unreadable));

    let text = FileProbe { exists: true, is_file: true, header: Some(b"not an image!!!!".to_vec()) };
    assert!(!is_valid(&text));
}

#[test]
fn test_get_file_mime_type() {
    assert_eq!(get_file_mime_type(&jpeg_header()), Some("image/jpeg".to_string()));
    assert_eq!(get_file_mime_type(&png_header()), Some("image/png".to_string()));
    assert_eq!(get_file_mime_type(b"This is a text file"), None);
}

#[test]
fn test_compute_base_folder_with_files() {
    let base_folder = FilePath::from_string("/base/folder");
    let new_path = FilePath::from_string("/base/folder/subfolder/file.jpg");
    let result = compute_base_folder(&base_folder, &new_path, false).expect("Failed to compute base folder");
    assert_eq!(result.to_string(), "/base/folder");

    let base_folder = FilePath::from_string("/base/folder/subfolder/another/folder");
    let new_path = FilePath::from_string("/base/folder/subfolder/file.jpg");
    let result = compute_base_folder(&base_folder, &new_path, false).expect("Failed to compute base folder");
    assert_eq!(result.to_string(), "/base/folder/subfolder");

    let base_folder = FilePath::from_string("/base/folder/subfolder/another/folder");
    let new_path = FilePath::from_string("/file.jpg");
    let result = compute_base_folder(&base_folder, &new_path, false).expect("Failed to compute base folder");
    assert_eq!(result.to_string(), "/");

    let base_folder = FilePath::from_string("/");
    let new_path = FilePath::from_string("/base/folder/subfolder/file.jpg");
    let result = compute_base_folder(&base_folder, &new_path, false).expect("Failed to compute base folder");
    assert_eq!(result.to_string(), "/");

    let base_folder = FilePath::from_string("/");
    let new_path = FilePath::from_string("/file.jpg");
    let result = compute_base_folder(&base_folder, &new_path, false).expect("Failed to compute base folder");
    assert_eq!(result.to_string(), "/");

    let base_folder = FilePath::new();
    let new_path = FilePath::from_string("/temp/file.jpg");
    let result = compute_base_folder(&base_folder, &new_path, false).expect("Failed to compute base folder");
    assert_eq!(result.to_string(), "/temp");
}

#[test]
fn test_compute_base_folder_with_folders() {
    let base_folder = FilePath::from_string("/base/folder");
    let new_path = FilePath::from_string("/base/folder/subfolder");
    let result = compute_base_folder(&base_folder, &new_path, false).expect("Failed to compute base folder");
    assert_eq!(result.to_string(), "/base/folder");

    let base_folder = FilePath::from_string("/base/folder/subfolder/another/folder");
    let new_path = FilePath::from_string("/base/folder/subfolder");
    let result = compute_base_folder(&base_folder, &new_path, false).expect("Failed to compute base folder");
    assert_eq!(result.to_string(), "/base/folder/subfolder");

    let base_folder = FilePath::from_string("/base/folder/subfolder/another/folder");
    let new_path = FilePath::from_string("/");
    let result = compute_base_folder(&base_folder, &new_path, false).expect("Failed to compute base folder");
    assert_eq!(result.to_string(), "/");

    let base_folder = FilePath::from_string("/");
    let new_path = FilePath::from_string("/base/folder/subfolder");
    let result = compute_base_folder(&base_folder, &new_path, false).expect("Failed to compute base folder");
    assert_eq!(result.to_string(), "/");

    let base_folder = FilePath::from_string("/");
    let new_path = FilePath::from_string("/");
    let result = compute_base_folder(&base_folder, &new_path, false).expect("Failed to compute base folder");
    assert_eq!(result.to_string(), "/");
}

#[test]
fn test_compute_base_path() {
    // An existing directory narrows the base.
    let abs = FilePath::from_string("/current/working/dir");
    let base_path = FilePath::new();
    let result = compute_base_path(Some(&abs), true, false, &base_path);
    assert!(result.is_some());

    // A path that does not exist leaves the base untouched.
    let abs = FilePath::from_string("/non/existent/path");
    let result = compute_base_path(Some(&abs), false, false, &base_path);
    assert!(result.is_none());
}

#[test]
fn scan_state_collects_eligible_files_in_order() {
    let mut state = ScanState::start();

    let good = FileProbe { exists: true, is_file: true, header: Some(jpeg_header()) };
    let abs1 = FilePath::from_string("/pics/trip/a.jpg");
    state.accept_candidate("/pics/trip/a.jpg".to_string(), Some(&abs1), &good);

    let text = FileProbe { exists: true, is_file: true, header: Some(b"hello text file!".to_vec()) };
    let abs2 = FilePath::from_string("/pics/notes.txt");
    state.accept_candidate("/pics/notes.txt".to_string(), Some(&abs2), &text);

    let good2 = FileProbe { exists: true, is_file: true, header: Some(png_header()) };
    let abs3 = FilePath::from_string("/pics/other/b.png");
    state.accept_candidate("/pics/other/b.png".to_string(), Some(&abs3), &good2);

    assert_eq!(state.files, vec!["/pics/trip/a.jpg".to_string(), "/pics/other/b.png".to_string()]);
    assert_eq!(state.base_path.to_string(), "/pics");
}

#[test]
fn mime_scanner_validity_follows_the_sniffed_type() {
    let good = FileProbe { exists: true, is_file: true, header: Some(gif_header()) };
    assert!(scanfiles::is_valid(&good));
    let tiff = FileProbe { exists: true, is_file: true, header: Some(tiff_header()) };
    assert!(!scanfiles::is_valid(&tiff));
    let text = FileProbe { exists: true, is_file: true, header: Some(b"plain text here!".to_vec()) };
    assert!(!scanfiles::is_valid(&text));
    let folder = FileProbe { exists: true, is_file: false, header: None };
    assert!(!scanfiles::is_valid(&folder));
}

#[test]
fn scanfiles_base_folder_and_push() {
    let base = FilePath::new();
    let newp = FilePath::from_string("/base/folder/subfolder/file.jpg");
    let r = scanfiles::compute_base_folder(&base, &newp, false, true);
    assert_eq!(r.to_string(), "/base/folder/subfolder");

    // Unrelated paths degrade to the root, not to an empty base.
    let base = FilePath::from_string("/base/folder");
    let newp = FilePath::from_string("/other/file.jpg");
    let r = scanfiles::compute_base_folder(&base, &newp, false, true);
    assert_eq!(r.to_string(), "/");

    let mut files: Vec<FilePath> = Vec::new();
    let canon = FilePath::from_string("/base/folder/file.jpg");
    let bp = scanfiles::canonicalize_and_push(
        Some(canon),
        false,
        true,
        FilePath::new(),
        &mut files,
    );
    assert_eq!(bp.to_string(), "/base/folder");
    assert_eq!(files.len(), 1);
    assert_eq!(files[0].to_string(), "/base/folder/file.jpg");

    let before = files.len();
    let bp2 = scanfiles::canonicalize_and_push(None, false, false, bp, &mut files);
    assert_eq!(bp2.to_string(), "/base/folder");
    assert_eq!(files.len(), before);
}
