use caesiumclt::fpath::FilePath;

#[test]
fn parse_and_print_round_trips() {
    let p = FilePath::from_string("/base/folder/test.jpg");
    assert!(p.absolute);
    assert_eq!(p.segments.len(), 3);
    assert_eq!(p.to_string(), "/base/folder/test.jpg");

    let q = FilePath::from_string("relative/dir");
    assert!(!q.absolute);
    assert_eq!(q.to_string(), "relative/dir");

    assert_eq!(FilePath::from_string("/").to_string(), "/");
    assert_eq!(FilePath::from_string("").to_string(), "");
}

#[test]
fn parsing_collapses_repeated_separators() {
    let p = FilePath::from_string("/a//b///c/");
    assert_eq!(p.to_string(), "/a/b/c");
}

#[test]
fn parent_drops_the_last_component() {
    let p = FilePath::from_string("/base/folder/test.jpg");
    assert_eq!(p.parent().unwrap().to_string(), "/base/folder");
    assert_eq!(FilePath::from_string("/a").parent().unwrap().to_string(), "/");
    assert!(FilePath::from_string("/").parent().is_none());
    assert!(FilePath::from_string("").parent().is_none());
    assert_eq!(FilePath::from_string("a").parent().unwrap().to_string(), "");
}

#[test]
fn strip_prefix_gives_the_relative_remainder() {
    let p = FilePath::from_string("/base/folder/sub");
    let base = FilePath::from_string("/base");
    let rel = p.strip_prefix(&base).unwrap();
    assert!(!rel.absolute);
    assert_eq!(rel.to_string(), "folder/sub");

    let other = FilePath::from_string("/elsewhere");
    assert!(p.strip_prefix(&other).is_none());
    assert!(p.strip_prefix(&FilePath::from_string("base")).is_none());
}

#[test]
fn join_appends_relative_paths() {
    let out = FilePath::from_string("/output");
    let rel = FilePath::from_string("folder/sub");
    assert_eq!(out.join(&rel).to_string(), "/output/folder/sub");

    let abs = FilePath::from_string("/somewhere");
    assert_eq!(out.join(&abs).to_string(), "/somewhere");
}

#[test]
fn join_name_string_handles_root_and_empty() {
    assert_eq!(FilePath::from_string("/output").join_name_string("a.jpg"), "/output/a.jpg");
    assert_eq!(FilePath::from_string("/").join_name_string("a.jpg"), "/a.jpg");
    assert_eq!(FilePath::from_string("").join_name_string("a.jpg"), "a.jpg");
}

#[test]
fn stem_and_extension_follow_the_last_dot() {
    let p = FilePath::from_string("/d/test.jpg");
    assert_eq!(p.file_stem(), "test");
    assert_eq!(p.extension(), "jpg");

    let no_ext = FilePath::from_string("/d/test");
    assert_eq!(no_ext.file_stem(), "test");
    assert_eq!(no_ext.extension(), "");

    let hidden = FilePath::from_string("/d/.bashrc");
    assert_eq!(hidden.file_stem(), ".bashrc");
    assert_eq!(hidden.extension(), "");

    let double = FilePath::from_string("/d/archive.tar.gz");
    assert_eq!(double.file_stem(), "archive.tar");
    assert_eq!(double.extension(), "gz");

    let trailing = FilePath::from_string("/d/name.");
    assert_eq!(trailing.file_stem(), "name");
    assert_eq!(trailing.extension(), "");
}

#[test]
fn common_prefix_is_componentwise() {
    let a = FilePath::from_string("/base/folder/a");
    let b = FilePath::from_string("/base/other/b");
    assert_eq!(a.common_prefix(&b).to_string(), "/base");

    let rel = FilePath::from_string("base/folder");
    assert_eq!(a.common_prefix(&rel).to_string(), "");
}

#[test]
fn path_eq_compares_locations() {
    let a = FilePath::from_string("/base//folder/");
    let b = FilePath::from_string("/base/folder");
    assert!(a.path_eq(&b));
    assert!(!a.path_eq(&FilePath::from_string("base/folder")));
    assert!(!a.path_eq(&FilePath::from_string("/base/folder/x")));
}
