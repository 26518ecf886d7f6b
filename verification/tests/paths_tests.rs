use thumbnailer::paths::extension_of;
use thumbnailer::paths::file_name_of;
use thumbnailer::paths::join_path;
use thumbnailer::paths::stem_of;

#[test]
fn extension_of_plain_file() {
    assert_eq!(extension_of("images/a.jpg"), "jpg");
}

#[test]
fn extension_of_no_dot() {
    assert_eq!(extension_of("images/readme"), "");
}

#[test]
fn extension_of_hidden_file() {
    assert_eq!(extension_of(".bashrc"), "");
}

#[test]
fn extension_of_double_extension() {
    assert_eq!(extension_of("archive.tar.gz"), "gz");
}

#[test]
fn extension_of_dotted_directory() {
    assert_eq!(extension_of("dir.d/file"), "");
}

#[test]
fn extension_of_trailing_dot() {
    assert_eq!(extension_of("foo."), "");
}

#[test]
fn stem_of_plain_file() {
    assert_eq!(stem_of("images/a.jpg"), "a");
}

#[test]
fn stem_of_hidden_file() {
    assert_eq!(stem_of(".bashrc"), ".bashrc");
}

#[test]
fn stem_of_double_extension() {
    assert_eq!(stem_of("archive.tar.gz"), "archive.tar");
}

#[test]
fn stem_of_no_dot() {
    assert_eq!(stem_of("foo"), "foo");
}

#[test]
fn file_name_of_nested_path() {
    assert_eq!(file_name_of("a/b/c.png"), "c.png");
}

#[test]
fn file_name_of_bare_name() {
    assert_eq!(file_name_of("c.png"), "c.png");
}

#[test]
fn file_name_of_trailing_slash() {
    assert_eq!(file_name_of("a/"), "");
}

#[test]
fn join_path_plain() {
    assert_eq!(join_path("thumbnails", "a.jpg"), "thumbnails/a.jpg");
}

#[test]
fn join_path_trailing_slash() {
    assert_eq!(join_path("thumbnails/", "a.jpg"), "thumbnails/a.jpg");
}

#[test]
fn join_path_empty_dir() {
    assert_eq!(join_path("", "a.jpg"), "/a.jpg");
}
