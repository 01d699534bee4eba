use sd_models::paths::{extension_of, file_name_of, file_stem_of, join_path, with_extension_of};

#[test]
fn join_adds_one_separator() {
    assert_eq!(join_path("/data", "models"), "/data/models");
    assert_eq!(join_path("/data/", "models"), "/data/models");
}

#[test]
fn join_with_absolute_part_replaces_base() {
    assert_eq!(join_path("/data", "/etc/passwd"), "/etc/passwd");
}

#[test]
fn join_with_empty_base_gives_part() {
    assert_eq!(join_path("", "models"), "models");
}

#[test]
fn file_name_skips_trailing_separators_and_dots() {
    assert_eq!(file_name_of("a/b/"), Some("b".to_string()));
    assert_eq!(file_name_of("a/b/."), Some("b".to_string()));
    assert_eq!(file_name_of("./a"), Some("a".to_string()));
    assert_eq!(file_name_of("/x/y.png"), Some("y.png".to_string()));
}

#[test]
fn file_name_absent() {
    assert_eq!(file_name_of(""), None);
    assert_eq!(file_name_of("/"), None);
    assert_eq!(file_name_of("."), None);
    assert_eq!(file_name_of("a/.."), None);
}

#[test]
fn file_stem_cases() {
    assert_eq!(file_stem_of("/photos/cat.jpg"), Some("cat".to_string()));
    assert_eq!(file_stem_of(".bashrc"), Some(".bashrc".to_string()));
    assert_eq!(file_stem_of("a.tar.gz"), Some("a.tar".to_string()));
    assert_eq!(file_stem_of("noext"), Some("noext".to_string()));
    assert_eq!(file_stem_of("/"), None);
}

#[test]
fn extension_cases() {
    assert_eq!(extension_of("archive.zip"), Some("zip".to_string()));
    assert_eq!(extension_of("a."), Some("".to_string()));
    assert_eq!(extension_of("noext"), None);
    assert_eq!(extension_of(".bashrc"), None);
    assert_eq!(extension_of("sharp.exe.tmp"), Some("tmp".to_string()));
}

#[test]
fn with_extension_cases() {
    assert_eq!(with_extension_of("/d/sharp_2572gikvuh.pt", "tmp"), "/d/sharp_2572gikvuh.tmp");
    assert_eq!(with_extension_of("/d/ggml-base", "tmp"), "/d/ggml-base.tmp");
    assert_eq!(with_extension_of("a.b", ""), "a");
    assert_eq!(with_extension_of("/", "tmp"), "/");
    assert_eq!(with_extension_of("a/b/", "txt"), "a/b.txt");
}

#[test]
fn file_name_of_joined_name_is_the_name() {
    for base in ["", "/", "/data", "rel/dir/", "/a/.."] {
        let p = join_path(base, "weights.bin");
        assert_eq!(file_name_of(&p), Some("weights.bin".to_string()));
    }
}

#[test]
fn with_extension_commutes_with_joining_a_name() {
    for base in ["", "/", "/data", "rel/dir/"] {
        assert_eq!(
            with_extension_of(&join_path(base, "model.pt"), "tmp"),
            join_path(base, &with_extension_of("model.pt", "tmp"))
        );
    }
}
