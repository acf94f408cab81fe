use emulanders::fsext::{
    get_path_file_name, get_path_file_name_without_extension, get_path_without_extension,
    make_flag_path, BASE_DIR, FLAGS_DIR, SKYLANDER_DIR,
};

#[test]
fn flag_path() {
    assert_eq!(make_flag_path("status_on"), "sdmc:/emulanders/flags/status_on.flag");
}

#[test]
fn directories() {
    assert_eq!(BASE_DIR, "sdmc:/emulanders");
    assert_eq!(FLAGS_DIR, "sdmc:/emulanders/flags");
    assert_eq!(SKYLANDER_DIR, "sdmc:/emulanders/figures");
}

#[test]
fn without_extension() {
    assert_eq!(get_path_without_extension("a/b/King_Pen.dump"), "a/b/King_Pen");
    assert_eq!(get_path_without_extension("archive.tar.gz"), "archive.tar");
    assert_eq!(get_path_without_extension("noext"), "noext");
    assert_eq!(get_path_without_extension(""), "");
    assert_eq!(get_path_without_extension("dir.d/file"), "dir");
}

#[test]
fn file_name() {
    assert_eq!(get_path_file_name("sdmc:/emulanders/figures/Spyro.bin"), "Spyro.bin");
    assert_eq!(get_path_file_name("plain"), "plain");
    assert_eq!(get_path_file_name("ends/with/"), "");
    assert_eq!(get_path_file_name("é/ü"), "ü");
}

#[test]
fn file_name_without_extension() {
    assert_eq!(
        get_path_file_name_without_extension(
            "sdmc:/emulanders/figures/Imaginators/Senseis/King_Pen.dump".to_string()
        ),
        "King_Pen"
    );
    assert_eq!(get_path_file_name_without_extension("x/Über.bin".to_string()), "Über");
}
