use jonathan_converter::error::ConvertError;
use jonathan_converter::paths::{extension_matches, find_last, to_output_filename};

#[test]
fn output_filename_keeps_stem_and_changes_extension() {
    let r = to_output_filename("GRAFIK/TITLE.PCX", "GRAFIK_PNG", "PNG").unwrap();
    assert_eq!(r, "GRAFIK_PNG/TITLE.PNG");
}

#[test]
fn output_filename_lower_case_input() {
    let r = to_output_filename("root/GRAFIK/title.pcx", "root/GRAFIK_PNG", "PNG").unwrap();
    assert_eq!(r, "root/GRAFIK_PNG/title.PNG");
}

#[test]
fn output_filename_keeps_dotted_stem() {
    let r = to_output_filename("dir/a.b.pcx", "out", "PNG").unwrap();
    assert_eq!(r, "out/a.b.PNG");
}

#[test]
fn output_filename_without_extension() {
    let r = to_output_filename("dir/name", "out", "TXT").unwrap();
    assert_eq!(r, "out/name.TXT");
}

#[test]
fn hidden_file_is_its_own_stem() {
    let r = to_output_filename("dir/.hidden", "out", "TXT").unwrap();
    assert_eq!(r, "out/.hidden.TXT");
}

#[test]
fn stemless_paths_fail_pairing() {
    assert_eq!(
        to_output_filename(".", "out", "PNG"),
        Err(ConvertError::NoStemError)
    );
    assert_eq!(
        to_output_filename("..", "out", "PNG"),
        Err(ConvertError::NoStemError)
    );
    assert_eq!(
        to_output_filename("a/..", "out", "PNG"),
        Err(ConvertError::NoStemError)
    );
    assert_eq!(
        to_output_filename("", "out", "PNG"),
        Err(ConvertError::NoStemError)
    );
    assert_eq!(
        to_output_filename("trailing/", "out", "PNG"),
        Err(ConvertError::NoStemError)
    );
}

#[test]
fn extension_match_ignores_ascii_case() {
    assert!(extension_matches("a.pcx", "PCX"));
    assert!(extension_matches("a.PCX", "PCX"));
    assert!(extension_matches("a.PcX", "pCx"));
    assert!(!extension_matches("a.png", "PCX"));
    assert!(!extension_matches("a.pcxx", "PCX"));
    assert!(!extension_matches("a.pc", "PCX"));
}

#[test]
fn extension_match_needs_an_extension() {
    assert!(!extension_matches("pcx", "PCX"));
    assert!(!extension_matches(".pcx", "PCX"));
    assert!(!extension_matches("", "PCX"));
}

#[test]
fn find_last_locates_last_occurrence() {
    assert_eq!(find_last("a/b/c", '/'), Some(3));
    assert_eq!(find_last("abc", '/'), None);
    assert_eq!(find_last("a.b.c", '.'), Some(3));
}
