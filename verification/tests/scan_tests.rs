use jonathan_converter::scan::{matching_files, plan_pairs, DirEntryInfo};

fn entry(name: &str, is_file: bool) -> DirEntryInfo {
    DirEntryInfo {
        name: name.to_string(),
        is_file,
    }
}

#[test]
fn scanner_keeps_exactly_the_matching_files() {
    let entries = vec![
        entry("a.pcx", true),
        entry("notes.txt", true),
        entry("b.PCX", true),
        entry("subdir.pcx", false),
        entry("noext", true),
        entry("c.PcX", true),
    ];
    let names = matching_files(&entries, "PCX");
    assert_eq!(names, vec!["a.pcx", "b.PCX", "c.PcX"]);
}

#[test]
fn scanner_count_is_independent_of_non_matching_entries() {
    let matching = vec![entry("a.pcx", true), entry("b.pcx", true)];
    let mut noisy = vec![entry("x.txt", true), entry("y", false)];
    noisy.insert(1, entry("a.pcx", true));
    noisy.push(entry("b.pcx", true));
    assert_eq!(matching_files(&matching, "PCX").len(), 2);
    assert_eq!(matching_files(&noisy, "PCX").len(), 2);
}

#[test]
fn scanner_of_empty_listing_is_empty() {
    let entries: Vec<DirEntryInfo> = Vec::new();
    assert!(matching_files(&entries, "PCX").is_empty());
}

#[test]
fn scanner_skips_directories_with_matching_names() {
    let entries = vec![entry("dir.pcx", false)];
    assert!(matching_files(&entries, "PCX").is_empty());
}

#[test]
fn plan_builds_both_paths_for_each_kept_file() {
    let entries = vec![
        entry("TITLE.PCX", true),
        entry("readme.md", true),
        entry("map.pcx", true),
    ];
    let pairs = plan_pairs("root/GRAFIK", &entries, "PCX", "root/GRAFIK_PNG", "PNG").unwrap();
    assert_eq!(pairs.len(), 2);
    assert_eq!(pairs[0].input_path, "root/GRAFIK/TITLE.PCX");
    assert_eq!(pairs[0].output_path, "root/GRAFIK_PNG/TITLE.PNG");
    assert_eq!(pairs[1].input_path, "root/GRAFIK/map.pcx");
    assert_eq!(pairs[1].output_path, "root/GRAFIK_PNG/map.PNG");
}

#[test]
fn plan_of_directory_without_matches_is_empty() {
    let entries = vec![entry("a.txt", true), entry("b", false)];
    let pairs = plan_pairs("TEXT", &entries, "TCT", "TEXT_TXT", "TXT").unwrap();
    assert!(pairs.is_empty());
}

#[test]
fn plan_pairs_by_the_file_name_of_the_joined_path() {
    let entries = vec![entry("weird/x.pcx", true)];
    let pairs = plan_pairs("in", &entries, "PCX", "out", "PNG").unwrap();
    assert_eq!(pairs[0].input_path, "in/weird/x.pcx");
    assert_eq!(pairs[0].output_path, "out/x.PNG");
}

#[test]
fn stemless_never_reaches_a_plan_with_real_extensions() {
    // a kept name always ends in its extension, so pairing cannot fail here
    let entries = vec![entry("..", true), entry("ok.tct", true)];
    let pairs = plan_pairs("TEXT", &entries, "TCT", "TEXT_TXT", "TXT").unwrap();
    assert_eq!(pairs.len(), 1);
    assert_eq!(pairs[0].output_path, "TEXT_TXT/ok.TXT");
}
