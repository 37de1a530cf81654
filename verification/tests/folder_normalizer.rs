use hvtag::errors::HvtError;
use hvtag::tagger::folder_normalizer::{
    category_of, collect_audio_files_recursive, destination_name, detect_folder_pattern,
    has_audio_files_in_dir, is_taken, normalize_folder_structure, resolve_filename_conflict,
    should_preserve_subdir_prefix, FileEntry, FolderPattern, NormalizationStrategy, WorkListing,
};

fn entry(dir: &str, name: &str) -> FileEntry {
    FileEntry { relative_dir: dir.to_string(), file_name: name.to_string() }
}

fn listing(root: &[&str], files: &[(&str, &str)]) -> WorkListing {
    WorkListing {
        root_entries: root.iter().map(|s| s.to_string()).collect(),
        files: files.iter().map(|(d, n)| entry(d, n)).collect(),
    }
}

fn targets(l: &WorkListing) -> Vec<String> {
    normalize_folder_structure(l).moves.iter().map(|m| m.target_name.clone()).collect()
}

/// The listing after the moves of a plan were made.
fn carried_out(l: &WorkListing) -> WorkListing {
    let plan = normalize_folder_structure(l);
    let mut root = l.root_entries.clone();
    let mut files = Vec::new();
    for f in l.files.iter() {
        let moved = plan
            .moves
            .iter()
            .find(|m| m.source_dir == f.relative_dir && m.source_name == f.file_name);
        match moved {
            Some(m) => {
                root.push(m.target_name.clone());
                files.push(entry("", &m.target_name));
            }
            None => files.push(f.clone()),
        }
    }
    WorkListing { root_entries: root, files }
}

#[test]
fn test_pattern_detection() {
    assert_eq!(detect_folder_pattern(&listing(&[], &[])), FolderPattern::Flat);
    assert_eq!(
        detect_folder_pattern(&listing(&["01.mp3"], &[("", "01.mp3")])),
        FolderPattern::Flat
    );
    assert_eq!(
        detect_folder_pattern(&listing(&["mp3"], &[("mp3", "01.mp3")])),
        FolderPattern::Mp3Subfolder
    );
    assert_eq!(
        detect_folder_pattern(&listing(&["Audio"], &[("Audio", "01.flac")])),
        FolderPattern::AudioSubfolder
    );
    assert_eq!(
        detect_folder_pattern(&listing(&["WAV"], &[("WAV", "01.wav")])),
        FolderPattern::FormatSubfolder
    );
    assert_eq!(
        detect_folder_pattern(&listing(&["flac"], &[("flac", "01.flac")])),
        FolderPattern::FormatSubfolder
    );
    assert_eq!(
        detect_folder_pattern(&listing(&["ogg"], &[("ogg", "01.ogg")])),
        FolderPattern::FormatSubfolder
    );
    assert_eq!(
        detect_folder_pattern(&listing(&["disc1", "disc2"], &[("disc1", "a.mp3"), ("disc2", "a.mp3")])),
        FolderPattern::DiscSubfolders
    );
    assert_eq!(
        detect_folder_pattern(&listing(&["CD2"], &[("CD2", "a.mp3")])),
        FolderPattern::DiscSubfolders
    );
    assert_eq!(
        detect_folder_pattern(&listing(&["jp", "en"], &[("jp", "a.mp3"), ("en", "a.mp3")])),
        FolderPattern::LanguageSubfolders
    );
    assert_eq!(
        detect_folder_pattern(&listing(&["KR"], &[("KR", "a.ogg")])),
        FolderPattern::LanguageSubfolders
    );
}

#[test]
fn more_than_one_category_is_mixed() {
    let l = listing(&["mp3", "disc1"], &[("mp3", "a.mp3"), ("disc1", "b.mp3")]);
    assert_eq!(detect_folder_pattern(&l), FolderPattern::Mixed);
    let l = listing(&["wav", "jp", "x.mp3"], &[("", "x.mp3"), ("wav", "a.wav"), ("jp", "b.mp3")]);
    assert_eq!(detect_folder_pattern(&l), FolderPattern::Mixed);
    // two folders of one category are not mixed
    let l = listing(&["wav", "flac"], &[("wav", "a.wav"), ("flac", "a.flac")]);
    assert_eq!(detect_folder_pattern(&l), FolderPattern::FormatSubfolder);
}

#[test]
fn a_subfolder_counts_only_with_audio_directly_inside() {
    // no audio file inside
    let l = listing(&["mp3"], &[("mp3", "notes.txt")]);
    assert_eq!(detect_folder_pattern(&l), FolderPattern::Flat);
    // audio one level deeper does not confirm the folder
    let l = listing(&["disc1"], &[("disc1/extra", "a.mp3")]);
    assert_eq!(detect_folder_pattern(&l), FolderPattern::Flat);
    // a name that no category knows
    let l = listing(&["bonus"], &[("bonus", "a.mp3")]);
    assert_eq!(detect_folder_pattern(&l), FolderPattern::Flat);
    // upper-case extensions are not audio
    let l = listing(&["mp3"], &[("mp3", "a.MP3")]);
    assert_eq!(detect_folder_pattern(&l), FolderPattern::Flat);
    // one confirmed folder is enough beside an empty one of another category
    let l = listing(&["mp3", "disc1"], &[("mp3", "a.mp3"), ("disc1", "cover.png")]);
    assert_eq!(detect_folder_pattern(&l), FolderPattern::Mp3Subfolder);
}

#[test]
fn directory_names_and_their_categories() {
    assert_eq!(category_of("mp3"), Some(FolderPattern::Mp3Subfolder));
    assert_eq!(category_of("MP3"), Some(FolderPattern::Mp3Subfolder));
    assert_eq!(category_of("audio"), Some(FolderPattern::AudioSubfolder));
    assert_eq!(category_of("Wav"), Some(FolderPattern::FormatSubfolder));
    assert_eq!(category_of("disc"), Some(FolderPattern::DiscSubfolders));
    assert_eq!(category_of("Disc 03"), Some(FolderPattern::DiscSubfolders));
    assert_eq!(category_of("cd1"), Some(FolderPattern::DiscSubfolders));
    assert_eq!(category_of("cn"), Some(FolderPattern::LanguageSubfolders));
    assert_eq!(category_of("jpn"), None);
    assert_eq!(category_of("dis"), None);
    assert_eq!(category_of(""), None);
}

#[test]
fn flat_work_is_left_alone() {
    let l = listing(&["01.mp3", "02.mp3", "bonus"], &[("", "01.mp3"), ("", "02.mp3"), ("bonus", "x.mp3")]);
    let plan = normalize_folder_structure(&l);
    assert_eq!(plan.pattern, FolderPattern::Flat);
    assert_eq!(plan.files_moved(), 0);
    assert!(plan.failure.is_none());
}

#[test]
fn single_subfolder_is_flattened() {
    // RJ000001/mp3/01.mp3 and no other audio
    let l = listing(&["mp3"], &[("mp3", "01.mp3")]);
    let plan = normalize_folder_structure(&l);
    assert_eq!(plan.pattern, FolderPattern::Mp3Subfolder);
    assert_eq!(plan.files_moved(), 1);
    assert!(plan.failure.is_none());
    assert_eq!(plan.moves[0].source_dir, "mp3");
    assert_eq!(plan.moves[0].source_name, "01.mp3");
    assert_eq!(plan.moves[0].target_name, "01.mp3");
}

#[test]
fn disc_prefix_is_kept_before_any_suffix() {
    let l = listing(&["disc1", "disc2"], &[("disc1", "01.mp3"), ("disc2", "01.mp3")]);
    let plan = normalize_folder_structure(&l);
    assert_eq!(plan.pattern, FolderPattern::DiscSubfolders);
    assert_eq!(plan.files_moved(), 2);
    assert_eq!(targets(&l), vec!["disc1_01.mp3", "disc2_01.mp3"]);
}

#[test]
fn language_prefix_is_kept() {
    let l = listing(&["jp", "en"], &[("jp", "01.mp3"), ("en", "01.mp3"), ("en/extra", "02.mp3")]);
    assert_eq!(targets(&l), vec!["jp_01.mp3", "en_01.mp3", "en_extra_02.mp3"]);
}

#[test]
fn colliding_names_get_numbered_suffixes() {
    let l = listing(
        &["01.mp3", "mp3", "notes.txt"],
        &[("", "01.mp3"), ("mp3", "01.mp3"), ("mp3/sub", "01.mp3"), ("mp3", "02.mp3"), ("mp3", "notes.txt")],
    );
    let plan = normalize_folder_structure(&l);
    assert_eq!(plan.pattern, FolderPattern::Mp3Subfolder);
    assert_eq!(targets(&l), vec!["01_1.mp3", "01_2.mp3", "02.mp3"]);
}

#[test]
fn directory_names_at_the_root_are_taken() {
    let l = listing(&["audio", "x.mp3"], &[("audio", "audio"), ("audio", "x.mp3"), ("audio", "a.ogg")]);
    assert_eq!(targets(&l), vec!["x_1.mp3", "a.ogg"]);
}

#[test]
fn mixed_layout_keeps_prefixes_of_disc_and_language_folders_only() {
    let l = listing(
        &["mp3", "Disc1", "jp"],
        &[("mp3", "a.mp3"), ("Disc1", "a.mp3"), ("jp", "a.mp3"), ("other", "b.mp3")],
    );
    let plan = normalize_folder_structure(&l);
    assert_eq!(plan.pattern, FolderPattern::Mixed);
    assert_eq!(targets(&l), vec!["a.mp3", "Disc1_a.mp3", "jp_a.mp3", "b.mp3"]);
}

#[test]
fn prefix_rule() {
    assert!(should_preserve_subdir_prefix(&FolderPattern::DiscSubfolders, "anything"));
    assert!(should_preserve_subdir_prefix(&FolderPattern::LanguageSubfolders, "anything"));
    assert!(should_preserve_subdir_prefix(&FolderPattern::Mixed, "DISC2"));
    assert!(should_preserve_subdir_prefix(&FolderPattern::Mixed, "cd1/inner"));
    assert!(should_preserve_subdir_prefix(&FolderPattern::Mixed, "KR"));
    assert!(!should_preserve_subdir_prefix(&FolderPattern::Mixed, "mp3"));
    assert!(!should_preserve_subdir_prefix(&FolderPattern::Mixed, "jp/inner"));
    assert!(!should_preserve_subdir_prefix(&FolderPattern::Mp3Subfolder, "disc1"));
    assert!(!should_preserve_subdir_prefix(&FolderPattern::AudioSubfolder, "jp"));
    assert!(!should_preserve_subdir_prefix(&FolderPattern::FormatSubfolder, "cd"));
    assert!(!should_preserve_subdir_prefix(&FolderPattern::Flat, "disc1"));
}

#[test]
fn destination_names() {
    assert_eq!(destination_name(FolderPattern::DiscSubfolders, &entry("disc1", "track01.mp3")), "disc1_track01.mp3");
    assert_eq!(destination_name(FolderPattern::DiscSubfolders, &entry("disc1/a/b", "t.mp3")), "disc1_a_b_t.mp3");
    assert_eq!(destination_name(FolderPattern::Mp3Subfolder, &entry("mp3", "t.mp3")), "t.mp3");
    assert_eq!(destination_name(FolderPattern::Mixed, &entry("wav", "t.wav")), "t.wav");
}

#[test]
fn conflict_resolution_picks_the_first_free_suffix() {
    let names = |v: &[&str]| -> Vec<String> { v.iter().map(|s| s.to_string()).collect() };
    assert_eq!(resolve_filename_conflict("a.mp3", &names(&[])).unwrap(), "a.mp3");
    assert_eq!(resolve_filename_conflict("a.mp3", &names(&["b.mp3"])).unwrap(), "a.mp3");
    assert_eq!(resolve_filename_conflict("a.mp3", &names(&["a.mp3"])).unwrap(), "a_1.mp3");
    assert_eq!(
        resolve_filename_conflict("a.mp3", &names(&["a.mp3", "a_1.mp3", "a_3.mp3"])).unwrap(),
        "a_2.mp3"
    );
    assert_eq!(resolve_filename_conflict("a.b.mp3", &names(&["a.b.mp3"])).unwrap(), "a.b_1.mp3");
    assert_eq!(resolve_filename_conflict("noext", &names(&["noext"])).unwrap(), "noext_1");
    assert_eq!(resolve_filename_conflict(".hidden", &names(&[".hidden"])).unwrap(), ".hidden_1");
    assert_eq!(resolve_filename_conflict("dot.", &names(&["dot."])).unwrap(), "dot_1");
}

#[test]
fn conflict_resolution_gives_up_after_999_suffixes() {
    let mut taken = vec!["a.mp3".to_string()];
    for i in 1..999 {
        taken.push(format!("a_{}.mp3", i));
    }
    assert_eq!(resolve_filename_conflict("a.mp3", &taken).unwrap(), "a_999.mp3");
    taken.push("a_999.mp3".to_string());
    match resolve_filename_conflict("a.mp3", &taken) {
        Err(HvtError::PathCreationFailed(msg)) => {
            assert_eq!(msg, "Could not resolve filename conflict for a.mp3")
        }
        other => panic!("unexpected outcome: {:?}", other),
    }
}

#[test]
fn plan_stops_at_the_file_that_cannot_be_placed() {
    let mut root = vec!["mp3".to_string(), "b.mp3".to_string()];
    for i in 1..1000 {
        root.push(format!("b_{}.mp3", i));
    }
    let l = WorkListing {
        root_entries: root,
        files: vec![entry("mp3", "a.mp3"), entry("mp3", "b.mp3"), entry("mp3", "c.mp3")],
    };
    let plan = normalize_folder_structure(&l);
    assert_eq!(plan.pattern, FolderPattern::Mp3Subfolder);
    assert_eq!(plan.files_moved(), 1);
    assert_eq!(plan.moves[0].target_name, "a.mp3");
    match plan.failure {
        Some(HvtError::PathCreationFailed(msg)) => {
            assert_eq!(msg, "Could not resolve filename conflict for b.mp3")
        }
        other => panic!("unexpected outcome: {:?}", other),
    }
}

#[test]
fn second_run_moves_nothing() {
    let works = [
        listing(&["mp3"], &[("mp3", "01.mp3")]),
        listing(&["disc1", "disc2"], &[("disc1", "01.mp3"), ("disc2", "01.mp3")]),
        listing(&["01.mp3", "mp3"], &[("", "01.mp3"), ("mp3", "01.mp3"), ("mp3/sub", "01.mp3")]),
        listing(&["mp3", "Disc1", "jp"], &[("mp3", "a.mp3"), ("Disc1", "a.mp3"), ("jp", "a.mp3"), ("x", "b.mp3")]),
        listing(&["a.mp3", "bonus"], &[("", "a.mp3"), ("bonus", "b.mp3")]),
        listing(&[], &[]),
    ];
    for work in works.iter() {
        let after = carried_out(work);
        let again = normalize_folder_structure(&after);
        assert_eq!(again.pattern, FolderPattern::Flat);
        assert_eq!(again.files_moved(), 0);
        assert!(again.failure.is_none());
    }
}

#[test]
fn targets_never_repeat_nor_hit_a_root_entry() {
    let l = listing(
        &["x.mp3", "x_1.mp3", "mp3"],
        &[("mp3", "x.mp3"), ("mp3/a", "x.mp3"), ("mp3/b", "x_1.mp3"), ("mp3/c", "x_2.mp3")],
    );
    let names = targets(&l);
    assert_eq!(names, vec!["x_2.mp3", "x_3.mp3", "x_1_1.mp3", "x_2_1.mp3"]);
    for (i, a) in names.iter().enumerate() {
        assert!(!is_taken(&l.root_entries, a));
        for b in names.iter().skip(i + 1) {
            assert_ne!(a, b);
        }
    }
}

#[test]
fn audio_files_are_collected_with_their_directories() {
    let l = listing(
        &[],
        &[("", "a.mp3"), ("", "cover.jpg"), ("mp3", "b.flac"), ("mp3/x", "c.wav"), ("mp3", "d.txt"), ("", "e.ogg"), ("", ".mp3")],
    );
    let found: Vec<(String, String)> = collect_audio_files_recursive(&l)
        .into_iter()
        .map(|f| (f.relative_dir, f.file_name))
        .collect();
    let expected: Vec<(String, String)> = [("", "a.mp3"), ("mp3", "b.flac"), ("mp3/x", "c.wav"), ("", "e.ogg")]
        .iter()
        .map(|(d, n)| (d.to_string(), n.to_string()))
        .collect();
    assert_eq!(found, expected);
    assert!(has_audio_files_in_dir(&l, "mp3"));
    assert!(has_audio_files_in_dir(&l, ""));
    assert!(has_audio_files_in_dir(&l, "mp3/x"));
    assert!(!has_audio_files_in_dir(&l, "x"));
    assert!(!has_audio_files_in_dir(&l, "MP3"));
}

#[test]
fn strategies_of_the_layouts() {
    let s = NormalizationStrategy::new(FolderPattern::Flat);
    assert_eq!(s.pattern, FolderPattern::Flat);
    assert!(s.subdirs_to_check.is_empty());
    assert!(!s.preserve_subdir_in_name);
    let s = NormalizationStrategy::new(FolderPattern::Mp3Subfolder);
    assert_eq!(s.subdirs_to_check, vec!["mp3"]);
    assert!(!s.preserve_subdir_in_name);
    let s = NormalizationStrategy::new(FolderPattern::AudioSubfolder);
    assert_eq!(s.subdirs_to_check, vec!["audio"]);
    let s = NormalizationStrategy::new(FolderPattern::FormatSubfolder);
    assert_eq!(s.subdirs_to_check, vec!["wav", "flac", "ogg"]);
    assert!(!s.preserve_subdir_in_name);
    let s = NormalizationStrategy::new(FolderPattern::DiscSubfolders);
    assert!(s.subdirs_to_check.is_empty());
    assert!(s.preserve_subdir_in_name);
    let s = NormalizationStrategy::new(FolderPattern::LanguageSubfolders);
    assert_eq!(s.subdirs_to_check, vec!["jp", "en", "cn"]);
    assert!(s.preserve_subdir_in_name);
    let s = NormalizationStrategy::new(FolderPattern::Mixed);
    assert!(s.subdirs_to_check.is_empty());
    assert!(!s.preserve_subdir_in_name);
}
