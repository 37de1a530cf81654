use hvtag::config::{default_custom_separator, default_use_null_separator, Config, TaggerConfig, VpnConfig, VpnProvider};
use hvtag::database::custom_circles::CirclePreferenceType;
use hvtag::database::sql;
use hvtag::dlsite::scrapper::parse_circle_name_from_title;
use hvtag::dlsite::DataSelection;
use hvtag::errors::HvtError;
use hvtag::file_name::{decimal_string, is_audio_file_name, split_file_name};
use hvtag::folders::types::{ManagedFile, ManagedFolder, RGCode, RJCode};
use hvtag::tagger::types::{AgeCategory, AudioFormat};
use hvtag::text::{
    chars_of, cut_before, has_char, joined, lowercase, same_text, starts_with, string_of,
};

#[test]
fn separator_of_the_tagger() {
    let mut c = TaggerConfig::default();
    assert_eq!(c.use_null_separator, false);
    assert_eq!(c.custom_separator, "; ");
    assert_eq!(c.get_separator(), "; ");
    c.custom_separator = " / ".to_string();
    assert_eq!(c.get_separator(), " / ");
    c.use_null_separator = true;
    assert_eq!(c.get_separator(), "\0");
    assert_eq!(default_use_null_separator(), false);
    assert_eq!(default_custom_separator(), "; ");
}

#[test]
fn default_configuration() {
    let c = Config::default();
    assert!(!c.vpn.enabled);
    assert_eq!(c.vpn.provider, VpnProvider::Wireguard);
    assert!(c.vpn.wireguard.is_none());
    assert_eq!(c.tagger.get_separator(), "; ");
    let v = VpnConfig::default();
    assert!(!v.enabled && v.wireguard.is_none());
    let v = hvtag::vpn::config::VpnConfig::default();
    assert!(!v.enabled && v.wireguard.is_none());
    assert_eq!(v.provider, hvtag::vpn::config::VpnProvider::Wireguard);
    let t = hvtag::tagger::types::TaggerConfig::default();
    assert_eq!((t.convert_to_mp3, t.target_bitrate, t.download_cover, t.cover_size), (false, 320, true, (300, 300)));
    assert_eq!(DataSelection::default().tags, false);
}

#[test]
fn circle_preference_words() {
    let all = [
        (CirclePreferenceType::ForceEn, "force_en"),
        (CirclePreferenceType::ForceJp, "force_jp"),
        (CirclePreferenceType::Custom, "custom"),
        (CirclePreferenceType::UseCode, "use_code"),
    ];
    for (p, word) in all.iter() {
        assert_eq!(p.as_str(), *word);
        assert_eq!(CirclePreferenceType::from_str(word), Some(*p));
        assert_eq!(CirclePreferenceType::from_str(p.as_str()), Some(*p));
    }
    assert_eq!(CirclePreferenceType::from_str("FORCE_EN"), None);
    assert_eq!(CirclePreferenceType::from_str(""), None);
}

#[test]
fn work_codes() {
    assert_eq!(RJCode::new("RJ123456".to_string()).unwrap().as_str(), "RJ123456");
    assert_eq!(RJCode::new("RJ1234".to_string()).unwrap().as_str(), "RJ1234");
    for bad in ["RJ123", "rj123456", "XRJ123456", "", "RJ"] {
        match RJCode::new(bad.to_string()) {
            Err(HvtError::Parse(msg)) => assert_eq!(msg, format!("Invalid RJCode format: {}", bad)),
            other => panic!("unexpected outcome: {:?}", other),
        }
    }
    // the length is counted in bytes
    assert!(RJCode::new("RJ\u{FF11}1".to_string()).is_ok());
    assert_eq!(RJCode::from_string_unchecked("x".to_string()).as_str(), "x");
    assert_eq!(RGCode::new("RG01234".to_string()).as_str(), "RG01234");
    assert_eq!(RGCode::default().as_str(), "");
}

#[test]
fn error_messages() {
    assert_eq!(HvtError::Io("x".to_string()).message(), "IO error: x");
    assert_eq!(HvtError::Database("x".to_string()).message(), "Database error: x");
    assert_eq!(HvtError::Http("x".to_string()).message(), "HTTP error: x");
    assert_eq!(HvtError::Parse("x".to_string()).message(), "Parse error: x");
    assert_eq!(
        HvtError::RemovedWork(RJCode::from_string_unchecked("RJ000001".to_string())).message(),
        "Work RJ000001 removed from DLSite"
    );
    assert_eq!(HvtError::FolderReading("x".to_string()).message(), "Folder reading error: x");
    assert_eq!(HvtError::UnsupportedOS("x".to_string()).message(), "Operating System not supported: x");
    assert_eq!(HvtError::PathCreationFailed("x".to_string()).message(), "Path creation failed: x");
    assert_eq!(
        HvtError::UnavailableEnvVariable("x".to_string()).message(),
        "Environment variable unavailable: x"
    );
    assert_eq!(HvtError::AudioTag("x".to_string()).message(), "Audio tagging error: x");
    assert_eq!(HvtError::AudioConversion("x".to_string()).message(), "Audio conversion error: x");
    assert_eq!(HvtError::Image("x".to_string()).message(), "Image processing error: x");
    assert_eq!(HvtError::Generic("x".to_string()).message(), "Generic error: x");
}

#[test]
fn age_categories_and_audio_formats() {
    assert_eq!(AgeCategory::from_int(1), AgeCategory::AllAge);
    assert_eq!(AgeCategory::from_int(3), AgeCategory::R18);
    assert_eq!(AgeCategory::from_int(0), AgeCategory::Other);
    assert_eq!(AgeCategory::from_int(2), AgeCategory::Other);
    assert_eq!(AgeCategory::from_int(u32::MAX), AgeCategory::Other);
    assert_eq!(AgeCategory::default(), AgeCategory::R18);
    assert_eq!(AgeCategory::AllAge.to_text(), "All Ages");
    assert_eq!(AgeCategory::Other.to_text(), "Other");
    assert_eq!(AgeCategory::R15.to_text(), "R15");
    assert_eq!(AgeCategory::R18.to_text(), "R18");
    assert_eq!(hvtag::types::local::AgeCategory::from_int(1), hvtag::types::local::AgeCategory::AllAge);
    assert_eq!(hvtag::types::local::AgeCategory::from_int(3), hvtag::types::local::AgeCategory::R18);
    assert_eq!(hvtag::types::local::AgeCategory::from_int(7), hvtag::types::local::AgeCategory::Other);
    assert_eq!(hvtag::types::local::AgeCategory::default(), hvtag::types::local::AgeCategory::R18);
    assert_eq!(AudioFormat::from_extension("mp3"), AudioFormat::Mp3);
    assert_eq!(AudioFormat::from_extension("MP3"), AudioFormat::Mp3);
    assert_eq!(AudioFormat::from_extension("Flac"), AudioFormat::Flac);
    assert_eq!(AudioFormat::from_extension("wav"), AudioFormat::Wav);
    assert_eq!(AudioFormat::from_extension("OGG"), AudioFormat::Ogg);
    assert_eq!(AudioFormat::from_extension("m4a"), AudioFormat::Unknown);
    assert_eq!(AudioFormat::from_extension(""), AudioFormat::Unknown);
}

#[test]
fn managed_files_and_folders() {
    let f = ManagedFile::new("01.track.mp3".to_string(), "/w/RJ000001/01.track.mp3".to_string());
    assert_eq!((f.filename(), f.extension(), f.path()), ("01.track.mp3", "mp3", "/w/RJ000001/01.track.mp3"));
    assert_eq!(ManagedFile::new("README".to_string(), String::new()).extension(), "README");
    assert_eq!(ManagedFile::new(".tagged".to_string(), String::new()).extension(), "tagged");
    assert_eq!(ManagedFile::new("a.".to_string(), String::new()).extension(), "");

    let file = |n: &str| ManagedFile::new(n.to_string(), format!("/w/RJ000001/{}", n));
    let folder = ManagedFolder::new(
        "/w/RJ000001".to_string(),
        "RJ000001".to_string(),
        vec![file("01.mp3"), file("folder.jpeg"), file(".tagged")],
        &[],
    );
    assert!(folder.is_valid && folder.is_tagged && folder.has_cover);
    assert_eq!(folder.rjcode.as_str(), "RJ000001");
    assert_eq!(folder.path, "/w/RJ000001");
    assert_eq!(folder.files.len(), 3);

    // audio one level below makes the folder valid
    let folder = ManagedFolder::new(
        "/w/RJ000002".to_string(),
        "RJ000002".to_string(),
        vec![file("readme.txt")],
        &["cover.png".to_string(), "01.flac".to_string()],
    );
    assert!(folder.is_valid && !folder.is_tagged && !folder.has_cover);

    // no audio, or a name that is no work code
    let folder = ManagedFolder::new("/w/RJ3".to_string(), "RJ3".to_string(), vec![file("a.txt")], &["b.txt".to_string()]);
    assert!(!folder.is_valid);
    let folder = ManagedFolder::new("/w/other".to_string(), "other".to_string(), vec![file("a.mp3")], &[]);
    assert!(!folder.is_valid);

    let folder = ManagedFolder::unreadable("/nowhere".to_string());
    assert!(!folder.is_valid && !folder.is_tagged && !folder.has_cover);
    assert_eq!(folder.rjcode.as_str(), "");
    assert_eq!(folder.path, "/nowhere");
    assert!(folder.files.is_empty());
}

#[test]
fn file_names_split_into_stem_and_extension() {
    let split = |n: &str| {
        let (stem, ext) = split_file_name(n);
        (stem, ext)
    };
    assert_eq!(split("a.mp3"), ("a".to_string(), Some("mp3".to_string())));
    assert_eq!(split("a.b.mp3"), ("a.b".to_string(), Some("mp3".to_string())));
    assert_eq!(split("noext"), ("noext".to_string(), None));
    assert_eq!(split(".hidden"), (".hidden".to_string(), None));
    assert_eq!(split("dot."), ("dot".to_string(), Some(String::new())));
    assert_eq!(split(".."), ("..".to_string(), None));
    assert_eq!(split(""), (String::new(), None));
    for n in ["a.mp3", "a.flac", "a.wav", "a.ogg", "x.y.ogg"] {
        assert!(is_audio_file_name(n));
    }
    for n in ["a.MP3", ".mp3", "mp3", "a.mp3.txt", "a.m4a", "a.", ""] {
        assert!(!is_audio_file_name(n));
    }
}

#[test]
fn numbers_in_base_ten() {
    assert_eq!(decimal_string(0), "0");
    assert_eq!(decimal_string(7), "7");
    assert_eq!(decimal_string(10), "10");
    assert_eq!(decimal_string(999), "999");
    assert_eq!(decimal_string(1_000_000), "1000000");
    assert_eq!(decimal_string(u64::MAX), u64::MAX.to_string());
}

#[test]
fn text_helpers() {
    assert_eq!(chars_of("a\u{7B2C}b"), vec!['a', '\u{7B2C}', 'b']);
    assert_eq!(string_of(&vec!['x', '\u{FF10}']), "x\u{FF10}");
    assert_eq!(joined("ab", "cd"), "abcd");
    assert!(same_text("abc", "abc") && !same_text("abc", "abd") && !same_text("abc", "ab"));
    assert!(starts_with("disc1", "disc") && starts_with("cd", "cd") && starts_with("x", ""));
    assert!(!starts_with("dis", "disc") && !starts_with("xdisc", "disc"));
    assert!(has_char("a/b", '/') && !has_char("ab", '/'));
}

#[test]
fn sql_statements() {
    let code = || RJCode::from_string_unchecked("RJ000001".to_string());
    assert_eq!(
        sql::init_db(),
        "create table if not exists db_init as \n            select \n                datetime() as init_dte"
    );
    assert_eq!(sql::init_table("t", "a INTEGER"), "create table if not exists t (a INTEGER)");
    assert_eq!(
        sql::get_max_id("fld_id", "folders"),
        "select \n            coalesce(max(fld_id), 1) \n        from \n            folders"
    );
    let folder = ManagedFolder::new("/w/RJ000001".to_string(), "RJ000001".to_string(), vec![], &[]);
    assert_eq!(
        sql::insert_managed_folder(&folder, 12),
        "insert or ignore into folders values\n            (\n                12,\n                'RJ000001',\n                '/w/RJ000001',\n                datetime(),\n                true\n            )"
    );
    assert_eq!(
        sql::get_unscanned_works(),
        "select \n            t1.rjcode \n        from \n            folders t1\n        left join\n            dlsite_scan t2\n        using(fld_id)\n        where\n            t2.last_scan is null"
    );
    assert_eq!(
        sql::insert_tag("ASMR", 3),
        "insert or ignore into dlsite_tag values\n            (\n                3,\n                'ASMR'\n            )"
    );
    assert_eq!(
        sql::insert_circle(RGCode::new("RG01".to_string()), "en", "jp", 5),
        "insert or replace into circles values\n            (\n                5,\n                'RG01',\n                'en',\n                'jp'\n            )"
    );
    assert_eq!(
        sql::insert_cv("jp", "en", 0),
        "insert or replace into cvs values\n            (\n                0,\n                'jp',\n                'en'\n            )"
    );
    assert_eq!(
        sql::assign_release_date_to_work(code(), "2020-01-02"),
        "insert into release_date\n        select\n            t1.fld_id,\n            cast('2020-01-02' as datetime) as release_date\n        from\n            folders t1\n        where\n            t1.rjcode = 'RJ000001'"
    );
    assert_eq!(
        sql::assign_circle_to_work(code(), RGCode::new("RG01".to_string())),
        "insert into lkp_work_circle\n        select\n            t1.fld_id,\n            t2.cir_id\n        from\n            folders t1,\n            circles t2\n        where\n            t1.rjcode = 'RJ000001'\n            and t2.rgcode = 'RG01'"
    );
    assert_eq!(
        sql::assign_tags_to_work(code(), &vec!["a".to_string(), "b".to_string(), "c".to_string()]),
        "with cte as (select 'a' as val union all select 'b' as val union all select 'c' as val)\n        insert into lkp_work_tag\n        select \n            t1.fld_id,\n            t2.tag_id\n        from\n            folders t1,\n            dlsite_tag t2\n        where \n            t1.rjcode = 'RJ000001'\n            and t2.tag_name in \n            (select val from cte)"
    );
    assert_eq!(
        sql::assign_rating_to_work(code(), "R18"),
        "insert into rating\n        select\n            t1.fld_id,\n            'R18' as rating\n        from\n            folders t1\n        where\n            t1.rjcode = 'RJ000001'"
    );
    assert_eq!(
        sql::assign_cvs_to_work(code(), &vec!["x".to_string()]),
        "with cte as (select 'x' as val)\n        insert into lkp_work_cvs\n        select \n            t1.fld_id,\n            t2.cv_id\n        from\n            folders t1,\n            cvs t2\n        where \n            t1.rjcode = 'RJ000001'\n            and t2.name_jp in \n            (select val from cte)"
    );
    assert_eq!(
        sql::set_work_scan_date(code()),
        "insert or replace into dlsite_scan\n    select \n        t1.fld_id,\n        datetime() as last_scan\n    from folders t1\n        where rjcode = 'RJ000001'"
    );
    assert_eq!(sql::join_selects(&vec![]), "");
}

#[test]
fn circle_name_is_read_from_the_page_title() {
    assert_eq!(
        parse_circle_name_from_title("Circle Name\u{FF08}\u{30AB}\u{30BF}\u{30AB}\u{30CA}\u{FF09} Circle Profile | DLsite"),
        "Circle Name"
    );
    assert_eq!(parse_circle_name_from_title("  Foo Bar Circle Profile | x  "), "Foo Bar");
    assert_eq!(
        parse_circle_name_from_title("\u{540D}\u{524D} \u{30B5}\u{30FC}\u{30AF}\u{30EB}\u{30D7}\u{30ED}\u{30D5}\u{30A3}\u{30FC}\u{30EB} | x"),
        "\u{540D}\u{524D}"
    );
    assert_eq!(parse_circle_name_from_title("Plain \u{FF08}x\u{FF09}"), "Plain");
    assert_eq!(parse_circle_name_from_title("Plain"), "Plain");
    // the title is trimmed first, so the words alone are a name
    assert_eq!(parse_circle_name_from_title(" Circle Profile"), "Circle Profile");
    assert_eq!(parse_circle_name_from_title("x Circle Profile"), "x");
    assert_eq!(parse_circle_name_from_title(""), "");
}

#[test]
fn text_is_cut_before_the_first_occurrence() {
    assert_eq!(cut_before("a, b, c", ", "), "a");
    assert_eq!(cut_before("abc", "x"), "abc");
    assert_eq!(cut_before("abc", "abc"), "");
    assert_eq!(cut_before("abc", "abcd"), "abc");
    assert_eq!(cut_before("aab", "ab"), "a");
    assert_eq!(cut_before("abc", "c"), "ab");
    assert_eq!(cut_before("abc", ""), "");
    assert_eq!(cut_before("", ""), "");
}

#[test]
fn only_mp3_files_are_tagged() {
    assert!(AudioFormat::Mp3.check_taggable("/w/a.mp3").is_ok());
    match AudioFormat::Flac.check_taggable("/w/a.flac") {
        Err(HvtError::AudioTag(msg)) => assert_eq!(
            msg,
            "FLAC files are not supported for tagging. Please convert to MP3 first using --convert flag. File: /w/a.flac"
        ),
        other => panic!("unexpected outcome: {:?}", other),
    }
    for format in [AudioFormat::Wav, AudioFormat::Ogg, AudioFormat::Unknown] {
        match format.check_taggable("/w/a.x") {
            Err(HvtError::AudioTag(msg)) => assert_eq!(msg, "Unsupported audio format for file: /w/a.x"),
            other => panic!("unexpected outcome: {:?}", other),
        }
    }
}

#[test]
fn lowercase_of_ascii_and_other_text() {
    assert_eq!(lowercase("MP3"), "mp3");
    assert_eq!(lowercase("Disc 1_[A-Z]@`{"), "disc 1_[a-z]@`{");
    assert_eq!(lowercase("mp3"), "mp3");
    assert_eq!(lowercase(""), "");
    // capitals beyond ASCII are lowered too
    assert_eq!(lowercase("\u{00C9}T\u{00C9}"), "\u{00E9}t\u{00E9}");
    assert_eq!(lowercase("\u{FF2D}\u{FF30}\u{FF13}"), "\u{FF4D}\u{FF50}\u{FF13}");
    // the Kelvin sign lowers to the letter k
    assert_eq!(lowercase("\u{212A}R"), "kr");
}
