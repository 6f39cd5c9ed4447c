use agenda_ics::filename::{format_filename_for_talk, ics_path, replaced, sanitize, ALL_EVENTS};
use agenda_ics::{Date, Talk, Time};

fn named_talk(title: &str, speaker: &str, day: u32, location: &str) -> Talk {
    Talk {
        title: String::from(title),
        speaker: String::from(speaker),
        date: Date { year: 2023, month: 3, day },
        begin_time: Time { hour: 9, minute: 0 },
        end_time: Time { hour: 9, minute: 40 },
        location: String::from(location),
    }
}

#[test]
fn speaker_with_space_comma_and_period() {
    let clean = sanitize("Jane Doe, Inc.", '_');
    assert_eq!(clean, "Jane_Doe__Inc_");
    assert!(!clean.contains(' '));
    assert!(!clean.contains(','));
    assert!(!clean.contains('.'));
}

#[test]
fn every_replaced_character_is_replaced() {
    assert_eq!(sanitize(" +:&\",!?.\n", '_'), "__________");
    assert_eq!(sanitize(" +:&\",!?.\n", '-'), "----------");
}

#[test]
fn other_characters_stay() {
    assert_eq!(sanitize("Grüße_aus-Brühl/#42;", '_'), "Grüße_aus-Brühl/#42;");
    assert_eq!(sanitize("tab\there\r", '_'), "tab\there\r");
    assert_eq!(sanitize("", '_'), "");
}

#[test]
fn replaced_characters_are_exactly_ten() {
    let count = (0u32..0x11_0000).filter_map(char::from_u32).filter(|c| replaced(*c)).count();
    assert_eq!(count, 10);
    for c in [' ', '+', ':', '&', '"', ',', '!', '?', '.', '\n'] {
        assert!(replaced(c));
    }
    assert!(!replaced('_'));
    assert!(!replaced('-'));
    assert!(!replaced('/'));
}

#[test]
fn sanitizing_twice_changes_nothing_more() {
    let once = sanitize("Why? Because: Rust & Java!", '-');
    assert_eq!(once, "Why--Because--Rust---Java-");
    assert_eq!(sanitize(&once, '-'), once);
}

#[test]
fn filename_joins_day_speaker_title_location() {
    let t = named_talk("Java 21: What's new?", "Jane Doe, Inc.", 20, "Hotel LingBao, Saal 2");
    assert_eq!(
        format_filename_for_talk(&t),
        "20_Jane_Doe__Inc__Java-21--What's-new-_Hotel_LingBao__Saal_2"
    );
}

#[test]
fn filename_of_plain_texts() {
    let t = named_talk("Keynote", "Ada", 7, "Zelt");
    assert_eq!(format_filename_for_talk(&t), "7_Ada_Keynote_Zelt");
}

#[test]
fn filename_of_empty_texts() {
    let t = named_talk("", "", 31, "");
    assert_eq!(format_filename_for_talk(&t), "31___");
}

#[test]
fn filename_holds_no_replaced_character() {
    let t = named_talk("a b+c:d&e\"f,g!h?i.j\nk", " +:&\",!?.\n", 1, "x. y");
    let name = format_filename_for_talk(&t);
    assert!(name.chars().all(|c| !replaced(c)));
}

#[test]
fn path_is_name_and_extension() {
    assert_eq!(ics_path("7_Ada_Keynote_Zelt"), "7_Ada_Keynote_Zelt.ics");
    assert_eq!(ics_path(ALL_EVENTS), "javaland_2023_all_events.ics");
    assert_eq!(ics_path(""), ".ics");
}
