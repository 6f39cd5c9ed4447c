use agenda_ics::agenda::{
    assemble_talk, get_list_of_events, get_list_of_events_with, map_div_content_to_talk,
    parse_talks, parse_window, ENTRY_SELECTOR, RECEPTION,
};
use agenda_ics::{AgendaError, Date, Talk, Time};

fn entry(title: &str, location: &str) -> Vec<String> {
    [title, "Jane Doe", "Montag, 20.03.2023", "09:05", "09:45", location, "mehr"]
        .iter()
        .map(|s| String::from(*s))
        .collect()
}

fn reception() -> Vec<String> {
    ["Empfang", "", "Montag, 20.03.2023", "19:00", "22:30", RECEPTION]
        .iter()
        .map(|s| String::from(*s))
        .collect()
}

fn titles(talks: &[Talk]) -> Vec<String> {
    talks.iter().map(|t| t.title.clone()).collect()
}

#[test]
fn assembling_keeps_the_six_values() {
    let talk = assemble_talk(
        "Title",
        "Speaker",
        Ok(Date { year: 2023, month: 3, day: 21 }),
        Ok(Time { hour: 10, minute: 0 }),
        Ok(Time { hour: 10, minute: 40 }),
        "Room",
    )
    .unwrap();
    assert_eq!(talk.title, "Title");
    assert_eq!(talk.speaker, "Speaker");
    assert_eq!(talk.date, Date { year: 2023, month: 3, day: 21 });
    assert_eq!(talk.begin_time, Time { hour: 10, minute: 0 });
    assert_eq!(talk.end_time, Time { hour: 10, minute: 40 });
    assert_eq!(talk.location, "Room");
}

#[test]
fn assembling_fails_with_the_first_failure() {
    let date = Ok(Date { year: 2023, month: 3, day: 21 });
    let time = Ok(Time { hour: 10, minute: 0 });
    let bad_date = Err(AgendaError::BadDate);
    let bad_time = Err(AgendaError::BadTime);
    let out_of_range = Err(AgendaError::OutOfRange);
    assert_eq!(assemble_talk("t", "s", bad_date, bad_time, bad_time, "l").err(), Some(AgendaError::BadDate));
    assert_eq!(assemble_talk("t", "s", date, bad_time, time, "l").err(), Some(AgendaError::BadTime));
    assert_eq!(assemble_talk("t", "s", date, time, bad_time, "l").err(), Some(AgendaError::BadTime));
    assert_eq!(assemble_talk("t", "s", date, out_of_range, bad_time, "l").err(), Some(AgendaError::OutOfRange));
    assert_eq!(assemble_talk("t", "s", date, time, out_of_range, "l").err(), Some(AgendaError::OutOfRange));
}

#[test]
fn talk_of_a_window() {
    let fragments = entry("Java 21", "Raum 1");
    let talk = map_div_content_to_talk(0, &fragments).unwrap();
    assert_eq!(talk.title, "Java 21");
    assert_eq!(talk.speaker, "Jane Doe");
    assert_eq!(talk.date, Date { year: 2023, month: 3, day: 20 });
    assert_eq!(talk.begin_time, Time { hour: 9, minute: 5 });
    assert_eq!(talk.end_time, Time { hour: 9, minute: 45 });
    assert_eq!(talk.location, "Raum 1");
}

#[test]
fn talk_of_a_window_further_on() {
    let mut fragments = entry("first", "Raum 1");
    fragments.extend(entry("second", "Raum 2"));
    let talk = map_div_content_to_talk(7, &fragments).unwrap();
    assert_eq!(talk.title, "second");
    assert_eq!(talk.location, "Raum 2");
    let shifted = map_div_content_to_talk(8, &fragments).unwrap_err();
    assert_eq!(shifted, AgendaError::BadDate);
}

#[test]
fn talk_needs_six_fragments() {
    let fragments = entry("Java 21", "Raum 1");
    assert!(map_div_content_to_talk(1, &fragments).is_err());
    assert_eq!(map_div_content_to_talk(2, &fragments).unwrap_err(), AgendaError::OutOfRange);
    assert_eq!(map_div_content_to_talk(7, &fragments).unwrap_err(), AgendaError::OutOfRange);
    assert_eq!(map_div_content_to_talk(usize::MAX, &fragments).unwrap_err(), AgendaError::OutOfRange);
    assert_eq!(map_div_content_to_talk(0, &Vec::new()).unwrap_err(), AgendaError::OutOfRange);
    let six = reception();
    assert!(map_div_content_to_talk(0, &six).is_ok());
    assert_eq!(map_div_content_to_talk(0, &six[..5].to_vec()).unwrap_err(), AgendaError::OutOfRange);
}

#[test]
fn talk_with_a_bad_field() {
    let mut fragments = entry("Java 21", "Raum 1");
    fragments[3] = String::from("9 Uhr");
    assert_eq!(map_div_content_to_talk(0, &fragments).unwrap_err(), AgendaError::BadTime);
    fragments[3] = String::from("09:05");
    fragments[4] = String::from("25:00");
    assert_eq!(map_div_content_to_talk(0, &fragments).unwrap_err(), AgendaError::BadTime);
    fragments[2] = String::from("morgen");
    assert_eq!(map_div_content_to_talk(0, &fragments).unwrap_err(), AgendaError::BadDate);
}

#[test]
fn regular_window_is_seven_wide() {
    let mut fragments = entry("first", "Raum 1");
    fragments.extend(entry("second", "Raum 2"));
    let (talk, next) = parse_window(&fragments, 0).unwrap();
    assert_eq!(talk.title, "first");
    assert_eq!(next, 7);
    let (talk, next) = parse_window(&fragments, 7).unwrap();
    assert_eq!(talk.title, "second");
    assert_eq!(next, 14);
}

#[test]
fn reception_window_is_six_wide() {
    let mut fragments = reception();
    fragments.extend(entry("after", "Raum 1"));
    let (talk, next) = parse_window(&fragments, 0).unwrap();
    assert_eq!(talk.title, "Empfang");
    assert_eq!(talk.location, RECEPTION);
    assert_eq!(next, 6);
    let (talk, next) = parse_window(&fragments, 6).unwrap();
    assert_eq!(talk.title, "after");
    assert_eq!(next, 13);
}

#[test]
fn window_must_lie_inside_the_fragments() {
    let six = reception();
    assert_eq!(parse_window(&six, 0).map(|w| w.1), Ok(6));
    let mut regular = entry("only", "Raum 1");
    assert_eq!(parse_window(&regular, 0).map(|w| w.1), Ok(7));
    regular.pop();
    assert_eq!(parse_window(&regular, 0).unwrap_err(), AgendaError::OutOfRange);
    assert_eq!(parse_window(&six, 1).unwrap_err(), AgendaError::OutOfRange);
    assert_eq!(parse_window(&Vec::new(), 0).unwrap_err(), AgendaError::OutOfRange);
}

#[test]
fn talks_of_regular_windows() {
    let mut fragments = entry("first", "Raum 1");
    fragments.extend(entry("second", "Raum 2"));
    fragments.extend(entry("third", "Raum 3"));
    let talks = parse_talks(&fragments).unwrap();
    assert_eq!(titles(&talks), ["first", "second", "third"]);
    assert_eq!(talks[2].location, "Raum 3");
}

#[test]
fn talks_around_a_reception() {
    let mut fragments = entry("first", "Raum 1");
    fragments.extend(reception());
    fragments.extend(entry("third", "Raum 3"));
    assert_eq!(fragments.len(), 20);
    let talks = parse_talks(&fragments).unwrap();
    assert_eq!(titles(&talks), ["first", "Empfang", "third"]);
    assert_eq!(talks[1].begin_time, Time { hour: 19, minute: 0 });
}

#[test]
fn short_run_gives_no_talks() {
    assert_eq!(parse_talks(&Vec::new()).unwrap().len(), 0);
    let mut fragments = entry("only", "Raum 1");
    fragments.pop();
    assert_eq!(fragments.len(), 6);
    assert_eq!(parse_talks(&fragments).unwrap().len(), 0);
    let garbage: Vec<String> = (0..6).map(|k| format!("x{}", k)).collect();
    assert_eq!(parse_talks(&garbage).unwrap().len(), 0);
}

#[test]
fn what_is_left_after_the_last_window_is_dropped() {
    let mut fragments = entry("first", "Raum 1");
    fragments.extend(["left", "over", "and", "not", "a", "talk"].iter().map(|s| String::from(*s)));
    let talks = parse_talks(&fragments).unwrap();
    assert_eq!(titles(&talks), ["first"]);
}

#[test]
fn reception_at_the_very_end_is_dropped() {
    let mut fragments = entry("first", "Raum 1");
    fragments.extend(reception());
    let talks = parse_talks(&fragments).unwrap();
    assert_eq!(titles(&talks), ["first"]);
}

#[test]
fn exactly_seven_fragments_give_one_talk() {
    let talks = parse_talks(&entry("only", "Raum 1")).unwrap();
    assert_eq!(titles(&talks), ["only"]);
}

#[test]
fn one_bad_window_fails_the_whole_run() {
    let mut fragments = entry("first", "Raum 1");
    fragments.extend(entry("second", "Raum 2"));
    fragments[9] = String::from("irgendwann");
    assert_eq!(parse_talks(&fragments).unwrap_err(), AgendaError::BadDate);
    fragments[9] = String::from("Montag, 20.03.2023");
    fragments[11] = String::from("spät");
    assert_eq!(parse_talks(&fragments).unwrap_err(), AgendaError::BadTime);
}

fn page(entries: &[Vec<String>]) -> String {
    let mut markup = String::from("<!DOCTYPE html><html><head><title>Agenda</title></head><body><h1>Agenda</h1>");
    for entry in entries {
        markup.push_str("<div class=\"agendaEventSlotTeaser teaser eventSlot withLink\">");
        markup.push_str("<a class=\"eventSlotLink\" href=\"#\"><div class=\"teaserWrapper\">");
        for fragment in entry {
            markup.push_str("<span>");
            markup.push_str(fragment);
            markup.push_str("</span>");
        }
        markup.push_str("</div></a></div>");
    }
    markup.push_str("<div class=\"teaserWrapper\"><span>not an entry</span></div></body></html>");
    markup
}

#[test]
fn talks_of_a_page() {
    let entries = [entry("first", "Raum 1"), entry("second", "Raum 2")];
    let talks = get_list_of_events(&page(&entries)).unwrap();
    assert_eq!(titles(&talks), ["first", "second"]);
    assert_eq!(talks[0].speaker, "Jane Doe");
    assert_eq!(talks[0].date, Date { year: 2023, month: 3, day: 20 });
    assert_eq!(talks[1].end_time, Time { hour: 9, minute: 45 });
    assert_eq!(talks[1].location, "Raum 2");
}

#[test]
fn talks_of_a_page_with_a_reception() {
    let mut party = reception();
    party[1] = String::from("alle");
    let entries = [entry("first", "Raum 1"), party, entry("third", "Raum 3")];
    let talks = get_list_of_events(&page(&entries)).unwrap();
    assert_eq!(titles(&talks), ["first", "Empfang", "third"]);
}

#[test]
fn page_without_entries_has_no_talks() {
    assert_eq!(get_list_of_events("<html><body><p>nothing today</p></body></html>").unwrap().len(), 0);
    assert_eq!(get_list_of_events("").unwrap().len(), 0);
}

#[test]
fn page_with_a_bad_entry_fails() {
    let mut bad = entry("first", "Raum 1");
    bad[2] = String::from("Montag");
    assert_eq!(get_list_of_events(&page(&[bad])).unwrap_err(), AgendaError::BadDate);
}

#[test]
fn page_read_with_another_selector() {
    let markup = "<ul><li>Keynote</li><li>Ada</li><li>Di, 21.03.2023</li><li>10:00</li>\
                  <li>10:45</li><li>Zelt</li><li>mehr</li></ul><p>Keynote</p>";
    let talks = get_list_of_events_with(markup, "ul > li").unwrap();
    assert_eq!(titles(&talks), ["Keynote"]);
    assert_eq!(talks[0].date, Date { year: 2023, month: 3, day: 21 });
    assert_eq!(get_list_of_events_with(markup, "p").unwrap().len(), 0);
    assert_eq!(get_list_of_events_with(markup, ENTRY_SELECTOR).unwrap().len(), 0);
}

#[test]
fn selector_that_is_no_selector() {
    let markup = page(&[entry("first", "Raum 1")]);
    assert_eq!(get_list_of_events_with(&markup, "div >").unwrap_err(), AgendaError::InvalidSelector);
    assert_eq!(get_list_of_events_with(&markup, "").unwrap_err(), AgendaError::InvalidSelector);
    assert_eq!(get_list_of_events_with("", "[[").unwrap_err(), AgendaError::InvalidSelector);
}
