//! Events and calendars of the `ics` crate, filled from talk records.
//!
//! The `ics` types keep their contents private, so contracts speak of them
//! through three names: the properties of an event, the properties of a
//! calendar and the events of a calendar, each property as its key and value.
//! The small functions that call `ics` say over these names what its source
//! shows; everything built on them is verified.
use vstd::prelude::*;
use vstd::string::StringExecFns;
use ics::properties::{Categories, DtEnd, DtStart, Location, Status, Summary, TzName};
use ics::{Event, ICalendar};
use uuid::Uuid;
use crate::talk::{Talk, TalkView};
use crate::error::FormatError;
use crate::timestamp::{format_timestamp, stamp, stamp_text};

verus! {

/// The `VEVENT` component of `ics`, carried as an opaque value.
#[verifier::external_type_specification]
#[verifier::external_body]
pub struct ExEvent<'a>(Event<'a>);

/// The `VCALENDAR` object of `ics`, carried as an opaque value.
#[verifier::external_type_specification]
#[verifier::external_body]
pub struct ExICalendar<'a>(ICalendar<'a>);

/// The properties that an event holds, in the order in which they were added.
/// None of the properties made here carries a parameter, and no event gets an
/// alarm, so key and value say all there is.
pub uninterp spec fn event_properties(event: Event<'_>) -> Seq<(Seq<char>, Seq<char>)>;

/// The properties of the calendar object itself, in order.
pub uninterp spec fn calendar_properties(calendar: ICalendar<'_>) -> Seq<(Seq<char>, Seq<char>)>;

/// The events that a calendar holds, in the order in which they were added,
/// each as its properties.
pub uninterp spec fn calendar_events(calendar: ICalendar<'_>) -> Seq<Seq<(Seq<char>, Seq<char>)>>;

/// Format version written into every calendar.
pub const FORMAT_VERSION: &'static str = "2.0";

/// Product identifier written into every calendar.
pub const PRODUCT_ID: &'static str = "ics-rs";

/// Creation stamp written into every event.
pub const CREATION_STAMP: &'static str = "20230304T231000Z";

/// Category of every event.
pub const CATEGORY: &'static str = "CONFERENCE";

/// Time zone name of every event.
pub const ZONE_NAME: &'static str = "UTC";

/// What separates title and speaker in the summary.
pub const SUMMARY_JOINT: &'static str = " - ";

/// True for the 16 characters that a lower-case hexadecimal numeral is made of.
pub open spec fn is_lower_hex(c: char) -> bool {
    ('0' <= c && c <= '9') || ('a' <= c && c <= 'f')
}

/// Says that `c` may stand at position `k` of an identifier in hyphenated
/// form: a hyphen at 8, 13, 18 and 23, a lower-case hexadecimal digit
/// elsewhere.
pub open spec fn fits_uid_at(c: char, k: int) -> bool {
    if k == 8 || k == 13 || k == 18 || k == 23 {
        c == '-'
    } else {
        is_lower_hex(c)
    }
}

/// The shape of an identifier in hyphenated form: 36 characters, each of
/// which fits its position.
pub open spec fn is_uid(s: Seq<char>) -> bool {
    s.len() == 36 && forall|k: int| 0 <= k < 36 ==> fits_uid_at(#[trigger] s[k], k)
}

/// Trusted: `Uuid::new_v4` draws a random identifier and its `Display` writes
/// it in hyphenated lower-case form. Only that shape is claimed; two calls
/// may give any two such texts.
#[verifier::external_body]
fn fresh_uid() -> (uid: String)
    ensures
        is_uid(uid@),
{
    Uuid::new_v4().to_string()
}

/// Trusted: `Event::new` makes an event whose properties are `UID` and
/// `DTSTAMP`, in that order, with the two values given.
#[verifier::external_body]
fn new_event<'a>(uid: String, stamp: String) -> (event: Event<'a>)
    ensures
        event_properties(event) == seq![("UID"@, uid@), ("DTSTAMP"@, stamp@)],
{
    Event::new(uid, stamp)
}

/// Trusted: `Event::push` of a `Location` appends the property `LOCATION`.
#[verifier::external_body]
fn push_location<'a>(event: &mut Event<'a>, value: String)
    ensures
        event_properties(*final(event)) == event_properties(*old(event)).push(
            ("LOCATION"@, value@),
        ),
{
    event.push(Location::new(value))
}

/// Trusted: `Event::push` of `Status::confirmed()` appends the property
/// `STATUS` with the value `CONFIRMED`.
#[verifier::external_body]
fn push_status_confirmed<'a>(event: &mut Event<'a>)
    ensures
        event_properties(*final(event)) == event_properties(*old(event)).push(
            ("STATUS"@, "CONFIRMED"@),
        ),
{
    event.push(Status::confirmed())
}

/// Trusted: `Event::push` of a `Categories` appends the property `CATEGORIES`.
#[verifier::external_body]
fn push_categories<'a>(event: &mut Event<'a>, value: String)
    ensures
        event_properties(*final(event)) == event_properties(*old(event)).push(
            ("CATEGORIES"@, value@),
        ),
{
    event.push(Categories::new(value))
}

/// Trusted: `Event::push` of a `Summary` appends the property `SUMMARY`.
#[verifier::external_body]
fn push_summary<'a>(event: &mut Event<'a>, value: String)
    ensures
        event_properties(*final(event)) == event_properties(*old(event)).push(
            ("SUMMARY"@, value@),
        ),
{
    event.push(Summary::new(value))
}

/// Trusted: `Event::push` of a `TzName` appends the property `TZNAME`.
#[verifier::external_body]
fn push_zone_name<'a>(event: &mut Event<'a>, value: String)
    ensures
        event_properties(*final(event)) == event_properties(*old(event)).push(
            ("TZNAME"@, value@),
        ),
{
    event.push(TzName::new(value))
}

/// Trusted: `Event::push` of a `DtStart` appends the property `DTSTART`.
#[verifier::external_body]
fn push_start<'a>(event: &mut Event<'a>, value: String)
    ensures
        event_properties(*final(event)) == event_properties(*old(event)).push(
            ("DTSTART"@, value@),
        ),
{
    event.push(DtStart::new(value))
}

/// Trusted: `Event::push` of a `DtEnd` appends the property `DTEND`.
#[verifier::external_body]
fn push_end<'a>(event: &mut Event<'a>, value: String)
    ensures
        event_properties(*final(event)) == event_properties(*old(event)).push(
            ("DTEND"@, value@),
        ),
{
    event.push(DtEnd::new(value))
}

/// Trusted: `ICalendar::new` makes a calendar without events whose properties
/// are `VERSION` and `PRODID`, in that order, with the two values given.
#[verifier::external_body]
fn new_ics_calendar<'a>(version: String, product: String) -> (calendar: ICalendar<'a>)
    ensures
        calendar_properties(calendar) == seq![("VERSION"@, version@), ("PRODID"@, product@)],
        calendar_events(calendar) == Seq::<Seq<(Seq<char>, Seq<char>)>>::empty(),
{
    ICalendar::new(version, product)
}

/// Trusted: `ICalendar::add_event` appends the event, with the properties it
/// has, after the events already there, and leaves the calendar's own
/// properties as they are.
#[verifier::external_body]
fn add_event<'a>(calendar: &mut ICalendar<'a>, event: Event<'a>)
    ensures
        calendar_events(*final(calendar)) == calendar_events(*old(calendar)).push(
            event_properties(event),
        ),
        calendar_properties(*final(calendar)) == calendar_properties(*old(calendar)),
{
    calendar.add_event(event)
}

/// The summary line of a talk: title, ` - `, speaker.
pub open spec fn summary_text(talk: TalkView) -> Seq<char> {
    talk.title + SUMMARY_JOINT@ + talk.speaker
}

/// The properties of the event that stands for `talk` under the identifier
/// `uid`, for a talk whose two stamps exist.
pub open spec fn event_of(talk: TalkView, uid: Seq<char>) -> Seq<(Seq<char>, Seq<char>)> {
    seq![
        ("UID"@, uid),
        ("DTSTAMP"@, CREATION_STAMP@),
        ("LOCATION"@, talk.location),
        ("STATUS"@, "CONFIRMED"@),
        ("CATEGORIES"@, CATEGORY@),
        ("SUMMARY"@, summary_text(talk)),
        ("TZNAME"@, ZONE_NAME@),
        ("DTSTART"@, stamp_text(talk.date, talk.begin_time)),
        ("DTEND"@, stamp_text(talk.date, talk.end_time)),
    ]
}

/// The first reason why `talk` has no event: its start stamp, then its end
/// stamp.
pub open spec fn event_failure(talk: TalkView) -> Option<FormatError> {
    match stamp(talk.date, talk.begin_time) {
        Err(e) => Some(e),
        Ok(_) => match stamp(talk.date, talk.end_time) {
            Err(e) => Some(e),
            Ok(_) => None,
        },
    }
}

/// The properties that every calendar made here has: the format version and
/// the product identifier.
pub open spec fn calendar_header() -> Seq<(Seq<char>, Seq<char>)> {
    seq![("VERSION"@, FORMAT_VERSION@), ("PRODID"@, PRODUCT_ID@)]
}

/// Makes an empty calendar with the fixed format version and product
/// identifier.
pub fn new_calendar<'a>() -> (calendar: ICalendar<'a>)
    ensures
        calendar_properties(calendar) == calendar_header(),
        calendar_events(calendar) == Seq::<Seq<(Seq<char>, Seq<char>)>>::empty(),
{
    new_ics_calendar(String::from_str(FORMAT_VERSION), String::from_str(PRODUCT_ID))
}

/// Builds the summary line of a talk.
pub fn summary_line(talk: &Talk) -> (line: String)
    ensures
        line@ == summary_text(talk@),
{
    let mut line = talk.title.clone();
    line.append(SUMMARY_JOINT);
    line.append(talk.speaker.as_str());
    line
}

/// Appends to `calendar` the event of `talk` under the identifier `uid`.
///
/// Fails, and leaves the calendar as it is, exactly when the start or the end
/// of the talk has no stamp. Otherwise the calendar has one more event, last,
/// with the nine properties of [`event_of`]; its own properties stay.
pub fn add_talk_with_uid<'a>(talk: &Talk, uid: String, calendar: &mut ICalendar<'a>) -> (r: Result<
    (),
    FormatError,
>)
    ensures
        match r {
            Ok(_) => {
                &&& event_failure(talk@) is None
                &&& calendar_events(*final(calendar)) == calendar_events(*old(calendar)).push(
                    event_of(talk@, uid@),
                )
                &&& calendar_properties(*final(calendar)) == calendar_properties(*old(calendar))
            },
            Err(e) => event_failure(talk@) == Some(e) && *final(calendar) == *old(calendar),
        },
{
    let start = match format_timestamp(talk.date, talk.begin_time) {
        Ok(s) => s,
        Err(e) => {
            return Err(e);
        },
    };
    let end = match format_timestamp(talk.date, talk.end_time) {
        Ok(s) => s,
        Err(e) => {
            return Err(e);
        },
    };
    let mut event = new_event(uid, String::from_str(CREATION_STAMP));
    push_location(&mut event, talk.location.clone());
    push_status_confirmed(&mut event);
    push_categories(&mut event, String::from_str(CATEGORY));
    push_summary(&mut event, summary_line(talk));
    push_zone_name(&mut event, String::from_str(ZONE_NAME));
    push_start(&mut event, start);
    push_end(&mut event, end);
    assert(event_properties(event) =~= event_of(talk@, uid@));
    add_event(calendar, event);
    Ok(())
}

/// Appends to `calendar` the event of `talk` under a fresh random identifier.
///
/// Fails, and leaves the calendar as it is, exactly when the start or the end
/// of the talk has no stamp. Otherwise the calendar has one more event, last:
/// the event of the talk under some identifier of the hyphenated shape.
pub fn add_talk_to_calendar<'a>(talk: &Talk, calendar: &mut ICalendar<'a>) -> (r: Result<
    (),
    FormatError,
>)
    ensures
        match r {
            Ok(_) => {
                &&& event_failure(talk@) is None
                &&& exists|uid: Seq<char>|
                    #![trigger is_uid(uid)]
                    is_uid(uid) && calendar_events(*final(calendar)) == calendar_events(
                        *old(calendar),
                    ).push(event_of(talk@, uid))
                &&& calendar_properties(*final(calendar)) == calendar_properties(*old(calendar))
            },
            Err(e) => event_failure(talk@) == Some(e) && *final(calendar) == *old(calendar),
        },
{
    add_talk_with_uid(talk, fresh_uid(), calendar)
}

/// The identifier is the only part of an event that does not come from the
/// talk: the events of one talk under two identifiers have nine properties
/// each and differ in the first, `UID`, alone.
pub proof fn events_differ_in_uid_alone(talk: TalkView, first: Seq<char>, second: Seq<char>)
    ensures
        event_of(talk, first).len() == 9,
        event_of(talk, second).len() == 9,
        event_of(talk, first)[0] == ("UID"@, first),
        event_of(talk, second)[0] == ("UID"@, second),
        forall|k: int| 1 <= k < 9 ==> event_of(talk, first)[k] == event_of(talk, second)[k],
{
}

/// Says that event `k` of a calendar is the event of talk `k` under some
/// identifier of the hyphenated shape.
pub open spec fn holds_talk_at(events: Seq<Seq<(Seq<char>, Seq<char>)>>, talks: Seq<Talk>, k: int) -> bool {
    exists|uid: Seq<char>| #![trigger is_uid(uid)] is_uid(uid) && events[k] == event_of(talks[k]@, uid)
}

/// Makes a calendar that holds the event of `talk` and nothing else.
///
/// Fails exactly when the start or the end of the talk has no stamp.
/// Otherwise the calendar has the fixed format version and product
/// identifier and one event: that of the talk under some identifier of the
/// hyphenated shape.
pub fn calendar_of_talk<'a>(talk: &Talk) -> (r: Result<ICalendar<'a>, FormatError>)
    ensures
        match r {
            Ok(calendar) => {
                &&& event_failure(talk@) is None
                &&& calendar_properties(calendar) == calendar_header()
                &&& exists|uid: Seq<char>|
                    #![trigger is_uid(uid)]
                    is_uid(uid) && calendar_events(calendar) == seq![event_of(talk@, uid)]
            },
            Err(e) => event_failure(talk@) == Some(e),
        },
{
    let mut calendar = new_calendar();
    match add_talk_to_calendar(talk, &mut calendar) {
        Ok(_) => Ok(calendar),
        Err(e) => Err(e),
    }
}

/// Makes one calendar that holds the events of all `talks`, in their order.
///
/// Fails with the reason of the first talk that has no event, if there is
/// one. Otherwise the calendar has the fixed format version and product
/// identifier and exactly one event per talk.
pub fn calendar_of_talks<'a>(talks: &Vec<Talk>) -> (r: Result<ICalendar<'a>, FormatError>)
    ensures
        match r {
            Ok(calendar) => {
                &&& calendar_properties(calendar) == calendar_header()
                &&& calendar_events(calendar).len() == talks@.len()
                &&& forall|k: int|
                    0 <= k < talks@.len() ==> event_failure(#[trigger] talks@[k]@) is None
                &&& forall|k: int|
                    0 <= k < talks@.len() ==> #[trigger] holds_talk_at(
                        calendar_events(calendar),
                        talks@,
                        k,
                    )
            },
            Err(e) => exists|k: int|
                {
                    &&& 0 <= k < talks@.len()
                    &&& #[trigger] event_failure(talks@[k]@) == Some(e)
                    &&& forall|j: int| 0 <= j < k ==> event_failure(#[trigger] talks@[j]@) is None
                },
        },
{
    let mut calendar = new_calendar();
    let mut i: usize = 0;
    while i < talks.len()
        invariant
            i <= talks@.len(),
            calendar_properties(calendar) == calendar_header(),
            calendar_events(calendar).len() == i,
            forall|k: int| 0 <= k < i ==> event_failure(#[trigger] talks@[k]@) is None,
            forall|k: int|
                0 <= k < i ==> #[trigger] holds_talk_at(calendar_events(calendar), talks@, k),
        decreases talks@.len() - i,
    {
        let ghost before = calendar_events(calendar);
        match add_talk_to_calendar(&talks[i], &mut calendar) {
            Ok(_) => {
                assert forall|k: int| 0 <= k < i + 1 implies #[trigger] holds_talk_at(
                    calendar_events(calendar),
                    talks@,
                    k,
                ) by {
                    if k < i {
                        assert(holds_talk_at(before, talks@, k));
                        let uid = choose|uid: Seq<char>|
                            #![trigger is_uid(uid)]
                            is_uid(uid) && before[k] == event_of(talks@[k]@, uid);
                        assert(is_uid(uid) && calendar_events(calendar)[k] == event_of(
                            talks@[k]@,
                            uid,
                        ));
                    }
                }
            },
            Err(e) => {
                return Err(e);
            },
        }
        i = i + 1;
    }
    Ok(calendar)
}

} // verus!
