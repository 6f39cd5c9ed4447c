//! From the text fragments of the agenda page to talk records.
//!
//! The page yields one flat run of fragments. A talk takes seven of them:
//! title, speaker, date, begin, end, location and a filler. An entry whose
//! location is the reception has no filler and takes six. Reading goes from
//! left to right and stops, without error, as soon as fewer than seven
//! fragments are left.
use vstd::prelude::*;
use vstd::string::StringExecFns;
use scraper::{Html, Selector};
use crate::datetime::{date_of, parse_date, parse_time, time_of};
use crate::error::AgendaError;
use crate::talk::{talks_view, Date, Talk, TalkView, Time};

verus! {

/// The location text that marks a reception.
pub const RECEPTION: &'static str = "Empfang Hotel LingBao";

/// The selector of the nodes that hold one agenda entry each.
pub const ENTRY_SELECTOR: &'static str =
    "div.agendaEventSlotTeaser.teaser.eventSlot.withLink > a.eventSlotLink > div.teaserWrapper";

/// The number of fragments of a regular entry.
pub const ENTRY_WIDTH: usize = 7;

/// The number of fragments of a reception, and of the part of any entry that
/// a talk is read from.
pub const RECEPTION_WIDTH: usize = 6;

/// The texts of the nodes of `markup` that `selector` matches, in document
/// order: what `scraper` selects after parsing `markup` as an HTML document.
/// `None` when `selector` is not a valid selector.
pub uninterp spec fn selected_text(markup: Seq<char>, selector: Seq<char>) -> Option<Seq<Seq<char>>>;

/// Trusted: parses `markup` with `Html::parse_document`, the selector with
/// `Selector::parse`, and collects the text nodes below every element that
/// `Html::select` yields, element by element. The result depends on the two
/// texts alone, so it has a name; nothing else is claimed of it.
#[verifier::external_body]
fn select_text(markup: &str, selector: &str) -> (fragments: Option<Vec<String>>)
    ensures
        match fragments {
            Some(found) => selected_text(markup@, selector@) == Some(found.deep_view()),
            None => selected_text(markup@, selector@) is None,
        },
{
    let selector = match Selector::parse(selector) {
        Ok(selector) => selector,
        Err(_) => return None,
    };
    let document = Html::parse_document(markup);
    Some(document.select(&selector).flat_map(|element| element.text()).map(String::from).collect())
}

/// The talk made of two texts, the outcomes of reading its date and its two
/// times, and a location. The first failure wins: date, begin, end.
pub open spec fn assembled(
    title: Seq<char>,
    speaker: Seq<char>,
    date: Result<Date, AgendaError>,
    begin: Result<Time, AgendaError>,
    end: Result<Time, AgendaError>,
    location: Seq<char>,
) -> Result<TalkView, AgendaError> {
    match date {
        Err(e) => Err(e),
        Ok(date) => match begin {
            Err(e) => Err(e),
            Ok(begin_time) => match end {
                Err(e) => Err(e),
                Ok(end_time) => Ok(
                    TalkView { title, speaker, date, begin_time, end_time, location },
                ),
            },
        },
    }
}

/// The talk read from the six fragments that start at `i`.
pub open spec fn window_talk(fragments: Seq<Seq<char>>, i: int) -> Result<TalkView, AgendaError> {
    if i < 0 || i + 6 > fragments.len() {
        Err(AgendaError::OutOfRange)
    } else {
        assembled(
            fragments[i],
            fragments[i + 1],
            date_of(fragments[i + 2]),
            time_of(fragments[i + 3]),
            time_of(fragments[i + 4]),
            fragments[i + 5],
        )
    }
}

/// The width of the window that starts at `i`: six when its location is the
/// reception, seven otherwise.
pub open spec fn window_width(fragments: Seq<Seq<char>>, i: int) -> int {
    if fragments[i + 5] == RECEPTION@ {
        6
    } else {
        7
    }
}

/// The talk of the window that starts at `i` and the index after the window.
/// The whole window must lie inside the fragments.
pub open spec fn window(fragments: Seq<Seq<char>>, i: int) -> Result<(TalkView, int), AgendaError> {
    if i < 0 || i + 6 > fragments.len() || i + window_width(fragments, i) > fragments.len() {
        Err(AgendaError::OutOfRange)
    } else {
        match window_talk(fragments, i) {
            Err(e) => Err(e),
            Ok(talk) => Ok((talk, i + window_width(fragments, i))),
        }
    }
}

/// The talks read from `i` on: none when fewer than seven fragments are left,
/// else the talk of the window at `i` and then the talks after that window.
/// The first window that fails makes the whole reading fail.
pub open spec fn talks_from(fragments: Seq<Seq<char>>, i: int) -> Result<Seq<TalkView>, AgendaError>
    decreases fragments.len() - i,
{
    if i < 0 || fragments.len() - i < 7 {
        Ok(Seq::empty())
    } else {
        match window_talk(fragments, i) {
            Err(e) => Err(e),
            Ok(talk) => match talks_from(fragments, i + window_width(fragments, i)) {
                Err(e) => Err(e),
                Ok(rest) => Ok(seq![talk] + rest),
            },
        }
    }
}

/// The talks of a page: the text under the nodes that `selector` matches,
/// read from the start.
pub open spec fn events_of_page(markup: Seq<char>, selector: Seq<char>) -> Result<
    Seq<TalkView>,
    AgendaError,
> {
    match selected_text(markup, selector) {
        None => Err(AgendaError::InvalidSelector),
        Some(fragments) => talks_from(fragments, 0),
    }
}

/// Says that the exec result `r` is the value `expected` of the model.
pub open spec fn is_talk(r: Result<Talk, AgendaError>, expected: Result<TalkView, AgendaError>) -> bool {
    match r {
        Ok(talk) => expected == Ok::<TalkView, AgendaError>(talk@),
        Err(e) => expected == Err::<TalkView, AgendaError>(e),
    }
}

/// Says that the exec result `r` is the value `expected` of the model.
pub open spec fn is_talks(r: Result<Vec<Talk>, AgendaError>, expected: Result<Seq<TalkView>, AgendaError>) -> bool {
    match r {
        Ok(talks) => expected == Ok::<Seq<TalkView>, AgendaError>(talks_view(talks@)),
        Err(e) => expected == Err::<Seq<TalkView>, AgendaError>(e),
    }
}

/// `head` in front of the talks of `tail`, or the failure of `tail`.
pub open spec fn prepended(head: Seq<TalkView>, tail: Result<Seq<TalkView>, AgendaError>) -> Result<
    Seq<TalkView>,
    AgendaError,
> {
    match tail {
        Ok(rest) => Ok(head + rest),
        Err(e) => Err(e),
    }
}

/// Makes a talk of two texts, the outcomes of reading its date and its two
/// times, and a location.
///
/// Fails with the first failure among date, begin and end, in that order;
/// otherwise the talk holds the six values as given.
pub fn assemble_talk(
    title: &str,
    speaker: &str,
    date: Result<Date, AgendaError>,
    begin: Result<Time, AgendaError>,
    end: Result<Time, AgendaError>,
    location: &str,
) -> (r: Result<Talk, AgendaError>)
    ensures
        is_talk(r, assembled(title@, speaker@, date, begin, end, location@)),
{
    let date = match date {
        Ok(date) => date,
        Err(e) => {
            return Err(e);
        },
    };
    let begin_time = match begin {
        Ok(time) => time,
        Err(e) => {
            return Err(e);
        },
    };
    let end_time = match end {
        Ok(time) => time,
        Err(e) => {
            return Err(e);
        },
    };
    Ok(
        Talk {
            title: String::from_str(title),
            speaker: String::from_str(speaker),
            date,
            begin_time,
            end_time,
            location: String::from_str(location),
        },
    )
}

/// Reads the talk whose six fragments start at index `i` of `div_text`:
/// title, speaker, date, begin, end, location.
///
/// Fails with `OutOfRange` when fewer than six fragments start at `i`, with
/// `BadDate` when the date does not read, with `BadTime` when the date reads
/// and one of the times does not. Otherwise the talk holds title, speaker and
/// location as they stand, and the date and times as read.
pub fn map_div_content_to_talk(i: usize, div_text: &Vec<String>) -> (r: Result<Talk, AgendaError>)
    ensures
        is_talk(r, window_talk(div_text.deep_view(), i as int)),
{
    if div_text.len() < RECEPTION_WIDTH || i > div_text.len() - RECEPTION_WIDTH {
        return Err(AgendaError::OutOfRange);
    }
    assemble_talk(
        div_text[i].as_str(),
        div_text[i + 1].as_str(),
        parse_date(div_text[i + 2].as_str()),
        parse_time(div_text[i + 3].as_str()),
        parse_time(div_text[i + 4].as_str()),
        div_text[i + 5].as_str(),
    )
}

/// Reads the window that starts at index `i`: its talk, and the index of the
/// fragment after it.
///
/// The window is six fragments wide when its location is the reception and
/// seven otherwise. Fails with `OutOfRange` when the window does not lie
/// inside the fragments, else as [`map_div_content_to_talk`] does. On
/// success the index returned is `i` plus the width of the window.
pub fn parse_window(fragments: &Vec<String>, i: usize) -> (r: Result<(Talk, usize), AgendaError>)
    ensures
        match r {
            Ok((talk, next)) => window(fragments.deep_view(), i as int) == Ok::<
                (TalkView, int),
                AgendaError,
            >((talk@, next as int)),
            Err(e) => window(fragments.deep_view(), i as int) == Err::<(TalkView, int), AgendaError>(
                e,
            ),
        },
{
    if fragments.len() < RECEPTION_WIDTH || i > fragments.len() - RECEPTION_WIDTH {
        return Err(AgendaError::OutOfRange);
    }
    let reception = String::from_str(RECEPTION);
    let width: usize = if fragments[i + 5] == reception {
        RECEPTION_WIDTH
    } else {
        ENTRY_WIDTH
    };
    if fragments.len() < width || i > fragments.len() - width {
        return Err(AgendaError::OutOfRange);
    }
    match map_div_content_to_talk(i, fragments) {
        Ok(talk) => Ok((talk, i + width)),
        Err(e) => Err(e),
    }
}

/// Reads all talks of a run of fragments, window by window from the start.
///
/// Reading stops when fewer than seven fragments are left; what is left is
/// dropped. A run shorter than seven fragments gives no talks and no error.
/// The first window that fails makes the whole reading fail with its error.
pub fn parse_talks(fragments: &Vec<String>) -> (r: Result<Vec<Talk>, AgendaError>)
    ensures
        is_talks(r, talks_from(fragments.deep_view(), 0)),
{
    let ghost texts = fragments.deep_view();
    let mut talks: Vec<Talk> = Vec::new();
    let mut i: usize = 0;
    while fragments.len() - i >= ENTRY_WIDTH
        invariant
            texts == fragments.deep_view(),
            i <= fragments@.len(),
            talks_from(texts, 0) == prepended(talks_view(talks@), talks_from(texts, i as int)),
        decreases fragments@.len() - i,
    {
        let ghost before = talks_view(talks@);
        match parse_window(fragments, i) {
            Err(e) => {
                return Err(e);
            },
            Ok((talk, next)) => {
                let ghost rest = talks_from(texts, next as int);
                talks.push(talk);
                assert(talks_view(talks@) =~= before.push(talk@));
                assert(rest is Ok ==> before + (seq![talk@] + rest->Ok_0) =~= before.push(talk@)
                    + rest->Ok_0);
                i = next;
            },
        }
    }
    Ok(talks)
}

/// Reads the talks of the page whose markup is `body`, taking as entries the
/// nodes that `selector` matches.
///
/// Fails with `InvalidSelector` when `selector` is no valid selector;
/// otherwise the result is that of [`parse_talks`] on the text fragments
/// under the matched nodes, in document order.
pub fn get_list_of_events_with(body: &str, selector: &str) -> (r: Result<Vec<Talk>, AgendaError>)
    ensures
        is_talks(r, events_of_page(body@, selector@)),
{
    match select_text(body, selector) {
        None => Err(AgendaError::InvalidSelector),
        Some(fragments) => parse_talks(&fragments),
    }
}

/// Reads the talks of the agenda page whose markup is `body`: those under
/// the nodes that [`ENTRY_SELECTOR`] matches.
pub fn get_list_of_events(body: &str) -> (r: Result<Vec<Talk>, AgendaError>)
    ensures
        is_talks(r, events_of_page(body@, ENTRY_SELECTOR@)),
{
    get_list_of_events_with(body, ENTRY_SELECTOR)
}

/// A regular window: where seven fragments start at `i`, the location is not
/// the reception, and the talk of the window reads, the window gives that
/// talk and ends seven fragments on. The talk holds title, speaker and
/// location as they stand in the fragments, and date and times as read from
/// theirs. Reading from `i` gives that talk first and then what reading from
/// `i + 7` gives.
pub proof fn regular_window_advances_by_seven(fragments: Seq<Seq<char>>, i: int)
    requires
        0 <= i,
        i + 7 <= fragments.len(),
        fragments[i + 5] != RECEPTION@,
        window_talk(fragments, i) is Ok,
    ensures
        window(fragments, i) is Ok,
        window(fragments, i)->Ok_0.1 == i + 7,
        window(fragments, i)->Ok_0.0 == (TalkView {
            title: fragments[i],
            speaker: fragments[i + 1],
            date: date_of(fragments[i + 2])->Ok_0,
            begin_time: time_of(fragments[i + 3])->Ok_0,
            end_time: time_of(fragments[i + 4])->Ok_0,
            location: fragments[i + 5],
        }),
        talks_from(fragments, i) == prepended(
            seq![window(fragments, i)->Ok_0.0],
            talks_from(fragments, i + 7),
        ),
{
}

/// A reception window: where the location of the window at `i` is the
/// reception and the talk of the window reads, the window gives that talk
/// and ends six fragments on. Where seven fragments are left, reading from
/// `i` gives that talk first and then what reading from `i + 6` gives.
pub proof fn reception_window_advances_by_six(fragments: Seq<Seq<char>>, i: int)
    requires
        0 <= i,
        i + 6 <= fragments.len(),
        fragments[i + 5] == RECEPTION@,
        window_talk(fragments, i) is Ok,
    ensures
        window(fragments, i) is Ok,
        window(fragments, i)->Ok_0.1 == i + 6,
        window(fragments, i)->Ok_0.0.location == RECEPTION@,
        i + 7 <= fragments.len() ==> talks_from(fragments, i) == prepended(
            seq![window(fragments, i)->Ok_0.0],
            talks_from(fragments, i + 6),
        ),
{
}

/// Where fewer than seven fragments are left, reading gives no talk and no
/// error, whatever the fragments hold.
pub proof fn short_rest_gives_no_talks(fragments: Seq<Seq<char>>, i: int)
    requires
        fragments.len() - i < 7,
    ensures
        talks_from(fragments, i) == Ok::<Seq<TalkView>, AgendaError>(Seq::empty()),
{
}

/// A window that fails makes the reading from it fail with the same error.
pub proof fn failing_window_fails_the_reading(fragments: Seq<Seq<char>>, i: int)
    requires
        0 <= i,
        i + 7 <= fragments.len(),
        window_talk(fragments, i) is Err,
    ensures
        talks_from(fragments, i) == Err::<Seq<TalkView>, AgendaError>(
            window_talk(fragments, i)->Err_0,
        ),
{
}

/// Every talk takes at least six fragments: reading from `i` never gives
/// more talks than a sixth of the fragments from `i` on.
pub proof fn talks_are_bounded(fragments: Seq<Seq<char>>, i: int)
    requires
        0 <= i,
    ensures
        talks_from(fragments, i) is Ok ==> 6 * talks_from(fragments, i)->Ok_0.len() <= if i
            <= fragments.len() {
            fragments.len() - i
        } else {
            0
        },
    decreases fragments.len() - i,
{
    if fragments.len() - i >= 7 && window_talk(fragments, i) is Ok {
        talks_are_bounded(fragments, i + window_width(fragments, i));
    }
}

} // verus!
