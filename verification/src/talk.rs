//! The talk record and the plain date and time values it holds.
use vstd::prelude::*;

verus! {

/// A calendar date as three numbers.
#[derive(Clone, Copy, Debug, PartialEq, Eq, Structural)]
pub struct Date {
    pub year: i32,
    pub month: u32,
    pub day: u32,
}

/// A wall-clock time of day, to the minute.
#[derive(Clone, Copy, Debug, PartialEq, Eq, Structural)]
pub struct Time {
    pub hour: u32,
    pub minute: u32,
}

/// One scheduled presentation.
#[derive(Clone, Debug)]
pub struct Talk {
    pub title: String,
    pub speaker: String,
    pub date: Date,
    pub begin_time: Time,
    pub end_time: Time,
    pub location: String,
}

/// What a [`Talk`] is in contracts: its texts as sequences of characters.
pub struct TalkView {
    pub title: Seq<char>,
    pub speaker: Seq<char>,
    pub date: Date,
    pub begin_time: Time,
    pub end_time: Time,
    pub location: Seq<char>,
}

impl View for Talk {
    type V = TalkView;

    open spec fn view(&self) -> TalkView {
        TalkView {
            title: self.title@,
            speaker: self.speaker@,
            date: self.date,
            begin_time: self.begin_time,
            end_time: self.end_time,
            location: self.location@,
        }
    }
}

/// The views of a run of talks, in order.
pub open spec fn talks_view(talks: Seq<Talk>) -> Seq<TalkView> {
    talks.map_values(|t: Talk| t@)
}

} // verus!
