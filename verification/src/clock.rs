//! Civil time, and the weekly meeting's place in it.
//!
//! A moment is a number of seconds of local civil time since the start of
//! 1 January 1970, a Thursday. Every day has 86400 of them.

use vstd::prelude::*;

verus! {

/// The seconds of a day.
pub const SECONDS_PER_DAY: i64 = 86400;

/// The second of the day at which the meeting starts: 12:15.
pub const MEETING_SECOND: i64 = 44100;

/// How long before the meeting the reminder may go out: one hour.
pub const REMIND_LEAD: i64 = 3600;

/// The days from one meeting to the next.
pub const DAYS_PER_WEEK: i64 = 7;

/// A day of the week.
#[derive(Clone, Copy, Debug, PartialEq, Eq, Structural)]
pub enum Weekday {
    Mon,
    Tue,
    Wed,
    Thu,
    Fri,
    Sat,
    Sun,
}

impl Weekday {
    /// The days since Monday.
    pub open spec fn index(self) -> int {
        match self {
            Weekday::Mon => 0,
            Weekday::Tue => 1,
            Weekday::Wed => 2,
            Weekday::Thu => 3,
            Weekday::Fri => 4,
            Weekday::Sat => 5,
            Weekday::Sun => 6,
        }
    }

    /// The days since Monday.
    pub fn num_days_from_monday(self) -> (days: u8)
        ensures
            days == self.index(),
    {
        match self {
            Weekday::Mon => 0,
            Weekday::Tue => 1,
            Weekday::Wed => 2,
            Weekday::Thu => 3,
            Weekday::Fri => 4,
            Weekday::Sat => 5,
            Weekday::Sun => 6,
        }
    }
}

/// The day of the week on which the meeting is held.
pub open spec fn meeting_weekday() -> Weekday {
    Weekday::Thu
}

/// The day that the moment `t` lies in, counted from 1 January 1970.
pub open spec fn day_of(t: int) -> int {
    t / 86400
}

/// The seconds from the start of its day to the moment `t`.
pub open spec fn second_of_day(t: int) -> int {
    t % 86400
}

/// The day of the week of the moment `t`, in days since Monday.
pub open spec fn weekday_index(t: int) -> int {
    (day_of(t) + 3) % 7
}

/// Whether a meeting starts at the moment `t`.
pub open spec fn is_meeting_time(t: int) -> bool {
    weekday_index(t) == meeting_weekday().index() && second_of_day(t) == MEETING_SECOND
}

/// Whether `meeting` is the first start of a meeting after the moment `now`.
pub open spec fn is_next_meeting(now: int, meeting: int) -> bool {
    &&& now < meeting
    &&& is_meeting_time(meeting)
    &&& forall|t: int| now < t < meeting ==> !is_meeting_time(t)
}

/// The days from the day of `now` to the day of the next meeting: none on the
/// meeting's day until the meeting has started, a week from then on, and on
/// any other day the days that are left until the meeting's day.
pub open spec fn days_ahead(now: int) -> int {
    let left = (meeting_weekday().index() - weekday_index(now)) % 7;
    if left == 0 && second_of_day(now) >= MEETING_SECOND {
        7
    } else {
        left
    }
}

/// The start of the next meeting after the moment `now`.
pub open spec fn next_meeting_at(now: int) -> int {
    (day_of(now) + days_ahead(now)) * 86400 + MEETING_SECOND
}

/// The moments for which the next meeting can be computed: those that lie
/// neither in the first day nor in the last eight days of what an `i64` holds.
pub open spec fn schedulable(t: int) -> bool {
    i64::MIN + 86400 <= t <= i64::MAX - 8 * 86400
}

/// Whether the moment `dt` lies in the time in which the reminder for
/// `meeting` may go out: the hour before `meeting`, its first second
/// included, the start of the meeting not.
pub open spec fn in_zone(dt: int, meeting: int) -> bool {
    meeting - REMIND_LEAD <= dt < meeting
}

/// A moment of civil time.
#[derive(Clone, Copy, Debug, PartialEq, Eq, Structural)]
pub struct Timestamp {
    secs: i64,
}

impl View for Timestamp {
    type V = int;

    closed spec fn view(&self) -> int {
        self.secs as int
    }
}

impl Timestamp {
    /// The moment `secs` seconds after the start of 1 January 1970.
    pub fn new(secs: i64) -> (t: Timestamp)
        ensures
            t@ == secs,
    {
        Timestamp { secs }
    }

    /// The seconds from the start of 1 January 1970 to this moment.
    pub fn seconds(&self) -> (secs: i64)
        ensures
            secs == self@,
    {
        self.secs
    }

    /// Decides whether the next meeting after this moment can be computed.
    pub fn is_schedulable(&self) -> (yes: bool)
        ensures
            yes == schedulable(self@),
    {
        i64::MIN + SECONDS_PER_DAY <= self.secs && self.secs <= i64::MAX - 8 * SECONDS_PER_DAY
    }

    /// The seconds from the start of its day to this moment.
    pub fn second_of_day(&self) -> (second: i64)
        ensures
            second == second_of_day(self@),
            0 <= second < SECONDS_PER_DAY,
    {
        match self.secs.checked_rem_euclid(SECONDS_PER_DAY) {
            Some(second) => second,
            None => 0,
        }
    }

    /// The day that this moment lies in, counted from 1 January 1970.
    pub fn day(&self) -> (day: i64)
        ensures
            day == day_of(self@),
            day * 86400 <= self@ < (day + 1) * 86400,
    {
        match self.secs.checked_div_euclid(SECONDS_PER_DAY) {
            Some(day) => day,
            None => 0,
        }
    }

    /// The day of the week of this moment.
    pub fn weekday(&self) -> (weekday: Weekday)
        ensures
            weekday.index() == weekday_index(self@),
    {
        let day = self.day();
        let index = match (day + 3).checked_rem_euclid(DAYS_PER_WEEK) {
            Some(index) => index,
            None => 0,
        };
        if index == 0 {
            Weekday::Mon
        } else if index == 1 {
            Weekday::Tue
        } else if index == 2 {
            Weekday::Wed
        } else if index == 3 {
            Weekday::Thu
        } else if index == 4 {
            Weekday::Fri
        } else if index == 5 {
            Weekday::Sat
        } else {
            Weekday::Sun
        }
    }
}

/// The moment that `next_meeting_at` gives is the next meeting, and no other
/// moment is.
pub proof fn lemma_next_meeting(now: int)
    ensures
        is_next_meeting(now, next_meeting_at(now)),
        forall|m: int| is_next_meeting(now, m) ==> m == next_meeting_at(now),
        now < next_meeting_at(now) <= now + 7 * 86400,
{
    let meeting = next_meeting_at(now);
    assert forall|t: int| now < t < meeting implies !is_meeting_time(t) by {
        lemma_no_meeting_between(now, t);
    }
    assert forall|other: int| is_next_meeting(now, other) implies other == meeting by {
        if other < meeting {
            lemma_no_meeting_between(now, other);
        } else if meeting < other {
            // `other` has no meeting before it, and `meeting` is one.
            assert(!is_meeting_time(meeting));
        }
    }
}

/// No meeting starts between a moment and the next meeting after it: the two
/// would start on days less than a week apart, and both on the meeting's day
/// of the week.
proof fn lemma_no_meeting_between(now: int, t: int)
    requires
        now < t < next_meeting_at(now),
    ensures
        !is_meeting_time(t),
{
}

/// Computes the start of the next meeting after the moment `now`.
pub fn next_meeting(now: Timestamp) -> (meeting: Timestamp)
    requires
        schedulable(now@),
    ensures
        meeting@ == next_meeting_at(now@),
        is_next_meeting(now@, meeting@),
        weekday_index(meeting@) == meeting_weekday().index(),
{
    proof {
        lemma_next_meeting(now@);
    }
    let second = now.second_of_day();
    let today = now.weekday().num_days_from_monday();
    let ahead: i64 = if today == 3 {
        if second < MEETING_SECOND {
            0
        } else {
            7
        }
    } else if today < 3 {
        (3 - today) as i64
    } else {
        (10 - today) as i64
    };
    let midnight = now.seconds() - second;
    Timestamp::new(midnight + ahead * SECONDS_PER_DAY + MEETING_SECOND)
}

/// Decides whether the moment `dt` lies in the hour before `meeting`.
pub fn in_remind_zone(dt: Timestamp, meeting: Timestamp) -> (yes: bool)
    ensures
        yes == in_zone(dt@, meeting@),
{
    if dt.seconds() >= meeting.seconds() {
        false
    } else if meeting.seconds() < i64::MIN + REMIND_LEAD {
        true
    } else {
        meeting.seconds() - REMIND_LEAD <= dt.seconds()
    }
}

} // verus!
