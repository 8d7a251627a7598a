//! The reminder scheduler: what it remembers of each reminder, and what one
//! tick of it does.
//!
//! A reminder goes out once in the hour before each meeting. The scheduler
//! keeps no flag for that: it remembers when each reminder last went out, and
//! lets one go out only while that moment lies outside the present hour.

use crate::agenda::{rendered, Agenda, AgendaPointView};
use crate::clock::{
    in_remind_zone, in_zone, is_meeting_time, lemma_next_meeting, next_meeting, next_meeting_at,
    schedulable, Timestamp,
};
use crate::store::{StoreError, Stored};
use vstd::prelude::*;
use vstd::string::*;

verus! {

/// The kinds of reminders.
#[derive(Clone, Copy, Debug, PartialEq, Eq, Structural)]
pub enum ReminderType {
    /// No reminder: nothing is to be shown for it.
    Void,
    /// The reminder that goes out in the hour before the meeting.
    OneHour,
}

/// What a platform shows when it learns that a reminder of kind `reminder` is
/// due, with the agenda as it then is: nothing for `Void`, and for `OneHour`
/// a line that says so, followed by the agenda.
pub open spec fn reminder_text(reminder: ReminderType, agenda: Seq<AgendaPointView>) -> Option<
    Seq<char>,
> {
    match reminder {
        ReminderType::Void => None,
        ReminderType::OneHour => Some("Meeting in one hour!\n"@ + rendered(agenda)),
    }
}

impl ReminderType {
    /// The message that a platform shows for this reminder, if it shows any.
    pub fn message(&self, agenda: &Agenda) -> (text: Option<String>)
        ensures
            text is Some == reminder_text(*self, agenda@) is Some,
            text matches Some(t) ==> Some(t@) == reminder_text(*self, agenda@),
    {
        match self {
            ReminderType::Void => None,
            ReminderType::OneHour => {
                let mut text = String::from_str("Meeting in one hour!\n");
                text.append(agenda.render().as_str());
                Some(text)
            },
        }
    }
}

/// What the scheduler remembers of one reminder, over the view of its moment.
pub struct ReminderView {
    pub reminder_type: ReminderType,
    pub last_fire: int,
}

/// What the scheduler remembers of one reminder: its kind, and when it last
/// went out.
#[derive(Clone, Copy, Debug, PartialEq, Eq, Structural)]
pub struct Reminder {
    reminder_type: ReminderType,
    last_fire: Timestamp,
}

impl View for Reminder {
    type V = ReminderView;

    closed spec fn view(&self) -> ReminderView {
        ReminderView { reminder_type: self.reminder_type, last_fire: self.last_fire@ }
    }
}

impl Reminder {
    /// The reminder of kind `reminder_type` that last went out at `last_fire`.
    pub fn new(reminder_type: ReminderType, last_fire: Timestamp) -> (reminder: Reminder)
        ensures
            reminder@ == (ReminderView { reminder_type, last_fire: last_fire@ }),
    {
        Reminder { reminder_type, last_fire }
    }

    /// The kind of the reminder.
    pub fn reminder_type(&self) -> (reminder_type: ReminderType)
        ensures
            reminder_type == self@.reminder_type,
    {
        self.reminder_type
    }

    /// When the reminder last went out.
    pub fn last_fire(&self) -> (last_fire: Timestamp)
        ensures
            last_fire@ == self@.last_fire,
    {
        self.last_fire
    }

    /// One tick for this reminder, at the moment `now`, with the next meeting
    /// at `meeting`: says whether the reminder goes out, and if so remembers
    /// `now` as the moment at which it did.
    fn tick(&mut self, now: Timestamp, meeting: Timestamp) -> (fired: bool)
        requires
            meeting@ == next_meeting_at(now@),
        ensures
            fired == fires(old(self)@, now@),
            final(self)@ == after_tick(old(self)@, now@),
    {
        match self.reminder_type {
            ReminderType::OneHour => {
                if in_remind_zone(now, meeting) && !in_remind_zone(self.last_fire, meeting) {
                    self.last_fire = now;
                    true
                } else {
                    false
                }
            },
            ReminderType::Void => false,
        }
    }
}

/// Whether the reminder `r` goes out at a tick at the moment `now`: it is of
/// a kind that goes out at all, `now` lies in the hour before the next
/// meeting, and the moment at which it last went out does not lie in that
/// same hour.
pub open spec fn fires(r: ReminderView, now: int) -> bool {
    &&& r.reminder_type == ReminderType::OneHour
    &&& in_zone(now, next_meeting_at(now))
    &&& !in_zone(r.last_fire, next_meeting_at(now))
}

/// What is remembered of the reminder `r` after a tick at the moment `now`.
pub open spec fn after_tick(r: ReminderView, now: int) -> ReminderView {
    if fires(r, now) {
        ReminderView { reminder_type: r.reminder_type, last_fire: now }
    } else {
        r
    }
}

/// What one thing to do after a tick is.
#[derive(Clone, Copy, Debug, PartialEq, Eq, Structural)]
pub enum Duty {
    /// Let every platform know that a reminder of this kind is due. Only the
    /// latest such notice has to reach a platform.
    Broadcast(ReminderType),
    /// Write what is remembered of the reminders to the store.
    Persist,
}

/// The notices for the reminders among `rs` that go out at a tick at the
/// moment `now`, in the order of `rs`.
pub open spec fn notices(rs: Seq<ReminderView>, now: int) -> Seq<Duty>
    decreases rs.len(),
{
    if rs.len() == 0 {
        Seq::empty()
    } else if fires(rs.last(), now) {
        notices(rs.drop_last(), now).push(Duty::Broadcast(rs.last().reminder_type))
    } else {
        notices(rs.drop_last(), now)
    }
}

/// What has to be done, in order, after a tick at the moment `now` over the
/// reminders `rs`: the notices, and then the store is written, whether or not
/// there was any notice.
pub open spec fn duties(rs: Seq<ReminderView>, now: int) -> Seq<Duty> {
    notices(rs, now).push(Duty::Persist)
}

/// What the scheduler remembers: one entry for each reminder that it tracks.
#[derive(Debug)]
pub struct Reminders {
    reminders: Vec<Reminder>,
}

impl View for Reminders {
    type V = Seq<ReminderView>;

    closed spec fn view(&self) -> Seq<ReminderView> {
        Seq::new(self.reminders@.len(), |i: int| self.reminders@[i]@)
    }
}

/// What a store that has never been written holds at the moment `now`: one
/// entry for the reminder of the hour before the meeting, as if it had gone
/// out at `now`, so that it does not go out a second time in an hour that has
/// begun.
pub open spec fn seeded(now: int) -> Seq<ReminderView> {
    seq![ReminderView { reminder_type: ReminderType::OneHour, last_fire: now }]
}

impl Reminders {
    /// The scheduler's memory with no entry.
    pub fn new() -> (reminders: Reminders)
        ensures
            reminders@ == Seq::<ReminderView>::empty(),
    {
        Reminders { reminders: Vec::new() }
    }

    /// What a store that has never been written holds at the moment `now`.
    pub fn seed(now: Timestamp) -> (reminders: Reminders)
        ensures
            reminders@ == seeded(now@),
    {
        let mut reminders = Reminders { reminders: Vec::new() };
        reminders.reminders.push(Reminder::new(ReminderType::OneHour, now));
        reminders
    }

    /// The number of entries.
    pub fn len(&self) -> (n: usize)
        ensures
            n == self@.len(),
    {
        self.reminders.len()
    }

    /// The entry at place `i`, counted from 0.
    pub fn get(&self, i: usize) -> (reminder: Reminder)
        requires
            i < self@.len(),
        ensures
            reminder@ == self@[i as int],
    {
        self.reminders[i]
    }

    /// Adds `reminder` behind the entries that are there.
    pub fn push(&mut self, reminder: Reminder)
        ensures
            final(self)@ == old(self)@.push(reminder@),
    {
        self.reminders.push(reminder);
    }

    /// One tick of the scheduler, at the moment `now`. Each reminder that is
    /// due goes out and remembers `now`; the others stay as they are. Returns
    /// what has to be done about it, in order.
    pub fn tick(&mut self, now: Timestamp) -> (todo: Vec<Duty>)
        requires
            schedulable(now@),
        ensures
            final(self)@.len() == old(self)@.len(),
            forall|i: int|
                0 <= i < old(self)@.len() ==> #[trigger] final(self)@[i] == after_tick(
                    old(self)@[i],
                    now@,
                ),
            todo@ == duties(old(self)@, now@),
    {
        let meeting = next_meeting(now);
        let n = self.reminders.len();
        let mut todo: Vec<Duty> = Vec::new();
        let mut i: usize = 0;
        while i < n
            invariant
                meeting@ == next_meeting_at(now@),
                n == self.reminders@.len(),
                n == old(self)@.len(),
                i <= n,
                forall|j: int|
                    0 <= j < i ==> #[trigger] self@[j] == after_tick(old(self)@[j], now@),
                forall|j: int| i <= j < n ==> #[trigger] self@[j] == old(self)@[j],
                todo@ == notices(old(self)@.take(i as int), now@),
            decreases n - i,
        {
            let ghost before = self@;
            let mut reminder = self.reminders[i];
            let fired = reminder.tick(now, meeting);
            self.reminders.set(i, reminder);
            if fired {
                todo.push(Duty::Broadcast(reminder.reminder_type()));
            }
            proof {
                assert(before[i as int] == old(self)@[i as int]);
                assert forall|j: int| 0 <= j < i + 1 implies #[trigger] self@[j] == after_tick(
                    old(self)@[j],
                    now@,
                ) by {
                    if j < i {
                        assert(self@[j] == before[j]);
                    }
                }
                assert forall|j: int| i < j < n implies #[trigger] self@[j] == old(self)@[j] by {
                    assert(self@[j] == before[j]);
                }
                let seen = old(self)@.take(i as int + 1);
                assert(seen.drop_last() =~= old(self)@.take(i as int));
            }
            i = i + 1;
        }
        assert(old(self)@.take(n as int) =~= old(self)@);
        todo.push(Duty::Persist);
        todo
    }
}

/// What the scheduler remembers, given what came of reading its store at the
/// moment `now`. A store without a document is seeded. A document that cannot
/// be used is an error: nothing is put in its place.
pub fn read_reminders(stored: Stored<Reminders>, now: Timestamp) -> (reminders: Result<
    Reminders,
    StoreError,
>)
    ensures
        match stored {
            Stored::Missing => reminders matches Ok(r) && r@ == seeded(now@),
            Stored::Unreadable => reminders == Err::<Reminders, StoreError>(StoreError::Unreadable),
            Stored::Malformed => reminders == Err::<Reminders, StoreError>(StoreError::Malformed),
            Stored::Found(found) => reminders == Ok::<Reminders, StoreError>(found),
        },
{
    match stored {
        Stored::Missing => Ok(Reminders::seed(now)),
        Stored::Unreadable => Err(StoreError::Unreadable),
        Stored::Malformed => Err(StoreError::Malformed),
        Stored::Found(found) => Ok(found),
    }
}

/// A reminder that has gone out does not go out again before the meeting
/// that it was for: at no later moment before that meeting is it due.
pub proof fn lemma_fires_once(r: ReminderView, now: int, later: int)
    requires
        fires(r, now),
        now <= later < next_meeting_at(now),
    ensures
        !fires(after_tick(r, now), later),
{
    lemma_same_meeting(now, later);
}

/// A reminder that went out before one meeting goes out again before the
/// next: it is due at every moment of the hour before a later meeting.
pub proof fn lemma_fires_again(r: ReminderView, now: int, later: int)
    requires
        fires(r, now),
        next_meeting_at(now) <= later,
        in_zone(later, next_meeting_at(later)),
    ensures
        fires(after_tick(r, now), later),
{
    lemma_next_meeting(now);
    lemma_next_meeting(later);
    lemma_meetings_apart(next_meeting_at(now), next_meeting_at(later));
}

/// The moment at which a reminder last went out never moves back, as long as
/// the clock does not: after a tick at a moment that is not before it, it is
/// what it was or later.
pub proof fn lemma_last_fire_monotonic(r: ReminderView, now: int)
    requires
        r.last_fire <= now,
    ensures
        r.last_fire <= after_tick(r, now).last_fire,
        after_tick(r, now).reminder_type == r.reminder_type,
{
}

/// At one tick, a reminder that is not due is left as it was, and one that is
/// due remembers the moment of the tick.
pub proof fn lemma_tick_outcomes(r: ReminderView, now: int)
    ensures
        !fires(r, now) ==> after_tick(r, now) == r,
        fires(r, now) ==> after_tick(r, now).last_fire == now && in_zone(
            now,
            next_meeting_at(now),
        ),
        r.reminder_type == ReminderType::Void ==> !fires(r, now),
{
}

/// All moments from `now` up to the next meeting have the same next meeting.
pub proof fn lemma_same_meeting(now: int, later: int)
    requires
        now <= later < next_meeting_at(now),
    ensures
        next_meeting_at(later) == next_meeting_at(now),
{
    lemma_next_meeting(now);
    lemma_next_meeting(later);
}

/// Two meetings do not start less than a week apart.
pub proof fn lemma_meetings_apart(first: int, second: int)
    requires
        is_meeting_time(first),
        is_meeting_time(second),
        first < second,
    ensures
        first + 7 * 86400 <= second,
{
}

} // verus!
