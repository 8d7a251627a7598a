//! The agenda: an ordered list of points, and the text in which users see it.

use crate::store::{StoreError, Stored};
use vstd::prelude::*;
use vstd::string::*;

verus! {

/// What an agenda point is: its title and the name of who added it.
pub struct AgendaPointView {
    pub title: Seq<char>,
    pub adder: Seq<char>,
}

/// One entry of the agenda. It does not change once it is made.
#[derive(Debug)]
pub struct AgendaPoint {
    title: String,
    adder: String,
}

impl View for AgendaPoint {
    type V = AgendaPointView;

    closed spec fn view(&self) -> AgendaPointView {
        AgendaPointView { title: self.title@, adder: self.adder@ }
    }
}

/// The line that shows a point in the rendered agenda: `title (adder)`.
pub open spec fn point_line(p: AgendaPointView) -> Seq<char> {
    p.title + seq![' ', '('] + p.adder + seq![')']
}

/// The announcement that a point was added: `'title' added by adder`.
pub open spec fn add_message(p: AgendaPointView) -> Seq<char> {
    seq!['\''] + p.title + "' added by "@ + p.adder
}

impl Clone for AgendaPoint {
    /// A copy of the point, with the same title and adder.
    fn clone(&self) -> (point: AgendaPoint)
        ensures
            point@ == self@,
    {
        AgendaPoint { title: self.title.clone(), adder: self.adder.clone() }
    }
}

impl AgendaPoint {
    /// Makes the point `title`, added by `adder`.
    pub fn new(title: String, adder: String) -> (point: AgendaPoint)
        ensures
            point@ == (AgendaPointView { title: title@, adder: adder@ }),
    {
        AgendaPoint { title, adder }
    }

    /// The title of the point.
    pub fn title(&self) -> (title: &String)
        ensures
            title@ == self@.title,
    {
        &self.title
    }

    /// The name of who added the point.
    pub fn adder(&self) -> (adder: &String)
        ensures
            adder@ == self@.adder,
    {
        &self.adder
    }

    /// The line that shows the point in the rendered agenda.
    pub fn render(&self) -> (line: String)
        ensures
            line@ == point_line(self@),
    {
        let mut line = self.title.clone();
        line.append(" (");
        line.append(self.adder.as_str());
        line.append(")");
        proof {
            reveal_strlit(" (");
            reveal_strlit(")");
        }
        line
    }

    /// The announcement that the point was added.
    pub fn to_add_message(&self) -> (message: String)
        ensures
            message@ == add_message(self@),
    {
        let mut message = String::from_str("'");
        message.append(self.title.as_str());
        message.append("' added by ");
        message.append(self.adder.as_str());
        proof {
            reveal_strlit("'");
        }
        message
    }
}

/// The text of an agenda that has at least one point: the points' lines, in
/// order, with a line break between two of them.
pub open spec fn joined_lines(points: Seq<AgendaPointView>) -> Seq<char>
    decreases points.len(),
{
    if points.len() == 0 {
        Seq::empty()
    } else if points.len() == 1 {
        point_line(points[0])
    } else {
        joined_lines(points.drop_last()) + seq!['\n'] + point_line(points.last())
    }
}

/// The text in which users see the agenda. An agenda without points is shown
/// by a sentence of its own, never by an empty text.
pub open spec fn rendered(points: Seq<AgendaPointView>) -> Seq<char> {
    if points.len() == 0 {
        "Empty agenda"@
    } else {
        joined_lines(points)
    }
}

/// The agenda: its points in the order in which they were added.
#[derive(Debug)]
pub struct Agenda {
    points: Vec<AgendaPoint>,
}

impl View for Agenda {
    type V = Seq<AgendaPointView>;

    closed spec fn view(&self) -> Seq<AgendaPointView> {
        Seq::new(self.points@.len(), |i: int| self.points@[i]@)
    }
}

impl Clone for Agenda {
    /// A copy of the agenda, with the same points in the same order.
    fn clone(&self) -> (agenda: Agenda)
        ensures
            agenda@ == self@,
    {
        let n = self.points.len();
        let mut points: Vec<AgendaPoint> = Vec::new();
        let mut i: usize = 0;
        while i < n
            invariant
                n == self.points@.len(),
                i <= n,
                points@.len() == i,
                forall|j: int| 0 <= j < i ==> points@[j]@ == self.points@[j]@,
            decreases n - i,
        {
            points.push(self.points[i].clone());
            i = i + 1;
        }
        Agenda { points }
    }
}

impl Agenda {
    /// The agenda without points.
    pub fn new() -> (agenda: Agenda)
        ensures
            agenda@ == Seq::<AgendaPointView>::empty(),
    {
        Agenda { points: Vec::new() }
    }

    /// The number of points.
    pub fn len(&self) -> (n: usize)
        ensures
            n == self@.len(),
    {
        self.points.len()
    }

    /// Whether the agenda has no point.
    pub fn is_empty(&self) -> (empty: bool)
        ensures
            empty == (self@.len() == 0),
    {
        self.points.len() == 0
    }

    /// The point at place `i`, counted from 0.
    pub fn point(&self, i: usize) -> (point: &AgendaPoint)
        requires
            i < self@.len(),
        ensures
            point@ == self@[i as int],
    {
        &self.points[i]
    }

    /// Adds `point` behind the points that are there.
    pub fn push(&mut self, point: AgendaPoint)
        ensures
            final(self)@ == old(self)@.push(point@),
    {
        self.points.push(point);
    }

    /// Removes every point.
    pub fn clear(&mut self)
        ensures
            final(self)@ == Seq::<AgendaPointView>::empty(),
    {
        self.points.clear();
    }

    /// The text in which users see the agenda.
    pub fn render(&self) -> (text: String)
        ensures
            text@ == rendered(self@),
    {
        let n = self.points.len();
        if n == 0 {
            return String::from_str("Empty agenda");
        }
        let mut text = self.points[0].render();
        let mut i: usize = 1;
        while i < n
            invariant
                n == self.points@.len(),
                1 <= i <= n,
                text@ == joined_lines(self@.take(i as int)),
            decreases n - i,
        {
            let line = self.points[i].render();
            text.append("\n");
            text.append(line.as_str());
            proof {
                reveal_strlit("\n");
                let next = self@.take(i as int + 1);
                assert(next.drop_last() =~= self@.take(i as int));
            }
            i = i + 1;
        }
        assert(self@.take(n as int) =~= self@);
        text
    }
}

/// The agenda that the store holds, given what came of reading its document.
/// A store without a document holds the agenda without points. A document
/// that cannot be used is an error: nothing is put in its place.
pub fn read_agenda(stored: Stored<Agenda>) -> (agenda: Result<Agenda, StoreError>)
    ensures
        match stored {
            Stored::Missing => agenda matches Ok(a) && a@ == Seq::<AgendaPointView>::empty(),
            Stored::Unreadable => agenda == Err::<Agenda, StoreError>(StoreError::Unreadable),
            Stored::Malformed => agenda == Err::<Agenda, StoreError>(StoreError::Malformed),
            Stored::Found(found) => agenda == Ok::<Agenda, StoreError>(found),
        },
{
    match stored {
        Stored::Missing => Ok(Agenda::new()),
        Stored::Unreadable => Err(StoreError::Unreadable),
        Stored::Malformed => Err(StoreError::Malformed),
        Stored::Found(found) => Ok(found),
    }
}

} // verus!
