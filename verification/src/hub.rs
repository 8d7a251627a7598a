//! The routing hub: it takes the requests of all platforms one by one, applies
//! each to the agenda, and says what has to be done about it, in order.

use crate::address::{addressed, is_addressed, Service, To};
use crate::agenda::{add_message, rendered, Agenda, AgendaPoint, AgendaPointView};
use crate::command::{parse_message, parsed, Command, CommandView};
use vstd::prelude::*;
use vstd::string::*;

verus! {

/// What the hub answers to a platform that asked to hear how its request went.
#[derive(Clone, Copy, Debug, PartialEq, Eq, Structural)]
pub enum Feedback {
    /// The request was carried out.
    Okay,
}

/// One chat message, as a platform hands it to the hub. `F` is what the
/// platform listens on for the hub's feedback; it can take one value.
#[derive(Debug)]
pub struct Request<F> {
    /// The platform that the message was written on.
    pub origin: Service,
    /// The text of the message.
    pub message: String,
    /// The display name of who wrote it.
    pub sender: String,
    /// Where to send the feedback, if the platform waits for one.
    pub feedback: Option<F>,
}

/// What an event is: its address and the text of its message.
pub struct EventView {
    pub to: To,
    pub message: Seq<char>,
}

/// A message from the hub to the platforms. Every platform gets every event
/// and renders those that are addressed to it.
#[derive(Debug)]
pub struct Event {
    pub to: To,
    pub message: String,
}

impl View for Event {
    type V = EventView;

    open spec fn view(&self) -> EventView {
        EventView { to: self.to, message: self.message@ }
    }
}

impl Event {
    /// Decides whether the platform `me` renders this event.
    pub fn is_for(&self, me: Service) -> (yes: bool)
        ensures
            yes == addressed(self@.to, me),
    {
        is_addressed(self.to, me)
    }
}

impl Clone for Event {
    /// A copy of the event, for one more platform.
    fn clone(&self) -> (event: Event)
        ensures
            event@ == self@,
    {
        Event { to: self.to, message: self.message.clone() }
    }
}

/// What an action is, over the view of its event.
pub enum ActionView<F> {
    Persist,
    Emit(EventView),
    Acknowledge(F, Feedback),
}

/// One thing that has to be done after the hub has taken a request.
#[derive(Debug)]
pub enum Action<F> {
    /// Write the agenda, as the hub now holds it, to the store.
    Persist,
    /// Hand the event to every platform.
    Emit(Event),
    /// Send the feedback to where the request asked for it. It is no fault
    /// if nobody listens there any more.
    Acknowledge(F, Feedback),
}

impl<F> View for Action<F> {
    type V = ActionView<F>;

    open spec fn view(&self) -> ActionView<F> {
        match self {
            Action::Persist => ActionView::Persist,
            Action::Emit(event) => ActionView::Emit(event@),
            Action::Acknowledge(to, feedback) => ActionView::Acknowledge(*to, *feedback),
        }
    }
}

/// The views of a list of actions, in order.
pub open spec fn action_views<F>(actions: Seq<Action<F>>) -> Seq<ActionView<F>> {
    Seq::new(actions.len(), |i: int| actions[i]@)
}

/// The list of commands, as `!help` shows it.
pub const HELP_MESSAGE: &'static str =
    "Available commands:\n```!add    -- Add something\n!agenda -- Print the agenda\n!clear  -- Remove all items\n!help```";

/// The announcement that `sender` cleared the agenda.
pub open spec fn clear_message(sender: Seq<char>) -> Seq<char> {
    "Agenda cleared by "@ + sender
}

/// The agenda after `command` was applied to `agenda`: `Add` puts its point
/// behind the others, `Clear` leaves no point, and every other command leaves
/// the agenda as it was.
pub open spec fn agenda_after(agenda: Seq<AgendaPointView>, command: CommandView) -> Seq<
    AgendaPointView,
> {
    match command {
        CommandView::Add(point) => agenda.push(point),
        CommandView::Clear { .. } => Seq::empty(),
        _ => agenda,
    }
}

/// What has to be done, in order, once `command`, which came from `origin`
/// with `feedback`, was applied to `agenda`. A command that changes the
/// agenda has the store written before anything is said about it. The
/// feedback comes last, for `Add` alone, and only where it was asked for.
pub open spec fn actions_for<F>(
    agenda: Seq<AgendaPointView>,
    origin: Service,
    command: CommandView,
    feedback: Option<F>,
) -> Seq<ActionView<F>> {
    match command {
        CommandView::Add(point) => {
            let told = seq![
                ActionView::Persist,
                ActionView::Emit(EventView { to: To::Not(origin), message: add_message(point) }),
            ];
            match feedback {
                Some(to) => told.push(ActionView::Acknowledge(to, Feedback::Okay)),
                None => told,
            }
        },
        CommandView::ShowAgenda => seq![
            ActionView::Emit(EventView { to: To::Only(origin), message: rendered(agenda) }),
        ],
        CommandView::Clear { sender } => seq![
            ActionView::Persist,
            ActionView::Emit(EventView { to: To::All, message: clear_message(sender) }),
        ],
        CommandView::Help => seq![
            ActionView::Emit(EventView { to: To::Only(origin), message: HELP_MESSAGE@ }),
        ],
        CommandView::Unrecognized => Seq::empty(),
        CommandView::NotACommand => Seq::empty(),
    }
}

/// The hub. It holds the agenda as the store has it, and is the only one
/// that changes it.
#[derive(Debug)]
pub struct Kodapa {
    agenda: Agenda,
}

impl View for Kodapa {
    type V = Seq<AgendaPointView>;

    closed spec fn view(&self) -> Seq<AgendaPointView> {
        self.agenda@
    }
}

impl Kodapa {
    /// The hub over the agenda that was read from the store.
    pub fn new(agenda: Agenda) -> (hub: Kodapa)
        ensures
            hub@ == agenda@,
    {
        Kodapa { agenda }
    }

    /// The agenda as the hub holds it.
    pub fn agenda(&self) -> (agenda: &Agenda)
        ensures
            agenda@ == self@,
    {
        &self.agenda
    }

    /// Gives the agenda back, to be written to the store.
    pub fn into_agenda(self) -> (agenda: Agenda)
        ensures
            agenda@ == self@,
    {
        self.agenda
    }

    /// The event that carries `message` to the platforms that `to` names.
    fn send_message<F>(to: To, message: String) -> (action: Action<F>)
        ensures
            action@ == ActionView::<F>::Emit(EventView { to, message: message@ }),
    {
        Action::Emit(Event { to, message })
    }

    /// Adds `point`, which came from `origin`: the store is written, every
    /// other platform is told, and the feedback is sent where one was asked
    /// for.
    fn add<F>(&mut self, origin: Service, point: AgendaPoint, feedback: Option<F>) -> (actions:
        Vec<Action<F>>)
        ensures
            final(self)@ == agenda_after(old(self)@, CommandView::Add(point@)),
            action_views(actions@) == actions_for(
                old(self)@,
                origin,
                CommandView::Add(point@),
                feedback,
            ),
    {
        let message = point.to_add_message();
        self.agenda.push(point);
        let mut actions: Vec<Action<F>> = Vec::new();
        actions.push(Action::Persist);
        actions.push(Self::send_message(To::Not(origin), message));
        match feedback {
            Some(to) => {
                actions.push(Action::Acknowledge(to, Feedback::Okay));
            },
            None => {},
        }
        actions
    }

    /// Shows the agenda to the platform `origin`.
    fn show_agenda<F>(&self, origin: Service) -> (actions: Vec<Action<F>>)
        ensures
            action_views(actions@) == actions_for::<F>(
                self@,
                origin,
                CommandView::ShowAgenda,
                None,
            ),
    {
        let mut actions: Vec<Action<F>> = Vec::new();
        actions.push(Self::send_message(To::Only(origin), self.agenda.render()));
        actions
    }

    /// Shows the list of commands to the platform `origin`.
    fn help<F>(&self, origin: Service) -> (actions: Vec<Action<F>>)
        ensures
            action_views(actions@) == actions_for::<F>(self@, origin, CommandView::Help, None),
    {
        let mut actions: Vec<Action<F>> = Vec::new();
        let message = String::from_str(HELP_MESSAGE);
        actions.push(Self::send_message(To::Only(origin), message));
        actions
    }

    /// Removes every point, as `sender` asked: the store is written and every
    /// platform is told.
    fn clear<F>(&mut self, origin: Service, sender: String) -> (actions: Vec<Action<F>>)
        ensures
            final(self)@ == Seq::<AgendaPointView>::empty(),
            action_views(actions@) == actions_for::<F>(
                old(self)@,
                origin,
                CommandView::Clear { sender: sender@ },
                None,
            ),
    {
        self.agenda.clear();
        let mut message = String::from_str("Agenda cleared by ");
        message.append(sender.as_str());
        let mut actions: Vec<Action<F>> = Vec::new();
        actions.push(Action::Persist);
        actions.push(Self::send_message(To::All, message));
        actions
    }

    /// Takes one request: reads its message as a command, applies it to the
    /// agenda, and returns what has to be done about it, in order.
    pub fn handle<F>(&mut self, request: Request<F>) -> (actions: Vec<Action<F>>)
        ensures
            final(self)@ == agenda_after(old(self)@, parsed(request.message@, request.sender@)),
            action_views(actions@) == actions_for(
                old(self)@,
                request.origin,
                parsed(request.message@, request.sender@),
                request.feedback,
            ),
            actions@.len() == actions_for(
                old(self)@,
                request.origin,
                parsed(request.message@, request.sender@),
                request.feedback,
            ).len(),
    {
        let Request { origin, message, sender, feedback } = request;
        match parse_message(message.as_str(), sender.as_str()) {
            Command::Add(point) => self.add(origin, point, feedback),
            Command::ShowAgenda => self.show_agenda(origin),
            Command::Clear { sender } => self.clear(origin, sender),
            Command::Help => self.help(origin),
            Command::Unrecognized => Vec::new(),
            Command::NotACommand => Vec::new(),
        }
    }
}

/// Whether `command` changes the agenda.
pub open spec fn changes_agenda(command: CommandView) -> bool {
    command is Add || command is Clear
}

/// The points of the agenda stand in the order in which they were added: a
/// new point goes behind the others, which keep their places. `Clear` leaves
/// no point, and no other command changes anything.
pub proof fn lemma_insertion_order(agenda: Seq<AgendaPointView>, command: CommandView)
    ensures
        command matches CommandView::Add(point) ==> {
            let after = agenda_after(agenda, command);
            &&& after.len() == agenda.len() + 1
            &&& after.last() == point
            &&& forall|i: int| 0 <= i < agenda.len() ==> after[i] == agenda[i]
        },
        command is Clear ==> agenda_after(agenda, command).len() == 0,
        !changes_agenda(command) ==> agenda_after(agenda, command) == agenda,
{
}

/// The store is written exactly for the commands that change the agenda, and
/// then before anything else is done: nothing is said of a change that has
/// not been written.
pub proof fn lemma_persist_first<F>(
    agenda: Seq<AgendaPointView>,
    origin: Service,
    command: CommandView,
    feedback: Option<F>,
)
    ensures
        changes_agenda(command) ==> actions_for(agenda, origin, command, feedback)[0]
            == ActionView::<F>::Persist,
        forall|i: int|
            0 <= i < actions_for(agenda, origin, command, feedback).len() && #[trigger] actions_for(
                agenda,
                origin,
                command,
                feedback,
            )[i] == ActionView::<F>::Persist ==> i == 0 && changes_agenda(command),
{
}

/// A request gets at most one feedback: the one for an `Add` that asked for
/// it, sent to where it asked, as the last thing that is done.
pub proof fn lemma_feedback_at_most_once<F>(
    agenda: Seq<AgendaPointView>,
    origin: Service,
    command: CommandView,
    feedback: Option<F>,
)
    ensures
        forall|i: int|
            0 <= i < actions_for(agenda, origin, command, feedback).len() && #[trigger] actions_for(
                agenda,
                origin,
                command,
                feedback,
            )[i] is Acknowledge ==> {
                &&& command is Add
                &&& i == actions_for(agenda, origin, command, feedback).len() - 1
                &&& feedback matches Some(to)
                &&& actions_for(agenda, origin, command, feedback)[i] == ActionView::Acknowledge(
                    to,
                    Feedback::Okay,
                )
            },
        command is Add && feedback is Some ==> actions_for(
            agenda,
            origin,
            command,
            feedback,
        ).last() is Acknowledge,
{
}

/// What is not a known command is passed over in silence: nothing is done,
/// and the agenda stays as it was.
pub proof fn lemma_silence<F>(
    agenda: Seq<AgendaPointView>,
    origin: Service,
    command: CommandView,
    feedback: Option<F>,
)
    requires
        command is Unrecognized || command is NotACommand,
    ensures
        actions_for(agenda, origin, command, feedback).len() == 0,
        agenda_after(agenda, command) == agenda,
{
}

} // verus!
