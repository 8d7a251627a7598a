//! Who an event is meant for.

use vstd::prelude::*;

verus! {

/// A chat platform that is connected to the hub.
#[derive(Clone, Copy, Debug, PartialEq, Eq, Structural)]
pub enum Service {
    Discord,
    Slack,
}

/// The address of an event.
#[derive(Clone, Copy, Debug, PartialEq, Eq, Structural)]
pub enum To {
    /// Every platform.
    All,
    /// Every platform but the named one.
    Not(Service),
    /// The named platform alone.
    Only(Service),
}

/// Whether an event addressed `to` is meant for the platform `candidate`.
pub open spec fn addressed(to: To, candidate: Service) -> bool {
    match to {
        To::All => true,
        To::Only(s) => candidate == s,
        To::Not(s) => candidate != s,
    }
}

/// Decides whether the platform `candidate` renders an event addressed `to`.
pub fn is_addressed(to: To, candidate: Service) -> (yes: bool)
    ensures
        yes == addressed(to, candidate),
{
    match to {
        To::All => true,
        To::Only(s) => candidate == s,
        To::Not(s) => candidate != s,
    }
}

/// What the three kinds of address mean: `All` is meant for every platform,
/// `Only` for the platform that it names and no other, and `Not` for every
/// platform but the one that it names.
pub proof fn lemma_address_meaning(named: Service, candidate: Service)
    ensures
        addressed(To::All, candidate),
        addressed(To::Only(named), candidate) <==> candidate == named,
        addressed(To::Not(named), candidate) <==> candidate != named,
{
}

/// No address is ambiguous: for every address and every platform, either the
/// address is meant for the platform or it is not, and never both. `Only` and
/// `Not` of one platform part the platforms between them.
pub proof fn lemma_address_unambiguous(to: To, named: Service, candidate: Service)
    ensures
        addressed(to, candidate) || !addressed(to, candidate),
        !(addressed(to, candidate) && !addressed(to, candidate)),
        addressed(To::Only(named), candidate) != addressed(To::Not(named), candidate),
{
}

} // verus!
