//! What the plugin registers with the media framework when it is loaded.

use vstd::prelude::*;

verus! {

/// How eagerly the framework picks an element by itself.
#[derive(Clone, Copy, PartialEq, Eq, Structural, Debug)]
pub enum Rank {
    /// The framework never picks the element on its own.
    Unranked,
    Marginal,
    Secondary,
    Primary,
}

/// One element that the plugin offers.
#[derive(Clone, Debug, PartialEq, Eq)]
pub struct ElementRegistration {
    /// The name that pipelines use for the element.
    pub name: String,
    pub rank: Rank,
}

/// The name under which the sink is registered.
pub open spec fn element_name() -> Seq<char> {
    seq!['s', '3', 'm', 'u', 'l', 't', 'i', 'f', 'r', 'a', 'm', 'e', 's', 'i', 'n', 'k']
}

/// The registration of the sink: under the name `s3multiframesink`, and
/// never picked by the framework on its own.
pub fn register() -> (registration: ElementRegistration)
    ensures
        registration.name@ == element_name(),
        registration.rank == Rank::Unranked,
{
    proof {
        reveal_strlit("s3multiframesink");
    }
    let name: String = String::from_str("s3multiframesink");
    assert(name@ =~= element_name());
    ElementRegistration { name, rank: Rank::Unranked }
}

/// Everything that the plugin registers when it is loaded: the sink, and
/// nothing else.
pub fn plugin_init() -> (registrations: Vec<ElementRegistration>)
    ensures
        registrations@.len() == 1,
        registrations@[0].name@ == element_name(),
        registrations@[0].rank == Rank::Unranked,
{
    let mut registrations: Vec<ElementRegistration> = Vec::new();
    registrations.push(register());
    registrations
}

} // verus!
