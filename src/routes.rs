//! The interaction route table: correlation-token prefixes mapped, in a fixed
//! order, to the handler group that serves them.
use vstd::prelude::*;
use crate::text::{chars_of, has_prefix};

verus! {

/// The handler group an interaction is routed to.
#[derive(Clone, Copy, Debug, PartialEq, Eq, Structural)]
pub enum InteractionRoute {
    PermissionsButtons,
    HelpButtons,
    PagetestButtons,
    PermissionsModal,
    HelpModal,
    PagetestModal,
}

pub const ROUTE_COUNT: usize = 6;

/// The feature whose pager a route serves.
#[derive(Clone, Copy, Debug, PartialEq, Eq, Structural)]
pub enum PagerFeature {
    Permissions,
    Help,
    Pagetest,
}

pub open spec fn feature_of(r: InteractionRoute) -> PagerFeature {
    match r {
        InteractionRoute::PermissionsButtons | InteractionRoute::PermissionsModal => PagerFeature::Permissions,
        InteractionRoute::HelpButtons | InteractionRoute::HelpModal => PagerFeature::Help,
        _ => PagerFeature::Pagetest,
    }
}

pub open spec fn is_modal_route(r: InteractionRoute) -> bool {
    match r {
        InteractionRoute::PermissionsModal | InteractionRoute::HelpModal
        | InteractionRoute::PagetestModal => true,
        _ => false,
    }
}

impl InteractionRoute {
    /// The feature this route's handler group belongs to.
    pub fn feature(self) -> (r: PagerFeature)
        ensures
            r == feature_of(self),
    {
        match self {
            InteractionRoute::PermissionsButtons | InteractionRoute::PermissionsModal => PagerFeature::Permissions,
            InteractionRoute::HelpButtons | InteractionRoute::HelpModal => PagerFeature::Help,
            _ => PagerFeature::Pagetest,
        }
    }

    /// Whether this route takes modal submissions rather than button clicks.
    pub fn is_modal(self) -> (r: bool)
        ensures
            r == is_modal_route(self),
    {
        match self {
            InteractionRoute::PermissionsModal | InteractionRoute::HelpModal
            | InteractionRoute::PagetestModal => true,
            _ => false,
        }
    }
}

/// The prefix of the route table's entry `i`.
pub open spec fn route_prefix(i: int) -> Seq<char> {
    if i == 0 {
        "pg:permissions:"@
    } else if i == 1 {
        "pg:help"@
    } else if i == 2 {
        "pg:pagetest:"@
    } else if i == 3 {
        "pgm:permissions:"@
    } else if i == 4 {
        "pgm:help"@
    } else {
        "pgm:pagetest:"@
    }
}

/// The route of the route table's entry `i`.
pub open spec fn route_tag(i: int) -> InteractionRoute {
    if i == 0 {
        InteractionRoute::PermissionsButtons
    } else if i == 1 {
        InteractionRoute::HelpButtons
    } else if i == 2 {
        InteractionRoute::PagetestButtons
    } else if i == 3 {
        InteractionRoute::PermissionsModal
    } else if i == 4 {
        InteractionRoute::HelpModal
    } else {
        InteractionRoute::PagetestModal
    }
}

/// The route of the first entry at index `i` or later whose prefix starts `token`.
pub open spec fn first_route_from(token: Seq<char>, i: int) -> Option<InteractionRoute>
    decreases ROUTE_COUNT - i,
{
    if i < 0 || i >= ROUTE_COUNT {
        None
    } else if route_prefix(i).is_prefix_of(token) {
        Some(route_tag(i))
    } else {
        first_route_from(token, i + 1)
    }
}

/// The route that a correlation token selects.
pub open spec fn route_of(token: Seq<char>) -> Option<InteractionRoute> {
    first_route_from(token, 0)
}

fn entry_prefix(i: usize) -> (r: &'static str)
    requires
        i < ROUTE_COUNT,
    ensures
        r@ == route_prefix(i as int),
{
    if i == 0 {
        "pg:permissions:"
    } else if i == 1 {
        "pg:help"
    } else if i == 2 {
        "pg:pagetest:"
    } else if i == 3 {
        "pgm:permissions:"
    } else if i == 4 {
        "pgm:help"
    } else {
        "pgm:pagetest:"
    }
}

fn entry_route(i: usize) -> (r: InteractionRoute)
    requires
        i < ROUTE_COUNT,
    ensures
        r == route_tag(i as int),
{
    if i == 0 {
        InteractionRoute::PermissionsButtons
    } else if i == 1 {
        InteractionRoute::HelpButtons
    } else if i == 2 {
        InteractionRoute::PagetestButtons
    } else if i == 3 {
        InteractionRoute::PermissionsModal
    } else if i == 4 {
        InteractionRoute::HelpModal
    } else {
        InteractionRoute::PagetestModal
    }
}

/// Scans the route table in order; the first entry whose prefix starts
/// `custom_id` wins, and no match gives `None`.
pub fn route_interaction(custom_id: &str) -> (r: Option<InteractionRoute>)
    ensures
        r == route_of(custom_id@),
{
    let token = chars_of(custom_id);
    let mut i: usize = 0;
    while i < ROUTE_COUNT
        invariant
            token@ == custom_id@,
            i <= ROUTE_COUNT,
            first_route_from(custom_id@, 0) == first_route_from(custom_id@, i as int),
        decreases ROUTE_COUNT - i,
    {
        if has_prefix(&token, entry_prefix(i)) {
            return Some(entry_route(i));
        }
        i = i + 1;
    }
    None
}

/// The kind of an inbound interaction, as far as routing cares.
#[derive(Clone, Copy, Debug, PartialEq, Eq, Structural)]
pub enum InteractionKind {
    MessageComponent,
    ModalSubmit,
    Other,
}

/// Routes an interaction event: only component and modal events carry a
/// correlation token; every other kind, and a token that no prefix starts,
/// is ignored.
pub fn route_event(kind: InteractionKind, custom_id: &str) -> (r: Option<InteractionRoute>)
    ensures
        r == match kind {
            InteractionKind::Other => None,
            _ => route_of(custom_id@),
        },
{
    match kind {
        InteractionKind::Other => None,
        _ => route_interaction(custom_id),
    }
}

proof fn lemma_first_route_from(token: Seq<char>, start: int, i: int)
    requires
        0 <= start <= i < ROUTE_COUNT,
        route_prefix(i).is_prefix_of(token),
        forall|j: int| start <= j < i ==> !route_prefix(j).is_prefix_of(token),
    ensures
        first_route_from(token, start) == Some(route_tag(i)),
    decreases i - start,
{
    if start < i {
        lemma_first_route_from(token, start + 1, i);
    }
}

proof fn lemma_no_route_from(token: Seq<char>, start: int)
    requires
        0 <= start <= ROUTE_COUNT,
        forall|j: int| start <= j < ROUTE_COUNT ==> !route_prefix(j).is_prefix_of(token),
    ensures
        first_route_from(token, start) is None,
    decreases ROUTE_COUNT - start,
{
    if start < ROUTE_COUNT {
        lemma_no_route_from(token, start + 1);
    }
}

/// The lowest-index entry whose prefix starts a token decides its route, even
/// where a later entry's prefix starts it too; a token that no prefix starts
/// has no route.
pub proof fn lemma_first_prefix_wins(token: Seq<char>, i: int)
    requires
        0 <= i < ROUTE_COUNT,
    ensures
        route_prefix(i).is_prefix_of(token) && (forall|j: int|
            0 <= j < i ==> !route_prefix(j).is_prefix_of(token)) ==> route_of(token) == Some(
            route_tag(i),
        ),
        (forall|j: int| 0 <= j < ROUTE_COUNT ==> !route_prefix(j).is_prefix_of(token))
            ==> route_of(token) is None,
{
    if route_prefix(i).is_prefix_of(token) && (forall|j: int|
        0 <= j < i ==> !route_prefix(j).is_prefix_of(token)) {
        lemma_first_route_from(token, 0, i);
    }
    if forall|j: int| 0 <= j < ROUTE_COUNT ==> !route_prefix(j).is_prefix_of(token) {
        lemma_no_route_from(token, 0);
    }
}

} // verus!
