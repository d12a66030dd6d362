//! Native-menu layer of a desktop application shell: a declarative,
//! platform-conditional menu tree and the dispatch table that maps menu
//! activation events to application actions.

pub mod menu;
pub mod platform;
pub mod router;

use vstd::prelude::*;

verus! {

/// Every identifier of an actionable entry anywhere in the built tree has an
/// entry in the dispatch table: on no platform does the tree hold an item
/// whose activation the router would silently ignore.
pub proof fn lemma_built_identifiers_are_routed(p: platform::Platform)
    ensures
        forall|i: int|
            0 <= i < menu::built_identifiers(p).len() ==> #[trigger] router::route_spec(
                menu::built_identifiers(p)[i],
            ) != router::ActionModel::Ignore,
{
    menu::lemma_built_identifiers(p);
    let ids = menu::built_identifiers(p);
    assert forall|i: int| 0 <= i < ids.len() implies router::route_spec(ids[i])
        != router::ActionModel::Ignore by {
        // ids[i] is letter for letter one of the table's identifiers, so the
        // table's fall-through branch is unreachable for it.
        assert(router::route_spec(ids[i]) != router::ActionModel::Ignore);
    };
}

} // verus!
