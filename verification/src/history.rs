//! What a store holds after a run of operations, and what follows for
//! looking up and listing tickets.

use crate::data::{TicketDraftView, TicketTemplateView, TicketView};
use crate::store::{after_create, after_update, ascending_listing, lookup};
use vstd::prelude::*;

verus! {

/// One change to a store: a ticket created under the identifier that was
/// drawn for it, or a template applied to a ticket.
pub enum StoreOp {
    Create { id: u128, draft: TicketDraftView },
    Update { id: u128, template: TicketTemplateView },
}

/// The tickets after one operation.
pub open spec fn apply(tickets: Map<u128, TicketView>, op: StoreOp) -> Map<u128, TicketView> {
    match op {
        StoreOp::Create { id, draft } => after_create(tickets, id, draft),
        StoreOp::Update { id, template } => after_update(tickets, id, template),
    }
}

/// The tickets of a store that was new before the operations `ops`.
pub open spec fn replay(ops: Seq<StoreOp>) -> Map<u128, TicketView>
    decreases ops.len(),
{
    if ops.len() == 0 {
        Map::empty()
    } else {
        apply(replay(ops.drop_last()), ops.last())
    }
}

/// The identifiers under which `ops` created tickets.
pub open spec fn created_ids(ops: Seq<StoreOp>) -> Set<u128>
    decreases ops.len(),
{
    if ops.len() == 0 {
        Set::empty()
    } else {
        match ops.last() {
            StoreOp::Create { id, .. } => created_ids(ops.drop_last()).insert(id),
            StoreOp::Update { .. } => created_ids(ops.drop_last()),
        }
    }
}

/// How many tickets `ops` created.
pub open spec fn create_count(ops: Seq<StoreOp>) -> nat
    decreases ops.len(),
{
    if ops.len() == 0 {
        0
    } else {
        match ops.last() {
            StoreOp::Create { .. } => create_count(ops.drop_last()) + 1,
            StoreOp::Update { .. } => create_count(ops.drop_last()),
        }
    }
}

/// Whether every ticket that `ops` created got an identifier that none
/// created before it had.
pub open spec fn fresh_ids(ops: Seq<StoreOp>) -> bool
    decreases ops.len(),
{
    if ops.len() == 0 {
        true
    } else {
        match ops.last() {
            StoreOp::Create { id, .. } => fresh_ids(ops.drop_last()) && !created_ids(
                ops.drop_last(),
            ).contains(id),
            StoreOp::Update { .. } => fresh_ids(ops.drop_last()),
        }
    }
}

/// The store holds a ticket under an identifier exactly when a ticket was
/// created under it; each ticket carries its own identifier; and there are
/// finitely many, as many as were created if every identifier was fresh.
pub proof fn lemma_replay_holds_created(ops: Seq<StoreOp>)
    ensures
        replay(ops).dom() == created_ids(ops),
        replay(ops).dom().finite(),
        forall|id: u128| #[trigger] replay(ops).contains_key(id) ==> replay(ops)[id].id == id,
        replay(ops).dom().len() <= create_count(ops),
        fresh_ids(ops) ==> replay(ops).dom().len() == create_count(ops),
    decreases ops.len(),
{
    if ops.len() > 0 {
        let before = ops.drop_last();
        lemma_replay_holds_created(before);
        match ops.last() {
            StoreOp::Create { id, draft } => {
                assert(replay(ops).dom() =~= created_ids(before).insert(id));
            },
            StoreOp::Update { id, template } => {
                assert(replay(ops).dom() =~= created_ids(before));
            },
        }
    }
}

/// Looking up an identifier under which no ticket was created gives
/// nothing.
pub proof fn lemma_unknown_id_is_absent(ops: Seq<StoreOp>, id: u128)
    requires
        !created_ids(ops).contains(id),
    ensures
        lookup(replay(ops), id) is None,
{
    lemma_replay_holds_created(ops);
}

/// A listing of the store names exactly the identifiers under which
/// tickets were created, and is as long as the number of tickets created
/// if every identifier was fresh.
pub proof fn lemma_listing_names_created(ops: Seq<StoreOp>, list: Seq<TicketView>)
    requires
        ascending_listing(list, replay(ops)),
    ensures
        forall|id: u128|
            created_ids(ops).contains(id) <==> exists|i: int|
                0 <= i < list.len() && #[trigger] list[i].id == id,
        fresh_ids(ops) ==> list.len() == create_count(ops),
{
    lemma_replay_holds_created(ops);
    assert forall|id: u128| created_ids(ops).contains(id) implies exists|i: int|
        0 <= i < list.len() && #[trigger] list[i].id == id by {
        assert(replay(ops).contains_key(id));
    }
}

} // verus!
