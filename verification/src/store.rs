//! Ticket identifiers and the store that holds the tickets.

use crate::data::{
    created, patched, well_formed, Errors, Ticket, TicketDraft, TicketDraftView, TicketStatus,
    TicketTemplate, TicketTemplateView, TicketView,
};
use std::collections::BTreeMap;
use vstd::prelude::*;
use vstd::std_specs::cmp::OrdSpec;
use vstd::std_specs::iter::IteratorSpec;

verus! {

broadcast use vstd::std_specs::btree::group_btree_axioms;

/// Names one ticket: a 128-bit value that the store draws at random when
/// the ticket is created.
#[derive(Clone, Copy, Debug, PartialEq, Eq, Structural, PartialOrd, Ord)]
pub struct TicketId(u128);

impl View for TicketId {
    type V = u128;

    closed spec fn view(&self) -> u128 {
        self.0
    }
}

impl Default for TicketId {
    /// The identifier whose value is 0, which the store never draws.
    fn default() -> (id: TicketId)
        ensures
            id@ == 0,
    {
        TicketId(0)
    }
}

impl TicketId {
    /// The identifier with the given value.
    pub fn from_u128(value: u128) -> (id: TicketId)
        ensures
            id@ == value,
    {
        TicketId(value)
    }

    /// The text form of the identifier, as in
    /// `a1a2a3a4-b1b2-c1c2-d1d2-d3d4d5d6d7d8`.
    pub fn to_text(&self) -> (text: String)
        ensures
            text@ == hyphenated_text(self@),
    {
        uuid_text(self.0)
    }

    /// The value of the identifier. Identifiers are ordered by it.
    pub fn as_u128(&self) -> (value: u128)
        ensures
            value == self@,
    {
        self.0
    }
}

/// Two identifiers with the same value are the same identifier.
pub proof fn lemma_id_by_value(a: TicketId, b: TicketId)
    requires
        a@ == b@,
    ensures
        a == b,
{
}

/// The lowercase hexadecimal digit for a number from 0 to 15.
pub open spec fn hex_digit(n: u128) -> char {
    seq!['0', '1', '2', '3', '4', '5', '6', '7', '8', '9', 'a', 'b', 'c', 'd', 'e', 'f'][n as int]
}

/// The character at place `p` of the text form of `value`: a hyphen at the
/// places 8, 13, 18 and 23, else the next hexadecimal digit of `value`,
/// the most significant first.
pub open spec fn text_char(value: u128, p: int) -> char {
    if p == 8 || p == 13 || p == 18 || p == 23 {
        '-'
    } else {
        let hyphens: int = if p < 8 {
            0
        } else if p < 13 {
            1
        } else if p < 18 {
            2
        } else if p < 23 {
            3
        } else {
            4
        };
        let shift = (4 * (31 - (p - hyphens))) as u128;
        hex_digit((value >> shift) & 0xf)
    }
}

/// The text form of an identifier's value: 32 lowercase hexadecimal
/// digits in groups of 8, 4, 4, 4 and 12, with hyphens between the groups.
pub open spec fn hyphenated_text(value: u128) -> Seq<char> {
    Seq::new(36, |p: int| text_char(value, p))
}

/// Formats the UUID of value `value` by its `Display` implementation in
/// the `uuid` crate, which writes the hyphenated lowercase form.
#[verifier::external_body]
fn uuid_text(value: u128) -> (text: String)
    ensures
        text@ == hyphenated_text(value),
{
    uuid::Uuid::from_u128(value).to_string()
}

/// Whether `value` carries the marks of a random identifier: version 4 in
/// bits 76 to 79, and the two bits 1 0 in bits 62 and 63.
pub open spec fn is_random_id(value: u128) -> bool {
    value & 0x0000_0000_0000_f000_c000_0000_0000_0000u128
        == 0x0000_0000_0000_4000_8000_0000_0000_0000u128
}

/// A random identifier is never the default one, whose value is 0.
pub proof fn lemma_random_id_is_not_default(value: u128)
    requires
        is_random_id(value),
    ensures
        value != 0,
{
    assert(value & 0x0000_0000_0000_f000_c000_0000_0000_0000u128
        == 0x0000_0000_0000_4000_8000_0000_0000_0000u128 ==> value != 0) by (bit_vector);
}

/// Calls `uuid::Uuid::new_v4` and hands out the value of the UUID as
/// `Uuid::as_u128` gives it, bytes in big-endian order. 122 bits of it are
/// random; the contract states the six bits that `new_v4` fixes. The call
/// panics if the operating system gives no random bytes.
#[verifier::external_body]
fn random_id_value() -> (value: u128)
    ensures
        is_random_id(value),
{
    uuid::Uuid::new_v4().as_u128()
}

/// Whether `tickets` can be what a store holds: finitely many tickets,
/// each under its own identifier and with a title and a description that
/// pass their checks.
pub open spec fn consistent(tickets: Map<u128, TicketView>) -> bool {
    &&& tickets.dom().finite()
    &&& forall|id: u128| #[trigger]
        tickets.contains_key(id) ==> tickets[id].id == id && well_formed(tickets[id])
}

/// What looking up `id` in `tickets` gives.
pub open spec fn lookup(tickets: Map<u128, TicketView>, id: u128) -> Option<TicketView> {
    if tickets.contains_key(id) {
        Some(tickets[id])
    } else {
        None
    }
}

/// The tickets after a draft has been stored under `id`.
pub open spec fn after_create(tickets: Map<u128, TicketView>, id: u128, draft: TicketDraftView)
    -> Map<u128, TicketView> {
    tickets.insert(id, created(id, draft))
}

/// The tickets after `template` has been applied to the ticket `id`: no
/// change if there is no such ticket.
pub open spec fn after_update(
    tickets: Map<u128, TicketView>,
    id: u128,
    template: TicketTemplateView,
) -> Map<u128, TicketView> {
    if tickets.contains_key(id) {
        tickets.insert(id, patched(tickets[id], template))
    } else {
        tickets
    }
}

/// What applying `template` to the ticket `id` gives back: the changed
/// ticket, or `UpdateError` if there is no such ticket.
pub open spec fn update_outcome(
    tickets: Map<u128, TicketView>,
    id: u128,
    template: TicketTemplateView,
) -> Result<TicketView, Errors> {
    if tickets.contains_key(id) {
        Ok(patched(tickets[id], template))
    } else {
        Err(Errors::UpdateError)
    }
}

/// Whether `list` holds the tickets of `tickets`, each once, in ascending
/// order of their identifiers.
pub open spec fn ascending_listing(list: Seq<TicketView>, tickets: Map<u128, TicketView>) -> bool {
    &&& list.len() == tickets.dom().len()
    &&& forall|i: int|
        0 <= i < list.len() ==> tickets.contains_key(#[trigger] list[i].id) && tickets[list[i].id]
            == list[i]
    &&& forall|i: int, j: int| 0 <= i < j < list.len() ==> #[trigger] list[i].id < #[trigger] list[j].id
    &&& forall|id: u128| #[trigger]
        tickets.contains_key(id) ==> exists|i: int| 0 <= i < list.len() && #[trigger] list[i].id == id
}

/// The tickets that a list of present tickets holds, as plain values.
pub open spec fn listed(list: Seq<Option<Ticket>>) -> Seq<TicketView> {
    Seq::new(list.len(), |i: int| list[i]->0@)
}

/// Holds all the tickets, each under its identifier.
#[derive(Debug)]
pub struct TicketStore {
    tickets: BTreeMap<u128, Ticket>,
}

impl View for TicketStore {
    type V = Map<u128, TicketView>;

    closed spec fn view(&self) -> Map<u128, TicketView> {
        self.tickets@.map_values(|t: Ticket| t@)
    }
}

impl Default for TicketStore {
    /// A store without tickets.
    fn default() -> (store: TicketStore)
        ensures
            store@ == Map::<u128, TicketView>::empty(),
            consistent(store@),
    {
        TicketStore::new()
    }
}

impl Clone for TicketStore {
    fn clone(&self) -> (res: Self)
        ensures
            res@ == self@,
            consistent(res@),
    {
        proof {
            use_type_invariant(self);
        }
        let res = TicketStore { tickets: self.tickets.clone() };
        proof {
            res.lemma_consistent();
        }
        res
    }
}

impl TicketStore {
    #[verifier::type_invariant]
    pub(crate) closed spec fn sound(&self) -> bool {
        forall|id: u128| #[trigger]
            self.tickets@.contains_key(id) ==> self.tickets@[id].id@ == id && well_formed(
                self.tickets@[id]@,
            )
    }

    /// A store without tickets.
    pub fn new() -> (store: TicketStore)
        ensures
            store@ == Map::<u128, TicketView>::empty(),
            consistent(store@),
    {
        let store = TicketStore { tickets: BTreeMap::new() };
        assert(store@ =~= Map::<u128, TicketView>::empty());
        store
    }

    /// A sound store holds consistent tickets.
    pub(crate) proof fn lemma_consistent(&self)
        requires
            self.sound(),
        ensures
            consistent(self@),
    {
        assert(self@.dom() =~= self.tickets@.dom());
    }

    /// How many tickets the store holds.
    pub fn len(&self) -> (n: usize)
        ensures
            n == self@.len(),
            consistent(self@),
    {
        proof {
            use_type_invariant(self);
            self.lemma_consistent();
            assert(self@.dom() =~= self.tickets@.dom());
        }
        self.tickets.len()
    }

    /// Stores a new ticket, made from `draft`, under `id`. A ticket that
    /// was stored under `id` before is replaced.
    pub fn insert_ticket(&mut self, id: TicketId, draft: TicketDraft)
        ensures
            final(self)@ == after_create(old(self)@, id@, draft@),
            consistent(final(self)@),
    {
        proof {
            use_type_invariant(&*self);
        }
        proof {
            use_type_invariant(&draft.title);
            use_type_invariant(&draft.description);
        }
        let ticket = Ticket {
            id,
            title: draft.title,
            description: draft.description,
            status: TicketStatus::Todo,
        };
        self.put(ticket);
        assert(self@ =~= after_create(old(self)@, id@, draft@));
        proof {
            use_type_invariant(&*self);
            self.lemma_consistent();
        }
    }

    /// Stores `ticket` under its own identifier.
    fn put(&mut self, ticket: Ticket)
        requires
            well_formed(ticket@),
        ensures
            final(self).tickets@ == old(self).tickets@.insert(ticket.id@, ticket),
    {
        proof {
            use_type_invariant(&*self);
        }
        // The map is taken out while it changes, so that the store is
        // sound at every step.
        let mut tickets: BTreeMap<u128, Ticket> = BTreeMap::new();
        std::mem::swap(&mut self.tickets, &mut tickets);
        tickets.insert(ticket.id.as_u128(), ticket);
        std::mem::swap(&mut self.tickets, &mut tickets);
    }

    /// Looks up the ticket `id` and gives a copy of it, or `None` if there
    /// is no such ticket.
    pub fn get_ticket(&self, ticket_id: TicketId) -> (res: Option<Ticket>)
        ensures
            match res {
                Some(ticket) => lookup(self@, ticket_id@) == Some(ticket@),
                None => lookup(self@, ticket_id@) is None,
            },
            consistent(self@),
    {
        proof {
            use_type_invariant(self);
            self.lemma_consistent();
        }
        let key = ticket_id.as_u128();
        match self.tickets.get(&key) {
            Some(ticket) => Some(ticket.clone()),
            None => None,
        }
    }

    /// Creates a ticket from `ticket_draft` under a freshly drawn random
    /// identifier and gives the identifier back. The new ticket is `Todo`.
    ///
    /// Nothing here tells a drawn identifier from one drawn before: should
    /// the same 122 random bits ever come twice, the new ticket takes the
    /// place of the earlier one.
    pub fn add_ticket(&mut self, ticket_draft: TicketDraft) -> (id: TicketId)
        ensures
            is_random_id(id@),
            final(self)@ == after_create(old(self)@, id@, ticket_draft@),
            consistent(final(self)@),
    {
        let id = TicketId::from_u128(random_id_value());
        self.insert_ticket(id, ticket_draft);
        id
    }

    /// Applies `ticket_template` to the ticket `ticket_id` and gives a
    /// copy of the changed ticket, or `UpdateError` if there is no such
    /// ticket; the store is then unchanged.
    pub fn update_ticket(&mut self, ticket_id: TicketId, ticket_template: TicketTemplate) -> (res:
        Result<Ticket, Errors>)
        ensures
            final(self)@ == after_update(old(self)@, ticket_id@, ticket_template@),
            match res {
                Ok(ticket) => update_outcome(old(self)@, ticket_id@, ticket_template@) == Ok::<
                    TicketView,
                    Errors,
                >(ticket@),
                Err(e) => update_outcome(old(self)@, ticket_id@, ticket_template@) == Err::<
                    TicketView,
                    Errors,
                >(e),
            },
            consistent(final(self)@),
    {
        proof {
            use_type_invariant(&*self);
            self.lemma_consistent();
        }
        let key = ticket_id.as_u128();
        let current = match self.tickets.get(&key) {
            Some(ticket) => ticket.clone(),
            None => {
                return Err(Errors::UpdateError);
            },
        };
        let changed = Ticket {
            id: current.id,
            title: match ticket_template.title {
                Some(title) => title,
                None => current.title,
            },
            description: match ticket_template.description {
                Some(description) => description,
                None => current.description,
            },
            status: match ticket_template.status {
                Some(status) => status,
                None => current.status,
            },
        };
        proof {
            use_type_invariant(&changed.title);
            use_type_invariant(&changed.description);
        }
        let copy = changed.clone();
        self.put(changed);
        assert(self@ =~= after_update(old(self)@, ticket_id@, ticket_template@));
        proof {
            use_type_invariant(&*self);
            self.lemma_consistent();
        }
        Ok(copy)
    }

    /// Copies of all the tickets, in ascending order of their identifiers.
    /// Every entry of the list is `Some`.
    pub fn get_all(&self) -> (res: Vec<Option<Ticket>>)
        ensures
            forall|i: int| 0 <= i < res.len() ==> (#[trigger] res[i]) is Some,
            ascending_listing(listed(res@), self@),
            consistent(self@),
    {
        proof {
            use_type_invariant(self);
            self.lemma_consistent();
        }
        let mut tickets: Vec<Option<Ticket>> = Vec::new();
        for entry in it: self.tickets.iter()
            invariant
                it.seq() == self.tickets.iter().remaining(),
                tickets.len() == it.index(),
                forall|i: int|
                    0 <= i < tickets.len() ==> (#[trigger] tickets[i]) is Some && tickets[i]->0@
                        == (*it.seq()[i].1)@,
        {
            let (_, ticket) = entry;
            tickets.push(Some(ticket.clone()));
        }
        proof {
            let entries = self.tickets.iter().remaining();
            let keys = entries.map_values(|kv: (&u128, &Ticket)| *kv.0);
            let list = listed(tickets@);
            assert(list.len() == self@.dom().len()) by {
                assert(self@.dom() =~= self.tickets@.dom());
            }
            assert forall|i: int| 0 <= i < list.len() implies self@.contains_key(
                #[trigger] list[i].id,
            ) && self@[list[i].id] == list[i] by {
                assert(self.tickets@.contains_key(*entries[i].0));
            }
            assert forall|i: int, j: int| 0 <= i < j < list.len() implies #[trigger] list[i].id
                < #[trigger] list[j].id by {
                assert(self.tickets@.contains_key(*entries[i].0));
                assert(self.tickets@.contains_key(*entries[j].0));
                assert(vstd::std_specs::btree::increasing_seq(keys));
                assert(keys[i].cmp_spec(&keys[j]) is Less);
            }
            assert forall|id: u128| #[trigger] self@.contains_key(id) implies exists|i: int|
                0 <= i < list.len() && #[trigger] list[i].id == id by {
                assert(self.tickets@.contains_key(id));
                let entry = (&id, &self.tickets@[id]);
                assert(entries.contains(entry));
                let i = choose|i: int| 0 <= i < entries.len() && entries[i] == entry;
                assert(self.tickets@.contains_key(*entries[i].0));
                assert(list[i].id == id);
            }
        }
        tickets
    }
}

/// The template that changes nothing.
pub open spec fn empty_template() -> TicketTemplateView {
    TicketTemplateView { title: None, description: None, status: None }
}

/// The template that changes the status only.
pub open spec fn status_template(status: TicketStatus) -> TicketTemplateView {
    TicketTemplateView { title: None, description: None, status: Some(status) }
}

/// Whether no field is held by both templates.
pub open spec fn disjoint_templates(a: TicketTemplateView, b: TicketTemplateView) -> bool {
    &&& a.title is None || b.title is None
    &&& a.description is None || b.description is None
    &&& a.status is None || b.status is None
}

/// The template that holds the fields of both of two disjoint templates.
pub open spec fn joined_templates(a: TicketTemplateView, b: TicketTemplateView)
    -> TicketTemplateView {
    TicketTemplateView {
        title: if a.title is Some { a.title } else { b.title },
        description: if a.description is Some { a.description } else { b.description },
        status: if a.status is Some { a.status } else { b.status },
    }
}

/// Looking up a ticket right after it was created gives the ticket with
/// the title and the description of its draft, in status `Todo`.
pub proof fn lemma_create_then_get(tickets: Map<u128, TicketView>, id: u128, draft: TicketDraftView)
    ensures
        lookup(after_create(tickets, id, draft), id) == Some(created(id, draft)),
        created(id, draft).id == id,
        created(id, draft).title == draft.title,
        created(id, draft).description == draft.description,
        created(id, draft).status == TicketStatus::Todo,
{
}

/// Creating a ticket leaves every other ticket as it was.
pub proof fn lemma_create_keeps_others(
    tickets: Map<u128, TicketView>,
    id: u128,
    draft: TicketDraftView,
    other: u128,
)
    requires
        other != id,
    ensures
        lookup(after_create(tickets, id, draft), other) == lookup(tickets, other),
{
}

/// An update with a template that holds no field changes nothing, and
/// gives back the ticket as it is.
pub proof fn lemma_empty_template_is_noop(tickets: Map<u128, TicketView>, id: u128)
    ensures
        after_update(tickets, id, empty_template()) == tickets,
        tickets.contains_key(id) ==> update_outcome(tickets, id, empty_template()) == Ok::<
            TicketView,
            Errors,
        >(tickets[id]),
        !tickets.contains_key(id) ==> update_outcome(tickets, id, empty_template()) == Err::<
            TicketView,
            Errors,
        >(Errors::UpdateError),
{
    if tickets.contains_key(id) {
        assert(patched(tickets[id], empty_template()) == tickets[id]);
        assert(tickets.insert(id, tickets[id]) =~= tickets);
    }
}

/// An update of the status changes the status of that ticket and nothing
/// else: not its title, its description or its identifier, and no other
/// ticket.
pub proof fn lemma_status_update_changes_status_only(
    tickets: Map<u128, TicketView>,
    id: u128,
    status: TicketStatus,
)
    requires
        tickets.contains_key(id),
    ensures
        update_outcome(tickets, id, status_template(status)) == Ok::<TicketView, Errors>(
            TicketView { status, ..tickets[id] },
        ),
        after_update(tickets, id, status_template(status)) == tickets.insert(
            id,
            TicketView { status, ..tickets[id] },
        ),
        after_update(tickets, id, status_template(status)).dom() == tickets.dom(),
        forall|other: u128|
            other != id ==> lookup(
                after_update(tickets, id, status_template(status)),
                other,
            ) == #[trigger] lookup(tickets, other),
{
    assert(tickets.insert(id, TicketView { status, ..tickets[id] }).dom() =~= tickets.dom());
}

/// An update never adds or removes a ticket, and never changes an
/// identifier.
pub proof fn lemma_update_keeps_tickets(
    tickets: Map<u128, TicketView>,
    id: u128,
    template: TicketTemplateView,
)
    ensures
        after_update(tickets, id, template).dom() == tickets.dom(),
        forall|other: u128| #[trigger]
            tickets.contains_key(other) ==> after_update(tickets, id, template)[other].id
                == tickets[other].id,
        forall|other: u128|
            other != id ==> lookup(after_update(tickets, id, template), other) == #[trigger] lookup(
                tickets,
                other,
            ),
{
    assert(after_update(tickets, id, template).dom() =~= tickets.dom());
}

/// Two updates of one ticket whose templates share no field give the same
/// store in either order, and the ticket then holds the fields of both.
pub proof fn lemma_disjoint_updates_both_apply(
    tickets: Map<u128, TicketView>,
    id: u128,
    a: TicketTemplateView,
    b: TicketTemplateView,
)
    requires
        disjoint_templates(a, b),
    ensures
        after_update(after_update(tickets, id, a), id, b) == after_update(
            after_update(tickets, id, b),
            id,
            a,
        ),
        after_update(after_update(tickets, id, a), id, b) == after_update(
            tickets,
            id,
            joined_templates(a, b),
        ),
{
    if tickets.contains_key(id) {
        let t = tickets[id];
        assert(patched(patched(t, a), b) == patched(t, joined_templates(a, b)));
        assert(patched(patched(t, b), a) == patched(t, joined_templates(a, b)));
        assert(after_update(after_update(tickets, id, a), id, b) =~= after_update(
            tickets,
            id,
            joined_templates(a, b),
        ));
        assert(after_update(after_update(tickets, id, b), id, a) =~= after_update(
            tickets,
            id,
            joined_templates(a, b),
        ));
    }
}

/// The last ticket of a listing has the largest identifier in the store,
/// and the listing without it lists the store without that ticket.
proof fn lemma_listing_without_last(list: Seq<TicketView>, tickets: Map<u128, TicketView>)
    requires
        tickets.dom().finite(),
        ascending_listing(list, tickets),
        list.len() > 0,
    ensures
        forall|id: u128| #[trigger] tickets.contains_key(id) ==> id <= list.last().id,
        ascending_listing(list.drop_last(), tickets.remove(list.last().id)),
{
    let top = list.last().id;
    let rest = list.drop_last();
    let fewer = tickets.remove(top);
    assert forall|id: u128| #[trigger] tickets.contains_key(id) implies id <= top by {
        let i = choose|i: int| 0 <= i < list.len() && #[trigger] list[i].id == id;
        if i < list.len() - 1 {
            assert(list[i].id < list[list.len() - 1].id);
        }
    }
    assert(tickets.contains_key(list[list.len() - 1].id));
    assert(fewer.dom() =~= tickets.dom().remove(top));
    assert forall|i: int| 0 <= i < rest.len() implies fewer.contains_key(#[trigger] rest[i].id)
        && fewer[rest[i].id] == rest[i] by {
        assert(list[i].id < list[list.len() - 1].id);
        assert(tickets.contains_key(list[i].id));
    }
    assert forall|i: int, j: int| 0 <= i < j < rest.len() implies #[trigger] rest[i].id
        < #[trigger] rest[j].id by {
        assert(list[i].id < list[j].id);
    }
    assert forall|id: u128| #[trigger] fewer.contains_key(id) implies exists|i: int|
        0 <= i < rest.len() && #[trigger] rest[i].id == id by {
        assert(tickets.contains_key(id));
        let i = choose|i: int| 0 <= i < list.len() && #[trigger] list[i].id == id;
        assert(rest[i].id == id);
    }
}

/// A store has one listing only: two lists that both hold its tickets in
/// ascending order are the same list.
pub proof fn lemma_listing_is_unique(
    a: Seq<TicketView>,
    b: Seq<TicketView>,
    tickets: Map<u128, TicketView>,
)
    requires
        tickets.dom().finite(),
        ascending_listing(a, tickets),
        ascending_listing(b, tickets),
    ensures
        a == b,
    decreases a.len(),
{
    if a.len() == 0 {
        assert(a =~= b);
    } else {
        lemma_listing_without_last(a, tickets);
        lemma_listing_without_last(b, tickets);
        assert(tickets.contains_key(a[a.len() - 1].id));
        assert(tickets.contains_key(b[b.len() - 1].id));
        assert(a.last().id == b.last().id);
        assert(a.last() == b.last());
        lemma_listing_is_unique(a.drop_last(), b.drop_last(), tickets.remove(a.last().id));
        assert(a =~= a.drop_last().push(a.last()));
        assert(b =~= b.drop_last().push(b.last()));
    }
}

} // verus!
