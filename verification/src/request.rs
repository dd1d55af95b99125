//! Creating and changing tickets from the raw texts that a client sends.

use crate::data::{
    created, description_check, identify_status, lowercase_of, patched, status_reading,
    title_check, Errors, Ticket, TicketContentError, TicketDescription, TicketDraft,
    TicketDraftView, TicketStatus, TicketTemplate, TicketTemplateView, TicketTitle, TicketView,
};
use crate::store::{after_create, consistent, is_random_id, TicketId, TicketStore};
use vstd::prelude::*;

verus! {

/// What a raw input holds, as plain values.
pub struct TicketDraftInputView {
    pub title: Option<Seq<char>>,
    pub description: Option<Seq<char>>,
    pub status: Option<Seq<char>>,
}

/// The texts that a client sends to create or to change a ticket, none of
/// them checked yet. Each may be missing.
#[derive(Debug)]
pub struct TicketDraftInput {
    pub title: Option<String>,
    pub description: Option<String>,
    pub status: Option<String>,
}

/// The characters of a text that may be missing.
pub open spec fn text_view(text: Option<String>) -> Option<Seq<char>> {
    match text {
        Some(t) => Some(t@),
        None => None,
    }
}

impl View for TicketDraftInput {
    type V = TicketDraftInputView;

    open spec fn view(&self) -> TicketDraftInputView {
        TicketDraftInputView {
            title: text_view(self.title),
            description: text_view(self.description),
            status: text_view(self.status),
        }
    }
}

/// Why a request was refused: a text did not pass its check, or the store
/// or the reading of the status failed.
#[derive(Clone, Copy, Debug, PartialEq, Eq, Structural)]
pub enum RequestError {
    Content(TicketContentError),
    Store(Errors),
}

/// A text that may be missing, with the empty text for a missing one.
pub open spec fn text_or_empty(text: Option<Seq<char>>) -> Seq<char> {
    match text {
        Some(t) => t,
        None => Seq::empty(),
    }
}

/// The draft that an input gives. A missing title or description counts as
/// an empty text, so it is refused; the title is checked first. The status
/// of the input plays no part.
pub open spec fn draft_reading(input: TicketDraftInputView) -> Result<
    TicketDraftView,
    TicketContentError,
> {
    let title = text_or_empty(input.title);
    let description = text_or_empty(input.description);
    match title_check(title) {
        Err(e) => Err(e),
        Ok(_) => match description_check(description) {
            Err(e) => Err(e),
            Ok(_) => Ok(TicketDraftView { title, description }),
        },
    }
}

/// Whether the title of an input, if there is one, passes its check.
pub open spec fn title_reading(title: Option<Seq<char>>) -> Result<(), TicketContentError> {
    match title {
        Some(t) => title_check(t),
        None => Ok(()),
    }
}

/// Whether the description of an input, if there is one, passes its check.
pub open spec fn description_reading(description: Option<Seq<char>>) -> Result<
    (),
    TicketContentError,
> {
    match description {
        Some(d) => description_check(d),
        None => Ok(()),
    }
}

/// The status that the status text of an input names, if there is a text.
pub open spec fn status_option_reading(status: Option<Seq<char>>) -> Result<
    Option<TicketStatus>,
    Errors,
> {
    match status {
        Some(s) => match status_reading(lowercase_of(s)) {
            Ok(status) => Ok(Some(status)),
            Err(e) => Err(e),
        },
        None => Ok(None),
    }
}

/// The template that an input gives: each text that is there becomes the
/// field of the template, each missing one leaves the field out. The
/// status is read first, then the title is checked, then the description:
/// an unparseable status is what is reported, whatever the other texts
/// hold.
pub open spec fn template_reading(input: TicketDraftInputView) -> Result<
    TicketTemplateView,
    RequestError,
> {
    match status_option_reading(input.status) {
        Err(e) => Err(RequestError::Store(e)),
        Ok(status) => match title_reading(input.title) {
            Err(e) => Err(RequestError::Content(e)),
            Ok(_) => match description_reading(input.description) {
                Err(e) => Err(RequestError::Content(e)),
                Ok(_) => Ok(
                    TicketTemplateView {
                        title: input.title,
                        description: input.description,
                        status,
                    },
                ),
            },
        },
    }
}

/// What a request to change the ticket `id` gives back: `UpdateError` if
/// there is no such ticket, else what reading the input refuses, else the
/// changed ticket.
pub open spec fn update_reading(
    tickets: Map<u128, TicketView>,
    id: u128,
    input: TicketDraftInputView,
) -> Result<TicketView, RequestError> {
    if !tickets.contains_key(id) {
        Err(RequestError::Store(Errors::UpdateError))
    } else {
        match template_reading(input) {
            Err(e) => Err(e),
            Ok(template) => Ok(patched(tickets[id], template)),
        }
    }
}

/// A text that may be missing, with the empty text for a missing one.
fn or_empty(text: Option<String>) -> (res: String)
    ensures
        res@ == text_or_empty(text_view(text)),
{
    match text {
        Some(t) => t,
        None => String::new(),
    }
}

/// Builds a draft from an input, or says which check refused it.
pub fn draft_from_input(input: TicketDraftInput) -> (res: Result<TicketDraft, TicketContentError>)
    ensures
        match res {
            Ok(draft) => draft_reading(input@) == Ok::<TicketDraftView, TicketContentError>(
                draft@,
            ),
            Err(e) => draft_reading(input@) == Err::<TicketDraftView, TicketContentError>(e),
        },
{
    let title = match TicketTitle::new(or_empty(input.title)) {
        Ok(title) => title,
        Err(e) => {
            return Err(e);
        },
    };
    let description = match TicketDescription::new(or_empty(input.description)) {
        Ok(description) => description,
        Err(e) => {
            return Err(e);
        },
    };
    Ok(TicketDraft { title, description })
}

/// Builds a template from an input, or says what refused it.
pub fn template_from_input(input: TicketDraftInput) -> (res: Result<TicketTemplate, RequestError>)
    ensures
        match res {
            Ok(template) => template_reading(input@) == Ok::<TicketTemplateView, RequestError>(
                template@,
            ),
            Err(e) => template_reading(input@) == Err::<TicketTemplateView, RequestError>(e),
        },
{
    let status = match input.status {
        Some(text) => match identify_status(text) {
            Ok(status) => Some(status),
            Err(e) => {
                return Err(RequestError::Store(e));
            },
        },
        None => None,
    };
    let title = match input.title {
        Some(text) => match TicketTitle::new(text) {
            Ok(title) => Some(title),
            Err(e) => {
                return Err(RequestError::Content(e));
            },
        },
        None => None,
    };
    let description = match input.description {
        Some(text) => match TicketDescription::new(text) {
            Ok(description) => Some(description),
            Err(e) => {
                return Err(RequestError::Content(e));
            },
        },
        None => None,
    };
    Ok(TicketTemplate { title, description, status })
}

/// Creates a ticket from an input and gives a copy of it back, or says
/// which check refused the input; the store is then unchanged.
pub fn create_ticket(store: &mut TicketStore, input: TicketDraftInput) -> (res: Result<
    Ticket,
    TicketContentError,
>)
    ensures
        match res {
            Ok(ticket) => {
                &&& draft_reading(input@) is Ok
                &&& ticket@ == created(ticket.id@, draft_reading(input@)->Ok_0)
                &&& is_random_id(ticket.id@)
                &&& final(store)@ == after_create(
                    old(store)@,
                    ticket.id@,
                    draft_reading(input@)->Ok_0,
                )
            },
            Err(e) => {
                &&& draft_reading(input@) == Err::<TicketDraftView, TicketContentError>(e)
                &&& final(store)@ == old(store)@
            },
        },
        consistent(final(store)@),
{
    let draft = match draft_from_input(input) {
        Ok(draft) => draft,
        Err(e) => {
            proof {
                use_type_invariant(&*store);
                store.lemma_consistent();
            }
            return Err(e);
        },
    };
    let id = store.add_ticket(draft);
    match store.get_ticket(id) {
        Some(ticket) => Ok(ticket),
        None => unreached(),
    }
}

/// Changes the ticket `id` as an input says and gives a copy of the
/// changed ticket back, or says why not; the store is then unchanged.
/// Whether the ticket is there is looked at first, then the status of the
/// input, then its title, then its description.
pub fn update_ticket(store: &mut TicketStore, id: TicketId, input: TicketDraftInput) -> (res:
    Result<Ticket, RequestError>)
    ensures
        match res {
            Ok(ticket) => {
                &&& update_reading(old(store)@, id@, input@) == Ok::<TicketView, RequestError>(
                    ticket@,
                )
                &&& final(store)@ == old(store)@.insert(id@, ticket@)
            },
            Err(e) => {
                &&& update_reading(old(store)@, id@, input@) == Err::<TicketView, RequestError>(e)
                &&& final(store)@ == old(store)@
            },
        },
        consistent(final(store)@),
{
    if store.get_ticket(id).is_none() {
        return Err(RequestError::Store(Errors::UpdateError));
    }
    let template = match template_from_input(input) {
        Ok(template) => template,
        Err(e) => {
            return Err(e);
        },
    };
    match store.update_ticket(id, template) {
        Ok(ticket) => Ok(ticket),
        Err(e) => Err(RequestError::Store(e)),
    }
}

/// A request to change a ticket that is not there is refused with
/// `UpdateError`, whatever the input holds.
pub proof fn lemma_missing_ticket_is_reported(
    tickets: Map<u128, TicketView>,
    id: u128,
    input: TicketDraftInputView,
)
    requires
        !tickets.contains_key(id),
    ensures
        update_reading(tickets, id, input) == Err::<TicketView, RequestError>(
            RequestError::Store(Errors::UpdateError),
        ),
{
}

/// A request to change a ticket that is there, with a status text that
/// names no status, is refused with `StatusUnParseable`, whatever the
/// title and the description of the input hold.
pub proof fn lemma_unparseable_status_is_reported(
    tickets: Map<u128, TicketView>,
    id: u128,
    input: TicketDraftInputView,
)
    requires
        tickets.contains_key(id),
        input.status is Some,
        status_reading(lowercase_of(input.status->0)) is Err,
    ensures
        update_reading(tickets, id, input) == Err::<TicketView, RequestError>(
            RequestError::Store(Errors::StatusUnParseable),
        ),
        template_reading(input) == Err::<TicketTemplateView, RequestError>(
            RequestError::Store(Errors::StatusUnParseable),
        ),
{
}

/// With a status that is missing or names a status, a refused title is
/// what is reported, and after it a refused description.
pub proof fn lemma_refused_texts_are_reported(input: TicketDraftInputView)
    requires
        status_option_reading(input.status) is Ok,
    ensures
        title_reading(input.title) matches Err(e) ==> template_reading(input) == Err::<
            TicketTemplateView,
            RequestError,
        >(RequestError::Content(e)),
        title_reading(input.title) is Ok ==> (description_reading(input.description) matches Err(
            e,
        ) ==> template_reading(input) == Err::<TicketTemplateView, RequestError>(
            RequestError::Content(e),
        )),
        title_reading(input.title) is Ok && description_reading(input.description) is Ok
            ==> template_reading(input) is Ok,
{
}

} // verus!
