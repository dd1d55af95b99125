//! The validated field types of a ticket, the ticket itself, and the
//! errors that building or changing one can give.

use crate::store::TicketId;
use vstd::prelude::*;
use vstd::utf8::{encode_utf8, encode_utf8_decode_utf8};

verus! {

/// The largest number of bytes a title may have.
pub const TITLE_MAX_BYTES: usize = 50;

/// The largest number of bytes a description may have.
///
/// The limit that is enforced is 50 bytes, although the message of
/// [`TicketContentError::DescriptionTooLong`] speaks of 500.
pub const DESCRIPTION_MAX_BYTES: usize = 50;

/// The states a ticket can be in. Any state may follow any other.
#[derive(Clone, Copy, Debug, PartialEq, Eq, Structural)]
pub enum TicketStatus {
    Todo,
    Hold,
    InProgress,
    Done,
}

/// Why a text was refused as a title or a description.
#[derive(Clone, Copy, Debug, PartialEq, Eq, Structural)]
pub enum TicketContentError {
    Empty,
    TitleTooLong,
    DescriptionTooLong,
}

/// What the check of a text of `chars` characters and `bytes` bytes gives
/// against a limit of `max` bytes; `too_long` is the error for a text over
/// the limit.
pub open spec fn content_check(chars: nat, bytes: nat, max: nat, too_long: TicketContentError)
    -> Result<(), TicketContentError> {
    if chars == 0 {
        Err(TicketContentError::Empty)
    } else if bytes > max {
        Err(too_long)
    } else {
        Ok(())
    }
}

/// What the check of `text` as a title gives.
pub open spec fn title_check(text: Seq<char>) -> Result<(), TicketContentError> {
    content_check(
        text.len(),
        encode_utf8(text).len(),
        TITLE_MAX_BYTES as nat,
        TicketContentError::TitleTooLong,
    )
}

/// What the check of `text` as a description gives.
pub open spec fn description_check(text: Seq<char>) -> Result<(), TicketContentError> {
    content_check(
        text.len(),
        encode_utf8(text).len(),
        DESCRIPTION_MAX_BYTES as nat,
        TicketContentError::DescriptionTooLong,
    )
}

/// Checks `title`: it must not be empty, and must not be longer than
/// [`TITLE_MAX_BYTES`] bytes (bytes, not characters).
pub fn validate_title(title: &str) -> (res: Result<(), TicketContentError>)
    ensures
        res == title_check(title@),
{
    if title.is_empty() {
        Err(TicketContentError::Empty)
    } else if title.as_bytes().len() > TITLE_MAX_BYTES {
        Err(TicketContentError::TitleTooLong)
    } else {
        Ok(())
    }
}

/// Checks `description`: it must not be empty, and must not be longer than
/// [`DESCRIPTION_MAX_BYTES`] bytes (bytes, not characters).
pub fn validate_description(description: &str) -> (res: Result<(), TicketContentError>)
    ensures
        res == description_check(description@),
{
    if description.is_empty() {
        Err(TicketContentError::Empty)
    } else if description.as_bytes().len() > DESCRIPTION_MAX_BYTES {
        Err(TicketContentError::DescriptionTooLong)
    } else {
        Ok(())
    }
}

/// The title of a ticket: a text that has passed [`validate_title`].
///
/// The text cannot be changed once the title is built; a changed title is a
/// new value.
#[derive(Debug)]
pub struct TicketTitle(String);

impl View for TicketTitle {
    type V = Seq<char>;

    closed spec fn view(&self) -> Seq<char> {
        self.0@
    }
}

impl TicketTitle {
    /// Every title passes the check of titles.
    #[verifier::type_invariant]
    pub open spec fn is_valid(&self) -> bool {
        title_check(self@) is Ok
    }

    /// Builds a title from `text`, or says why `text` is refused.
    pub fn new(text: String) -> (res: Result<TicketTitle, TicketContentError>)
        ensures
            match res {
                Ok(title) => title_check(text@) is Ok && title@ == text@,
                Err(e) => title_check(text@) == Err::<(), TicketContentError>(e),
            },
    {
        match validate_title(text.as_str()) {
            Ok(()) => Ok(TicketTitle(text)),
            Err(e) => Err(e),
        }
    }

    /// The text of the title, which always passes the check.
    pub fn as_str(&self) -> (text: &str)
        ensures
            text@ == self@,
            title_check(self@) is Ok,
    {
        proof {
            use_type_invariant(self);
        }
        self.0.as_str()
    }

    /// Gives up the title for its text.
    pub fn into_string(self) -> (text: String)
        ensures
            text@ == self@,
            title_check(self@) is Ok,
    {
        proof {
            use_type_invariant(&self);
        }
        self.0
    }
}

impl Clone for TicketTitle {
    fn clone(&self) -> (res: Self)
        ensures
            res@ == self@,
    {
        proof {
            use_type_invariant(self);
        }
        TicketTitle(self.0.clone())
    }
}

impl PartialEq for TicketTitle {
    fn eq(&self, other: &Self) -> (res: bool) {
        self.0 == other.0
    }
}

impl Eq for TicketTitle {}

impl vstd::std_specs::cmp::PartialEqSpecImpl for TicketTitle {
    open spec fn obeys_eq_spec() -> bool {
        true
    }

    open spec fn eq_spec(&self, other: &Self) -> bool {
        self@ == other@
    }
}

impl TryFrom<String> for TicketTitle {
    type Error = TicketContentError;

    fn try_from(value: String) -> (res: Result<Self, TicketContentError>)
        ensures
            match res {
                Ok(title) => title_check(value@) is Ok && title@ == value@,
                Err(e) => title_check(value@) == Err::<(), TicketContentError>(e),
            },
    {
        TicketTitle::new(value)
    }
}

/// What the conversion gives is stated by the `ensures` of `try_from`, over
/// the characters of the text.
impl vstd::std_specs::convert::TryFromSpecImpl<String> for TicketTitle {
    open spec fn obeys_try_from_spec() -> bool {
        false
    }

    open spec fn try_from_spec(v: String) -> Result<Self, TicketContentError> {
        arbitrary()
    }
}

impl TryFrom<&str> for TicketTitle {
    type Error = TicketContentError;

    fn try_from(value: &str) -> (res: Result<Self, TicketContentError>)
        ensures
            match res {
                Ok(title) => title_check(value@) is Ok && title@ == value@,
                Err(e) => title_check(value@) == Err::<(), TicketContentError>(e),
            },
    {
        TicketTitle::new(value.to_owned())
    }
}

/// What the conversion gives is stated by the `ensures` of `try_from`, over
/// the characters of the text.
impl vstd::std_specs::convert::TryFromSpecImpl<&str> for TicketTitle {
    open spec fn obeys_try_from_spec() -> bool {
        false
    }

    open spec fn try_from_spec(v: &str) -> Result<Self, TicketContentError> {
        arbitrary()
    }
}

/// The description of a ticket: a text that has passed [`validate_description`].
///
/// The text cannot be changed once the description is built; a changed description is a
/// new value.
#[derive(Debug)]
pub struct TicketDescription(String);

impl View for TicketDescription {
    type V = Seq<char>;

    closed spec fn view(&self) -> Seq<char> {
        self.0@
    }
}

impl TicketDescription {
    /// Every description passes the check of descriptions.
    #[verifier::type_invariant]
    pub open spec fn is_valid(&self) -> bool {
        description_check(self@) is Ok
    }

    /// Builds a description from `text`, or says why `text` is refused.
    pub fn new(text: String) -> (res: Result<TicketDescription, TicketContentError>)
        ensures
            match res {
                Ok(description) => description_check(text@) is Ok && description@ == text@,
                Err(e) => description_check(text@) == Err::<(), TicketContentError>(e),
            },
    {
        match validate_description(text.as_str()) {
            Ok(()) => Ok(TicketDescription(text)),
            Err(e) => Err(e),
        }
    }

    /// The text of the description, which always passes the check.
    pub fn as_str(&self) -> (text: &str)
        ensures
            text@ == self@,
            description_check(self@) is Ok,
    {
        proof {
            use_type_invariant(self);
        }
        self.0.as_str()
    }

    /// Gives up the description for its text.
    pub fn into_string(self) -> (text: String)
        ensures
            text@ == self@,
            description_check(self@) is Ok,
    {
        proof {
            use_type_invariant(&self);
        }
        self.0
    }
}

impl Clone for TicketDescription {
    fn clone(&self) -> (res: Self)
        ensures
            res@ == self@,
    {
        proof {
            use_type_invariant(self);
        }
        TicketDescription(self.0.clone())
    }
}

impl PartialEq for TicketDescription {
    fn eq(&self, other: &Self) -> (res: bool) {
        self.0 == other.0
    }
}

impl Eq for TicketDescription {}

impl vstd::std_specs::cmp::PartialEqSpecImpl for TicketDescription {
    open spec fn obeys_eq_spec() -> bool {
        true
    }

    open spec fn eq_spec(&self, other: &Self) -> bool {
        self@ == other@
    }
}

impl TryFrom<String> for TicketDescription {
    type Error = TicketContentError;

    fn try_from(value: String) -> (res: Result<Self, TicketContentError>)
        ensures
            match res {
                Ok(description) => description_check(value@) is Ok && description@ == value@,
                Err(e) => description_check(value@) == Err::<(), TicketContentError>(e),
            },
    {
        TicketDescription::new(value)
    }
}

/// What the conversion gives is stated by the `ensures` of `try_from`, over
/// the characters of the text.
impl vstd::std_specs::convert::TryFromSpecImpl<String> for TicketDescription {
    open spec fn obeys_try_from_spec() -> bool {
        false
    }

    open spec fn try_from_spec(v: String) -> Result<Self, TicketContentError> {
        arbitrary()
    }
}

impl TryFrom<&str> for TicketDescription {
    type Error = TicketContentError;

    fn try_from(value: &str) -> (res: Result<Self, TicketContentError>)
        ensures
            match res {
                Ok(description) => description_check(value@) is Ok && description@ == value@,
                Err(e) => description_check(value@) == Err::<(), TicketContentError>(e),
            },
    {
        TicketDescription::new(value.to_owned())
    }
}

/// What the conversion gives is stated by the `ensures` of `try_from`, over
/// the characters of the text.
impl vstd::std_specs::convert::TryFromSpecImpl<&str> for TicketDescription {
    open spec fn obeys_try_from_spec() -> bool {
        false
    }

    open spec fn try_from_spec(v: &str) -> Result<Self, TicketContentError> {
        arbitrary()
    }
}

/// Why an operation on the store, or the reading of a status, failed.
#[derive(Clone, Copy, Debug, PartialEq, Eq, Structural)]
pub enum Errors {
    GetError,
    CreateError,
    UpdateError,
    StatusUnParseable,
}

impl TicketContentError {
    /// The message of the error.
    pub open spec fn message_text(self) -> Seq<char> {
        match self {
            TicketContentError::Empty => "the field cannot be empty"@,
            TicketContentError::TitleTooLong => "the tilte cannot be longer than 50 bytes"@,
            TicketContentError::DescriptionTooLong => "the description cannot be longer than 500 bytes"@,
        }
    }

    /// The message of the error, as a text to show.
    pub fn message(&self) -> (text: String)
        ensures
            text@ == self.message_text(),
    {
        match self {
            TicketContentError::Empty => "the field cannot be empty".to_owned(),
            TicketContentError::TitleTooLong => "the tilte cannot be longer than 50 bytes".to_owned(),
            TicketContentError::DescriptionTooLong => "the description cannot be longer than 500 bytes".to_owned(),
        }
    }
}

impl Errors {
    /// The message of the error.
    pub open spec fn message_text(self) -> Seq<char> {
        match self {
            Errors::GetError => "Failed to get the value"@,
            Errors::CreateError => "Failed to create the value"@,
            Errors::UpdateError => "Failed to update the value"@,
            Errors::StatusUnParseable => "Status is unparseable"@,
        }
    }

    /// The message of the error, as a text to show.
    pub fn message(&self) -> (text: String)
        ensures
            text@ == self.message_text(),
    {
        match self {
            Errors::GetError => "Failed to get the value".to_owned(),
            Errors::CreateError => "Failed to create the value".to_owned(),
            Errors::UpdateError => "Failed to update the value".to_owned(),
            Errors::StatusUnParseable => "Status is unparseable".to_owned(),
        }
    }
}

/// The lowercase form of `text` as `str::to_lowercase` of the standard
/// library gives it: each character replaced by its Unicode lowercase
/// mapping.
pub uninterp spec fn lowercase_of(text: Seq<char>) -> Seq<char>;

/// Calls `str::to_lowercase`. The contract only names the result: the
/// Unicode mapping itself is not stated here.
#[verifier::external_body]
fn to_lowercase(text: &str) -> (lowered: String)
    ensures
        lowered@ == lowercase_of(text@),
{
    text.to_lowercase()
}

/// Whether two texts hold the same characters.
fn same_text(a: &str, b: &str) -> (same: bool)
    ensures
        same == (a@ == b@),
{
    let x = a.as_bytes();
    let y = b.as_bytes();
    proof {
        encode_utf8_decode_utf8(a@);
        encode_utf8_decode_utf8(b@);
    }
    if x.len() != y.len() {
        return false;
    }
    let mut i: usize = 0;
    while i < x.len()
        invariant
            i <= x.len(),
            x.len() == y.len(),
            x@ == encode_utf8(a@),
            y@ == encode_utf8(b@),
            forall|j: int| 0 <= j < i ==> x@[j] == y@[j],
        decreases x.len() - i,
    {
        if x[i] != y[i] {
            return false;
        }
        i += 1;
    }
    assert(x@ =~= y@);
    true
}

/// The status that a name in lowercase stands for, if it is one of the
/// four names.
pub open spec fn status_named(lowered: Seq<char>) -> Option<TicketStatus> {
    if lowered == "todo"@ {
        Some(TicketStatus::Todo)
    } else if lowered == "inprogress"@ {
        Some(TicketStatus::InProgress)
    } else if lowered == "done"@ {
        Some(TicketStatus::Done)
    } else if lowered == "hold"@ {
        Some(TicketStatus::Hold)
    } else {
        None
    }
}

/// What reading a status gives, once the name is in lowercase.
pub open spec fn status_reading(lowered: Seq<char>) -> Result<TicketStatus, Errors> {
    match status_named(lowered) {
        Some(status) => Ok(status),
        None => Err(Errors::StatusUnParseable),
    }
}

/// Reads a status from a name that is already in lowercase: `todo`,
/// `inprogress`, `done` or `hold`. Any other text is unparseable.
pub fn status_from_lowercase(lowered: &str) -> (res: Result<TicketStatus, Errors>)
    ensures
        res == status_reading(lowered@),
{
    if same_text(lowered, "todo") {
        Ok(TicketStatus::Todo)
    } else if same_text(lowered, "inprogress") {
        Ok(TicketStatus::InProgress)
    } else if same_text(lowered, "done") {
        Ok(TicketStatus::Done)
    } else if same_text(lowered, "hold") {
        Ok(TicketStatus::Hold)
    } else {
        Err(Errors::StatusUnParseable)
    }
}

/// Reads a status from its name, whatever the case of its letters.
pub fn identify_status(status: String) -> (res: Result<TicketStatus, Errors>)
    ensures
        res == status_reading(lowercase_of(status@)),
{
    let lowered = to_lowercase(status.as_str());
    status_from_lowercase(lowered.as_str())
}

/// What a ticket holds, as plain values.
pub struct TicketView {
    pub id: u128,
    pub title: Seq<char>,
    pub description: Seq<char>,
    pub status: TicketStatus,
}

/// A stored ticket. Callers get copies of it, never the stored one.
#[derive(Debug)]
pub struct Ticket {
    pub id: TicketId,
    pub title: TicketTitle,
    pub description: TicketDescription,
    pub status: TicketStatus,
}

impl View for Ticket {
    type V = TicketView;

    open spec fn view(&self) -> TicketView {
        TicketView {
            id: self.id@,
            title: self.title@,
            description: self.description@,
            status: self.status,
        }
    }
}

impl Clone for Ticket {
    fn clone(&self) -> (res: Self)
        ensures
            res@ == self@,
    {
        Ticket {
            id: self.id,
            title: self.title.clone(),
            description: self.description.clone(),
            status: self.status,
        }
    }
}

impl PartialEq for Ticket {
    fn eq(&self, other: &Self) -> (res: bool) {
        self.id.as_u128() == other.id.as_u128() && self.title == other.title
            && self.description == other.description && self.status == other.status
    }
}

impl Eq for Ticket {}

impl vstd::std_specs::cmp::PartialEqSpecImpl for Ticket {
    open spec fn obeys_eq_spec() -> bool {
        true
    }

    open spec fn eq_spec(&self, other: &Self) -> bool {
        self@ == other@
    }
}

/// What a draft holds, as plain values.
pub struct TicketDraftView {
    pub title: Seq<char>,
    pub description: Seq<char>,
}

/// What a new ticket is made from. The status is not part of it: a new
/// ticket is always `Todo`.
#[derive(Debug)]
pub struct TicketDraft {
    pub title: TicketTitle,
    pub description: TicketDescription,
}

impl View for TicketDraft {
    type V = TicketDraftView;

    open spec fn view(&self) -> TicketDraftView {
        TicketDraftView { title: self.title@, description: self.description@ }
    }
}

impl Clone for TicketDraft {
    fn clone(&self) -> (res: Self)
        ensures
            res@ == self@,
    {
        TicketDraft { title: self.title.clone(), description: self.description.clone() }
    }
}

impl PartialEq for TicketDraft {
    fn eq(&self, other: &Self) -> (res: bool) {
        self.title == other.title && self.description == other.description
    }
}

impl Eq for TicketDraft {}

impl vstd::std_specs::cmp::PartialEqSpecImpl for TicketDraft {
    open spec fn obeys_eq_spec() -> bool {
        true
    }

    open spec fn eq_spec(&self, other: &Self) -> bool {
        self@ == other@
    }
}

/// What a template holds, as plain values.
pub struct TicketTemplateView {
    pub title: Option<Seq<char>>,
    pub description: Option<Seq<char>>,
    pub status: Option<TicketStatus>,
}

/// A change to a ticket. A field that is `None` leaves the ticket's field
/// as it is.
pub struct TicketTemplate {
    pub title: Option<TicketTitle>,
    pub description: Option<TicketDescription>,
    pub status: Option<TicketStatus>,
}

impl View for TicketTemplate {
    type V = TicketTemplateView;

    open spec fn view(&self) -> TicketTemplateView {
        TicketTemplateView {
            title: match self.title {
                Some(t) => Some(t@),
                None => None,
            },
            description: match self.description {
                Some(d) => Some(d@),
                None => None,
            },
            status: self.status,
        }
    }
}

/// The ticket that a draft becomes under the identifier `id`.
pub open spec fn created(id: u128, draft: TicketDraftView) -> TicketView {
    TicketView {
        id,
        title: draft.title,
        description: draft.description,
        status: TicketStatus::Todo,
    }
}

/// The ticket that `ticket` becomes under `template`: each field that the
/// template holds replaces the ticket's, the others and the identifier stay.
pub open spec fn patched(ticket: TicketView, template: TicketTemplateView) -> TicketView {
    TicketView {
        id: ticket.id,
        title: match template.title {
            Some(t) => t,
            None => ticket.title,
        },
        description: match template.description {
            Some(d) => d,
            None => ticket.description,
        },
        status: match template.status {
            Some(s) => s,
            None => ticket.status,
        },
    }
}

/// Whether the title and the description of `ticket` both pass their
/// checks.
pub open spec fn well_formed(ticket: TicketView) -> bool {
    title_check(ticket.title) is Ok && description_check(ticket.description) is Ok
}

/// An empty text is refused, as a title and as a description, with
/// `Empty`.
pub proof fn lemma_empty_text_refused(text: Seq<char>)
    requires
        text.len() == 0,
    ensures
        title_check(text) == Err::<(), TicketContentError>(TicketContentError::Empty),
        description_check(text) == Err::<(), TicketContentError>(TicketContentError::Empty),
{
}

/// A text of more than 50 bytes is refused as a title with `TitleTooLong`.
pub proof fn lemma_long_title_refused(text: Seq<char>)
    requires
        encode_utf8(text).len() > 50,
    ensures
        title_check(text) == Err::<(), TicketContentError>(TicketContentError::TitleTooLong),
{
    assert(text.len() != 0) by {
        if text.len() == 0 {
            assert(encode_utf8(text).len() == 0);
        }
    }
}

/// A text of more than 50 bytes is refused as a description with
/// `DescriptionTooLong`: 50 bytes is the limit in force.
pub proof fn lemma_long_description_refused(text: Seq<char>)
    requires
        encode_utf8(text).len() > 50,
    ensures
        description_check(text) == Err::<(), TicketContentError>(
            TicketContentError::DescriptionTooLong,
        ),
{
    assert(text.len() != 0) by {
        if text.len() == 0 {
            assert(encode_utf8(text).len() == 0);
        }
    }
}

/// A text is accepted, as a title and as a description, exactly when it is
/// not empty and has at most 50 bytes.
pub proof fn lemma_accepted_texts(text: Seq<char>)
    ensures
        title_check(text) is Ok <==> text.len() > 0 && encode_utf8(text).len() <= 50,
        description_check(text) is Ok <==> text.len() > 0 && encode_utf8(text).len() <= 50,
{
}

} // verus!
