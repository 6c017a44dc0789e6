//! The records of the contact form and of its archive.

use vstd::prelude::*;
use vstd::std_specs::convert::FromSpecImpl;
use crate::time::Timestamp;

verus! {

/// Form data received from the contact form.
#[derive(Debug, Clone, PartialEq, Eq)]
pub struct ContactMessageForm {
    /// A field that no person sees: only a program fills it in.
    pub company: Option<String>,
    pub name: String,
    pub email: String,
    pub phone: Option<String>,
    pub subject: Option<String>,
    pub message: String,
}

/// A contact message on its way into the table of active messages. With an
/// `id` it takes that place; without one the store assigns the next.
#[derive(Debug, Clone, PartialEq, Eq)]
pub struct ContactMessage {
    pub id: Option<i64>,
    pub name: String,
    pub email: String,
    pub phone: Option<String>,
    pub subject: Option<String>,
    pub message: String,
}

/// A row of the table of active messages.
#[derive(Debug, Clone, PartialEq, Eq)]
pub struct Message {
    pub id: i64,
    pub name: String,
    pub email: String,
    pub phone: Option<String>,
    pub subject: Option<String>,
    pub message: String,
    pub created_at: Timestamp,
}

/// A row of the archive.
#[derive(Debug, Clone, PartialEq, Eq)]
pub struct ArchivedMessage {
    /// The row's own key in the archive.
    pub id: i64,
    /// The `id` that the message had while it was active.
    pub original_id: i64,
    pub name: String,
    pub email: String,
    pub phone: Option<String>,
    pub subject: Option<String>,
    pub message: String,
    pub created_at: Timestamp,
    pub archived_at: Timestamp,
}

/// A message on its way into the archive, which assigns the row's key and
/// the time of archival.
#[derive(Debug, Clone, PartialEq, Eq)]
pub struct NewArchivedMessage {
    pub original_id: i64,
    pub name: String,
    pub email: String,
    pub phone: Option<String>,
    pub subject: Option<String>,
    pub message: String,
    pub created_at: Timestamp,
}

/// The two moves between the active table and the archive.
#[derive(Debug, Clone, Copy, PartialEq, Eq, Structural)]
pub enum ArchiveAction {
    Archive,
    Restore,
}

/// The body of a request to move a message.
#[derive(Debug, Clone, PartialEq, Eq)]
pub struct ArchiveRequest {
    pub action: String,
}

/// The body of a login request.
#[derive(Debug, Clone, PartialEq, Eq)]
pub struct AdminLoginRequest {
    pub password: String,
}

/// What the handlers share: the hash that the admin's password must match.
#[derive(Debug, Clone, PartialEq, Eq)]
pub struct AppState {
    pub admin_password_hash: String,
}

/// One page of active messages.
#[derive(Debug, Clone, PartialEq, Eq)]
pub struct PaginatedMessages {
    pub data: Vec<Message>,
    pub total: i64,
    pub page: i64,
    pub limit: i64,
}

/// One page of the archive.
#[derive(Debug, Clone, PartialEq, Eq)]
pub struct PaginatedArchivedMessages {
    pub data: Vec<ArchivedMessage>,
    pub total: i64,
    pub page: i64,
    pub limit: i64,
}

impl ContactMessageForm {
    /// A submission comes from a program when the hidden field is filled in.
    pub open spec fn bot(self) -> bool {
        match self.company {
            Some(c) => c@.len() > 0,
            None => false,
        }
    }

    /// Check if this submission is likely from a bot.
    pub fn is_bot(&self) -> (r: bool)
        ensures
            r == self.bot(),
    {
        match &self.company {
            Some(c) => !c.as_str().is_empty(),
            None => false,
        }
    }
}

impl From<ContactMessageForm> for ContactMessage {
    fn from(form: ContactMessageForm) -> (r: ContactMessage) {
        ContactMessage {
            id: None,
            name: form.name,
            email: form.email,
            phone: form.phone,
            subject: form.subject,
            message: form.message,
        }
    }
}

impl FromSpecImpl<ContactMessageForm> for ContactMessage {
    open spec fn obeys_from_spec() -> bool {
        true
    }

    open spec fn from_spec(form: ContactMessageForm) -> ContactMessage {
        ContactMessage::of_form(form)
    }
}

impl ContactMessage {
    /// The message that a form holds: its fields but the hidden one, and no
    /// `id` yet.
    pub open spec fn of_form(form: ContactMessageForm) -> ContactMessage {
        ContactMessage {
            id: None,
            name: form.name,
            email: form.email,
            phone: form.phone,
            subject: form.subject,
            message: form.message,
        }
    }
}

/// What is stored of a submission of the contact form: nothing where it
/// comes from a program, else the message without an `id`, which the store
/// assigns.
pub fn submit_message(form: ContactMessageForm) -> (r: Option<ContactMessage>)
    ensures
        form.bot() ==> r is None,
        !form.bot() ==> r == Some(ContactMessage::of_form(form)),
{
    if form.is_bot() {
        None
    } else {
        Some(ContactMessage::from(form))
    }
}

/// A copy of an optional text.
pub fn copy_of(text: &Option<String>) -> (r: Option<String>)
    ensures
        r == *text,
{
    match text {
        Some(t) => Some(t.clone()),
        None => None,
    }
}

impl Message {
    /// A copy of this message.
    pub fn duplicate(&self) -> (r: Message)
        ensures
            r == *self,
    {
        Message {
            id: self.id,
            name: self.name.clone(),
            email: self.email.clone(),
            phone: copy_of(&self.phone),
            subject: copy_of(&self.subject),
            message: self.message.clone(),
            created_at: self.created_at,
        }
    }

    /// The message as it goes into the archive: every field kept, the `id`
    /// as `original_id`.
    pub open spec fn archived(self) -> NewArchivedMessage {
        NewArchivedMessage {
            original_id: self.id,
            name: self.name,
            email: self.email,
            phone: self.phone,
            subject: self.subject,
            message: self.message,
            created_at: self.created_at,
        }
    }

    /// Convert a Message into a NewArchivedMessage suitable for inserting
    /// into the archive.
    pub fn into_archived(self) -> (r: NewArchivedMessage)
        ensures
            r == self.archived(),
    {
        NewArchivedMessage {
            original_id: self.id,
            name: self.name,
            email: self.email,
            phone: self.phone,
            subject: self.subject,
            message: self.message,
            created_at: self.created_at,
        }
    }
}

impl NewArchivedMessage {
    /// The archive row that this message becomes under the key `id` at the
    /// time `now`.
    pub open spec fn row(self, id: i64, now: Timestamp) -> ArchivedMessage {
        ArchivedMessage {
            id,
            original_id: self.original_id,
            name: self.name,
            email: self.email,
            phone: self.phone,
            subject: self.subject,
            message: self.message,
            created_at: self.created_at,
            archived_at: now,
        }
    }

    /// The archive row that this message becomes under the key `id` at the
    /// time `now`.
    pub fn into_row(self, id: i64, now: Timestamp) -> (r: ArchivedMessage)
        ensures
            r == self.row(id, now),
    {
        ArchivedMessage {
            id,
            original_id: self.original_id,
            name: self.name,
            email: self.email,
            phone: self.phone,
            subject: self.subject,
            message: self.message,
            created_at: self.created_at,
            archived_at: now,
        }
    }
}

impl ArchivedMessage {
    /// A copy of this row.
    pub fn duplicate(&self) -> (r: ArchivedMessage)
        ensures
            r == *self,
    {
        ArchivedMessage {
            id: self.id,
            original_id: self.original_id,
            name: self.name.clone(),
            email: self.email.clone(),
            phone: copy_of(&self.phone),
            subject: copy_of(&self.subject),
            message: self.message.clone(),
            created_at: self.created_at,
            archived_at: self.archived_at,
        }
    }

    /// The active message that this row is restored to: every field as it
    /// was, under the `id` that the message had before.
    pub open spec fn restored(self) -> Message {
        Message {
            id: self.original_id,
            name: self.name,
            email: self.email,
            phone: self.phone,
            subject: self.subject,
            message: self.message,
            created_at: self.created_at,
        }
    }

    /// The active message that this row is restored to.
    pub fn into_restored(self) -> (r: Message)
        ensures
            r == self.restored(),
    {
        Message {
            id: self.original_id,
            name: self.name,
            email: self.email,
            phone: self.phone,
            subject: self.subject,
            message: self.message,
            created_at: self.created_at,
        }
    }
}

impl ArchiveAction {
    /// The move that a request's word asks for: `archive` or `restore`,
    /// written exactly so.
    pub open spec fn named(word: Seq<char>) -> Option<ArchiveAction> {
        if word == "archive"@ {
            Some(ArchiveAction::Archive)
        } else if word == "restore"@ {
            Some(ArchiveAction::Restore)
        } else {
            None
        }
    }

    /// The move that a request's word asks for, if it names one.
    pub fn parse(word: &str) -> (r: Option<ArchiveAction>)
        ensures
            r == Self::named(word@),
    {
        if crate::text::same_text(word, "archive") {
            Some(ArchiveAction::Archive)
        } else if crate::text::same_text(word, "restore") {
            Some(ArchiveAction::Restore)
        } else {
            None
        }
    }
}

/// Archiving a message and restoring the row gives the message back as it
/// was, whatever key and time of archival the row had.
pub proof fn archived_row_restores(m: Message, id: i64, now: Timestamp)
    ensures
        m.archived().row(id, now).restored() == m,
        m.archived().row(id, now).original_id == m.id,
        m.archived().row(id, now).id == id,
        m.archived().row(id, now).archived_at == now,
{
}

} // verus!
