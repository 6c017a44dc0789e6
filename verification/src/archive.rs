//! The move of a message between the table of active messages and the
//! archive. Each move changes both tables or neither.
//!
//! A move is a plan of two writes that are made together. [`MessageStore`]
//! holds the two tables in memory and carries a plan out with
//! [`MessageStore::commit`], which takes the first write back where the
//! second fails; a database carries the same plan out in one transaction.

use vstd::prelude::*;
use crate::error::AppError;
use crate::models::{
    ArchiveAction, ArchiveRequest, ArchivedMessage, Message, NewArchivedMessage,
};
use crate::time::Timestamp;

verus! {

/// The two tables as sequences of rows, and the key that the archive assigns
/// to its next row.
pub struct Tables {
    pub active: Seq<Message>,
    pub archive: Seq<ArchivedMessage>,
    pub next_archive_id: i64,
}

/// One write to the tables.
#[derive(Debug, Clone, PartialEq, Eq)]
pub enum Write {
    /// Put a message into the archive at the given time; the archive
    /// assigns the row's key.
    ArchiveInsert(NewArchivedMessage, Timestamp),
    /// Delete the active message with this `id`.
    ActiveDelete(i64),
    /// Put a message into the active table under its own `id`.
    ActiveInsert(Message),
    /// Delete the archive row with this key.
    ArchiveDelete(i64),
}

/// How a move ended.
pub enum Moved {
    /// Both tables were changed.
    Done,
    /// There is no row to move; nothing was changed.
    NotFound,
    /// The place in the active table is taken; nothing was changed.
    Conflict,
    /// The archive has no key left to assign; nothing was changed.
    Exhausted,
}

/// Whether the active table holds a message with this `id`.
pub open spec fn is_active(active: Seq<Message>, id: i64) -> bool {
    exists|i: int| 0 <= i < active.len() && (#[trigger] active[i]).id == id
}

/// The place of the message with this `id` in the active table.
pub open spec fn active_place(active: Seq<Message>, id: i64) -> int {
    choose|i: int| 0 <= i < active.len() && (#[trigger] active[i]).id == id
}

/// Whether the archive holds a row with this key.
pub open spec fn is_archived_row(archive: Seq<ArchivedMessage>, row_id: i64) -> bool {
    exists|i: int| 0 <= i < archive.len() && (#[trigger] archive[i]).id == row_id
}

/// The place of the row with this key in the archive.
pub open spec fn archive_place(archive: Seq<ArchivedMessage>, row_id: i64) -> int {
    choose|i: int| 0 <= i < archive.len() && (#[trigger] archive[i]).id == row_id
}

/// Among the first `n` rows of the archive, the place of the row that was
/// archived last for the message `id`; of several archived at the same
/// time, the one that stands last.
pub open spec fn latest_in(archive: Seq<ArchivedMessage>, id: i64, n: int) -> Option<int>
    decreases n,
{
    if n <= 0 || n > archive.len() {
        None
    } else {
        let earlier = latest_in(archive, id, n - 1);
        let row = archive[n - 1];
        if row.original_id == id && (earlier is None || !row.archived_at.before(
            archive[earlier.unwrap()].archived_at,
        )) {
            Some(n - 1)
        } else {
            earlier
        }
    }
}

/// The place of the row that was archived last for the message `id`.
pub open spec fn latest(archive: Seq<ArchivedMessage>, id: i64) -> Option<int> {
    latest_in(archive, id, archive.len() as int)
}

impl Tables {
    /// No two active messages share an `id`, no two archive rows share a
    /// key, and every key in the archive is below the next to be assigned.
    pub open spec fn wf(self) -> bool {
        &&& forall|i: int, j: int|
            0 <= i < j < self.active.len() ==> (#[trigger] self.active[i]).id != (
            #[trigger] self.active[j]).id
        &&& forall|i: int|
            0 <= i < self.archive.len() ==> (#[trigger] self.archive[i]).id
                < self.next_archive_id
        &&& forall|i: int, j: int|
            0 <= i < j < self.archive.len() ==> (#[trigger] self.archive[i]).id != (
            #[trigger] self.archive[j]).id
    }

    /// The tables after one write, or `None` where the write fails: an
    /// insert into the archive when no key is left, an insert into the
    /// active table under an `id` that is taken, a delete of a row that is
    /// not there.
    pub open spec fn write(self, w: Write) -> Option<Tables> {
        match w {
            Write::ArchiveInsert(m, now) => if self.next_archive_id == i64::MAX {
                None
            } else {
                Some(
                    Tables {
                        active: self.active,
                        archive: self.archive.push(m.row(self.next_archive_id, now)),
                        next_archive_id: (self.next_archive_id + 1) as i64,
                    },
                )
            },
            Write::ActiveDelete(id) => if is_active(self.active, id) {
                Some(
                    Tables {
                        active: self.active.remove(active_place(self.active, id)),
                        archive: self.archive,
                        next_archive_id: self.next_archive_id,
                    },
                )
            } else {
                None
            },
            Write::ActiveInsert(m) => if is_active(self.active, m.id) {
                None
            } else {
                Some(
                    Tables {
                        active: self.active.push(m),
                        archive: self.archive,
                        next_archive_id: self.next_archive_id,
                    },
                )
            },
            Write::ArchiveDelete(row_id) => if is_archived_row(self.archive, row_id) {
                Some(
                    Tables {
                        active: self.active,
                        archive: self.archive.remove(archive_place(self.archive, row_id)),
                        next_archive_id: self.next_archive_id,
                    },
                )
            } else {
                None
            },
        }
    }

    /// The tables after two writes that are made together: both take
    /// effect, or, where either fails, neither.
    pub open spec fn commit(self, first: Write, second: Write) -> Option<Tables> {
        match self.write(first) {
            Some(t) => t.write(second),
            None => None,
        }
    }

    /// The tables after an attempt to archive the active message `id` at the
    /// time `now`, and how it ended.
    pub open spec fn archive_step(self, id: i64, now: Timestamp) -> (Tables, Moved) {
        if !is_active(self.active, id) {
            (self, Moved::NotFound)
        } else if self.next_archive_id == i64::MAX {
            (self, Moved::Exhausted)
        } else {
            let i = active_place(self.active, id);
            (
                Tables {
                    active: self.active.remove(i),
                    archive: self.archive.push(
                        self.active[i].archived().row(self.next_archive_id, now),
                    ),
                    next_archive_id: (self.next_archive_id + 1) as i64,
                },
                Moved::Done,
            )
        }
    }

    /// The tables after an attempt to restore the message `id` from the row
    /// that was archived last for it, and how it ended.
    pub open spec fn restore_step(self, id: i64) -> (Tables, Moved) {
        match latest(self.archive, id) {
            None => (self, Moved::NotFound),
            Some(k) => if is_active(self.active, id) {
                (self, Moved::Conflict)
            } else {
                (
                    Tables {
                        active: self.active.push(self.archive[k].restored()),
                        archive: self.archive.remove(k),
                        next_archive_id: self.next_archive_id,
                    },
                    Moved::Done,
                )
            },
        }
    }

    /// The tables after the archive row with the key `row_id` is deleted for
    /// good, if there is one.
    pub open spec fn purge_step(self, row_id: i64) -> Tables {
        if is_archived_row(self.archive, row_id) {
            Tables {
                active: self.active,
                archive: self.archive.remove(archive_place(self.archive, row_id)),
                next_archive_id: self.next_archive_id,
            }
        } else {
            self
        }
    }

    /// The tables after a new message is put into the active table under
    /// its own `id`, and how it ended.
    pub open spec fn insert_step(self, message: Message) -> (Tables, Moved) {
        if is_active(self.active, message.id) {
            (self, Moved::Conflict)
        } else {
            (
                Tables {
                    active: self.active.push(message),
                    archive: self.archive,
                    next_archive_id: self.next_archive_id,
                },
                Moved::Done,
            )
        }
    }
}

/// Whether a result reports the ending `m`.
pub open spec fn tells(r: Result<(), AppError>, m: Moved) -> bool {
    match m {
        Moved::Done => r is Ok,
        Moved::NotFound => r == Err::<(), AppError>(AppError::NotFound),
        Moved::Conflict => r == Err::<(), AppError>(AppError::Conflict),
        Moved::Exhausted => r matches Err(AppError::Database(m)) && m@
            == "the archive has no key left"@,
    }
}

/// What `latest_in` finds is a row of the message `id` among the first `n`,
/// and none of them was archived later; it finds nothing only where none of
/// them belongs to `id`.
pub proof fn latest_is_most_recent(archive: Seq<ArchivedMessage>, id: i64, n: int)
    requires
        0 <= n <= archive.len(),
    ensures
        match latest_in(archive, id, n) {
            Some(k) => {
                &&& 0 <= k < n
                &&& archive[k].original_id == id
                &&& forall|j: int|
                    0 <= j < n && (#[trigger] archive[j]).original_id == id
                        ==> !archive[k].archived_at.before(archive[j].archived_at)
            },
            None => forall|j: int| 0 <= j < n ==> (#[trigger] archive[j]).original_id != id,
        },
    decreases n,
{
    if n > 0 {
        latest_is_most_recent(archive, id, n - 1);
    }
}

/// The two writes that archive a message at the time `now`: the message
/// goes into the archive, then leaves the active table.
pub fn archive_plan(message: Message, now: Timestamp) -> (plan: (Write, Write))
    ensures
        plan.0 == Write::ArchiveInsert(message.archived(), now),
        plan.1 == Write::ActiveDelete(message.id),
{
    let id = message.id;
    (Write::ArchiveInsert(message.into_archived(), now), Write::ActiveDelete(id))
}

/// The two writes that restore a message from an archive row: the message
/// goes back into the active table under the `id` it had, then that very
/// row leaves the archive.
pub fn restore_plan(row: ArchivedMessage) -> (plan: (Write, Write))
    ensures
        plan.0 == Write::ActiveInsert(row.restored()),
        plan.1 == Write::ArchiveDelete(row.id),
{
    let row_id = row.id;
    (Write::ActiveInsert(row.into_restored()), Write::ArchiveDelete(row_id))
}

/// Archiving an active message is the two writes of its plan made
/// together; they fail only where the archive has no key left.
pub proof fn archive_is_its_plan(t: Tables, id: i64, now: Timestamp)
    requires
        t.wf(),
        is_active(t.active, id),
    ensures
        ({
            let message = t.active[active_place(t.active, id)];
            let done = t.commit(
                Write::ArchiveInsert(message.archived(), now),
                Write::ActiveDelete(id),
            );
            match done {
                Some(after) => t.archive_step(id, now) == (after, Moved::Done),
                None => t.archive_step(id, now) == (t, Moved::Exhausted),
            }
        }),
{
}

/// Restoring a message is the two writes of the plan for the row that was
/// archived last for it, made together; they fail only where the `id` is
/// taken by an active message.
pub proof fn restore_is_its_plan(t: Tables, id: i64)
    requires
        t.wf(),
        latest(t.archive, id) is Some,
    ensures
        ({
            let row = t.archive[latest(t.archive, id).unwrap()];
            let done = t.commit(Write::ActiveInsert(row.restored()), Write::ArchiveDelete(row.id));
            match done {
                Some(after) => t.restore_step(id) == (after, Moved::Done),
                None => t.restore_step(id) == (t, Moved::Conflict),
            }
        }),
{
    latest_is_most_recent(t.archive, id, t.archive.len() as int);
    let k = latest(t.archive, id).unwrap();
    assert(is_archived_row(t.archive, t.archive[k].id));
}

/// What takes a write back.
enum Undo {
    /// Drop the last row of the archive and give its key back.
    ArchiveInsert,
    /// Put the message back at its place in the active table.
    ActiveDelete(usize, Message),
    /// Drop the last message of the active table.
    ActiveInsert,
    /// Put the row back at its place in the archive.
    ArchiveDelete(usize, ArchivedMessage),
}

/// Whether `u` takes the tables from `after` back to `before`.
spec fn undoes(u: Undo, before: Tables, after: Tables) -> bool {
    match u {
        Undo::ArchiveInsert => {
            &&& after.archive.len() > 0
            &&& before.active == after.active
            &&& before.archive == after.archive.drop_last()
            &&& before.next_archive_id + 1 == after.next_archive_id
        },
        Undo::ActiveDelete(i, m) => {
            &&& i <= after.active.len()
            &&& before.active == after.active.insert(i as int, m)
            &&& before.archive == after.archive
            &&& before.next_archive_id == after.next_archive_id
        },
        Undo::ActiveInsert => {
            &&& after.active.len() > 0
            &&& before.active == after.active.drop_last()
            &&& before.archive == after.archive
            &&& before.next_archive_id == after.next_archive_id
        },
        Undo::ArchiveDelete(i, r) => {
            &&& i <= after.archive.len()
            &&& before.active == after.active
            &&& before.archive == after.archive.insert(i as int, r)
            &&& before.next_archive_id == after.next_archive_id
        },
    }
}

/// The table of active messages and the archive, held in memory.
#[derive(Debug, Clone, PartialEq, Eq)]
pub struct MessageStore {
    pub active: Vec<Message>,
    pub archive: Vec<ArchivedMessage>,
    pub next_archive_id: i64,
}

impl View for MessageStore {
    type V = Tables;

    open spec fn view(&self) -> Tables {
        Tables {
            active: self.active@,
            archive: self.archive@,
            next_archive_id: self.next_archive_id,
        }
    }
}

impl MessageStore {
    /// Two empty tables; the archive's first key is 1.
    pub fn new() -> (s: MessageStore)
        ensures
            s@.wf(),
            s@.active.len() == 0,
            s@.archive.len() == 0,
            s@.next_archive_id == 1,
    {
        MessageStore { active: Vec::new(), archive: Vec::new(), next_archive_id: 1 }
    }

    /// The place of the active message `id`, if there is one.
    pub fn find_active(&self, id: i64) -> (r: Option<usize>)
        ensures
            r is Some == is_active(self@.active, id),
            r matches Some(i) ==> i < self@.active.len() && self@.active[i as int].id == id,
            self@.wf() && r is Some ==> r.unwrap() == active_place(self@.active, id),
    {
        let mut i: usize = 0;
        while i < self.active.len()
            invariant
                i <= self.active@.len(),
                forall|j: int| 0 <= j < i ==> (#[trigger] self.active@[j]).id != id,
            decreases self.active@.len() - i,
        {
            if self.active[i].id == id {
                return Some(i);
            }
            i += 1;
        }
        None
    }

    /// The place of the archive row with the key `row_id`, if there is one.
    pub fn find_row(&self, row_id: i64) -> (r: Option<usize>)
        ensures
            r is Some == is_archived_row(self@.archive, row_id),
            r matches Some(i) ==> i < self@.archive.len() && self@.archive[i as int].id == row_id,
            self@.wf() && r is Some ==> r.unwrap() == archive_place(self@.archive, row_id),
    {
        let mut i: usize = 0;
        while i < self.archive.len()
            invariant
                i <= self.archive@.len(),
                forall|j: int| 0 <= j < i ==> (#[trigger] self.archive@[j]).id != row_id,
            decreases self.archive@.len() - i,
        {
            if self.archive[i].id == row_id {
                return Some(i);
            }
            i += 1;
        }
        None
    }

    /// The place of the row that was archived last for the message `id`.
    pub fn find_latest(&self, id: i64) -> (r: Option<usize>)
        ensures
            match r {
                Some(k) => latest(self@.archive, id) == Some(k as int) && k < self@.archive.len(),
                None => latest(self@.archive, id) is None,
            },
    {
        let mut found: Option<usize> = None;
        let mut i: usize = 0;
        while i < self.archive.len()
            invariant
                i <= self.archive@.len(),
                match found {
                    Some(k) => latest_in(self@.archive, id, i as int) == Some(k as int) && k < i,
                    None => latest_in(self@.archive, id, i as int) is None,
                },
            decreases self.archive@.len() - i,
        {
            if self.archive[i].original_id == id {
                let later = match found {
                    Some(k) => !self.archive[i].archived_at.is_before(&self.archive[k].archived_at),
                    None => true,
                };
                if later {
                    found = Some(i);
                }
            }
            i += 1;
        }
        found
    }

    /// Make one write, if it can be made, and say how to take it back.
    fn write(&mut self, w: Write) -> (u: Option<Undo>)
        requires
            old(self)@.wf(),
        ensures
            match old(self)@.write(w) {
                Some(after) => final(self)@ == after && after.wf() && u is Some && undoes(
                    u.unwrap(),
                    old(self)@,
                    after,
                ),
                None => final(self)@ == old(self)@ && u is None,
            },
    {
        match w {
            Write::ArchiveInsert(m, now) => {
                if self.next_archive_id == i64::MAX {
                    return None;
                }
                let row_id = self.next_archive_id;
                self.archive.push(m.into_row(row_id, now));
                self.next_archive_id = row_id + 1;
                assert(self@.archive.drop_last() =~= old(self)@.archive);
                Some(Undo::ArchiveInsert)
            },
            Write::ActiveDelete(id) => match self.find_active(id) {
                Some(place) => {
                    let message = self.active.remove(place);
                    assert(self@.active.insert(place as int, message) =~= old(self)@.active);
                    Some(Undo::ActiveDelete(place, message))
                },
                None => None,
            },
            Write::ActiveInsert(m) => match self.find_active(m.id) {
                Some(_) => None,
                None => {
                    self.active.push(m);
                    assert(self@.active.drop_last() =~= old(self)@.active);
                    Some(Undo::ActiveInsert)
                },
            },
            Write::ArchiveDelete(row_id) => match self.find_row(row_id) {
                Some(place) => {
                    let row = self.archive.remove(place);
                    assert(self@.archive.insert(place as int, row) =~= old(self)@.archive);
                    Some(Undo::ArchiveDelete(place, row))
                },
                None => None,
            },
        }
    }

    /// Take a write back.
    fn undo(&mut self, u: Undo, Ghost(before): Ghost<Tables>)
        requires
            undoes(u, before, old(self)@),
        ensures
            final(self)@ == before,
    {
        match u {
            Undo::ArchiveInsert => {
                self.archive.pop();
                self.next_archive_id = self.next_archive_id - 1;
                assert(self@.archive =~= before.archive);
            },
            Undo::ActiveDelete(place, message) => {
                self.active.insert(place, message);
            },
            Undo::ActiveInsert => {
                self.active.pop();
                assert(self@.active =~= before.active);
            },
            Undo::ArchiveDelete(place, row) => {
                self.archive.insert(place, row);
            },
        }
    }

    /// Make two writes together: both take effect, or, where either
    /// fails, the tables stay as they were. Returns whether they took
    /// effect.
    pub fn commit(&mut self, first: Write, second: Write) -> (done: bool)
        requires
            old(self)@.wf(),
        ensures
            final(self)@.wf(),
            match old(self)@.commit(first, second) {
                Some(after) => done && final(self)@ == after,
                None => !done && final(self)@ == old(self)@,
            },
    {
        let undo = match self.write(first) {
            Some(u) => u,
            None => {
                return false;
            },
        };
        match self.write(second) {
            Some(_) => true,
            None => {
                self.undo(undo, Ghost(old(self)@));
                false
            },
        }
    }

    /// Put a message into the active table under its own `id`. Where that
    /// `id` is taken, nothing changes and the conflict is reported.
    pub fn insert(&mut self, message: Message) -> (r: Result<(), AppError>)
        requires
            old(self)@.wf(),
        ensures
            final(self)@.wf(),
            final(self)@ == old(self)@.insert_step(message).0,
            tells(r, old(self)@.insert_step(message).1),
    {
        match self.write(Write::ActiveInsert(message)) {
            Some(_) => Ok(()),
            None => Err(AppError::Conflict),
        }
    }

    /// Move the active message `id` into the archive, at the time `now`.
    /// Without such a message nothing changes and `NotFound` is reported.
    pub fn archive(&mut self, id: i64, now: Timestamp) -> (r: Result<(), AppError>)
        requires
            old(self)@.wf(),
        ensures
            final(self)@.wf(),
            final(self)@ == old(self)@.archive_step(id, now).0,
            tells(r, old(self)@.archive_step(id, now).1),
    {
        let place = match self.find_active(id) {
            Some(i) => i,
            None => {
                return Err(AppError::NotFound);
            },
        };
        proof {
            archive_is_its_plan(self@, id, now);
        }
        let (first, second) = archive_plan(self.active[place].duplicate(), now);
        if self.commit(first, second) {
            Ok(())
        } else {
            Err(AppError::Database("the archive has no key left".to_owned()))
        }
    }

    /// Move the message `id` back from the row that was archived last for
    /// it. Without such a row nothing changes and `NotFound` is reported;
    /// where the `id` is taken by an active message, nothing changes and the
    /// conflict is reported.
    pub fn restore(&mut self, id: i64) -> (r: Result<(), AppError>)
        requires
            old(self)@.wf(),
        ensures
            final(self)@.wf(),
            final(self)@ == old(self)@.restore_step(id).0,
            tells(r, old(self)@.restore_step(id).1),
    {
        let place = match self.find_latest(id) {
            Some(k) => k,
            None => {
                return Err(AppError::NotFound);
            },
        };
        proof {
            restore_is_its_plan(self@, id);
        }
        let (first, second) = restore_plan(self.archive[place].duplicate());
        if self.commit(first, second) {
            Ok(())
        } else {
            Err(AppError::Conflict)
        }
    }

    /// Delete the archive row with the key `row_id` for good, for an admin.
    /// Where there is none, nothing changes, which is no failure. Anyone else
    /// is refused, and nothing changes.
    pub fn permanently_delete_archived_message(&mut self, authenticated: bool, row_id: i64) -> (r:
        Result<(), AppError>)
        requires
            old(self)@.wf(),
        ensures
            final(self)@.wf(),
            !authenticated ==> *final(self) == *old(self) && r == Err::<(), AppError>(
                AppError::Unauthorized,
            ),
            authenticated ==> final(self)@ == old(self)@.purge_step(row_id) && r is Ok,
    {
        if !authenticated {
            return Err(AppError::Unauthorized);
        }
        let _ = self.write(Write::ArchiveDelete(row_id));
        Ok(())
    }

    /// Carry out, for an admin, the move that a request asks for by its
    /// word: `archive` moves the active message `id` into the archive,
    /// `restore` moves it back. Any other word is refused and nothing
    /// changes. Anyone else is refused before the word is read, and nothing
    /// changes.
    pub fn archive_message(
        &mut self,
        authenticated: bool,
        id: i64,
        request: &ArchiveRequest,
        now: Timestamp,
    ) -> (r: Result<(), AppError>)
        requires
            old(self)@.wf(),
        ensures
            final(self)@.wf(),
            !authenticated ==> *final(self) == *old(self) && r == Err::<(), AppError>(
                AppError::Unauthorized,
            ),
            authenticated ==> match ArchiveAction::named(request.action@) {
                Some(ArchiveAction::Archive) => final(self)@ == old(self)@.archive_step(id, now).0
                    && tells(r, old(self)@.archive_step(id, now).1),
                Some(ArchiveAction::Restore) => final(self)@ == old(self)@.restore_step(id).0
                    && tells(r, old(self)@.restore_step(id).1),
                None => final(self)@ == old(self)@ && (r matches Err(AppError::InvalidInput(m))
                    && m@ == "Invalid archive action"@),
            },
    {
        if !authenticated {
            return Err(AppError::Unauthorized);
        }
        match ArchiveAction::parse(request.action.as_str()) {
            Some(ArchiveAction::Archive) => self.archive(id, now),
            Some(ArchiveAction::Restore) => self.restore(id),
            None => Err(AppError::InvalidInput("Invalid archive action".to_owned())),
        }
    }

    /// The admin's "delete" of an active message: it is archived, never
    /// destroyed. Anyone else is refused, and nothing changes.
    pub fn delete_message(&mut self, authenticated: bool, id: i64, now: Timestamp) -> (r: Result<
        (),
        AppError,
    >)
        requires
            old(self)@.wf(),
        ensures
            final(self)@.wf(),
            !authenticated ==> *final(self) == *old(self) && r == Err::<(), AppError>(
                AppError::Unauthorized,
            ),
            authenticated ==> final(self)@ == old(self)@.archive_step(id, now).0 && tells(
                r,
                old(self)@.archive_step(id, now).1,
            ),
    {
        let request = ArchiveRequest { action: "archive".to_owned() };
        self.archive_message(authenticated, id, &request, now)
    }
}

/// Archiving an `id` that no active message has reports `NotFound` and
/// leaves both tables as they were.
pub proof fn archive_of_missing_changes_nothing(t: Tables, id: i64, now: Timestamp)
    requires
        t.wf(),
        !is_active(t.active, id),
    ensures
        t.archive_step(id, now).0 == t,
        t.archive_step(id, now).1 is NotFound,
        forall|r: Result<(), AppError>|
            tells(r, t.archive_step(id, now).1) ==> r == Err::<(), AppError>(AppError::NotFound),
{
}

/// Restoring a message right after archiving it puts it back unchanged and
/// under the `id` it had, and leaves the archive as it was before. This
/// holds where the archive has a key left to assign, and where no row that
/// the archive already holds for this `id` bears a later time than `now`.
pub proof fn archive_then_restore(t: Tables, id: i64, now: Timestamp)
    requires
        t.wf(),
        is_active(t.active, id),
        t.next_archive_id < i64::MAX,
        forall|j: int|
            0 <= j < t.archive.len() && (#[trigger] t.archive[j]).original_id == id
                ==> !now.before(t.archive[j].archived_at),
    ensures
        ({
            let message = t.active[active_place(t.active, id)];
            let archived = t.archive_step(id, now);
            let restored = archived.0.restore_step(id);
            &&& archived.1 is Done
            &&& archived.0.wf()
            &&& !is_active(archived.0.active, id)
            &&& archived.0.archive.last().original_id == id
            &&& restored.1 is Done
            &&& restored.0.wf()
            &&& restored.0.active.last() == message
            &&& restored.0.active.last().id == id
            &&& restored.0.active == t.active.remove(active_place(t.active, id)).push(message)
            &&& restored.0.archive == t.archive
        }),
{
    let after = t.archive_step(id, now).0;
    latest_is_most_recent(after.archive, id, t.archive.len() as int);
}

/// Archiving a message, restoring it and archiving it again makes two
/// archive rows with different keys, each for the same `id`; the second
/// stands alone where the first stood, since restoring removed the first.
pub proof fn cycles_make_distinct_rows(t: Tables, id: i64, first: Timestamp, second: Timestamp)
    requires
        t.wf(),
        is_active(t.active, id),
        t.next_archive_id < i64::MAX - 1,
        forall|j: int|
            0 <= j < t.archive.len() && (#[trigger] t.archive[j]).original_id == id
                ==> !first.before(t.archive[j].archived_at),
    ensures
        ({
            let one = t.archive_step(id, first);
            let back = one.0.restore_step(id);
            let two = back.0.archive_step(id, second);
            &&& one.1 is Done
            &&& back.1 is Done
            &&& two.1 is Done
            &&& one.0.archive.last().original_id == id
            &&& two.0.archive.last().original_id == id
            &&& one.0.archive.last().id != two.0.archive.last().id
            &&& one.0.archive.last().archived_at == first
            &&& two.0.archive.last().archived_at == second
            &&& two.0.archive.len() == t.archive.len() + 1
        }),
{
    archive_then_restore(t, id, first);
}

} // verus!
