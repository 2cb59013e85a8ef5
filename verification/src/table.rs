//! The user table held in memory: rows in insertion order, no id and no
//! friendcode held by two rows.

use vstd::prelude::*;
use crate::lookup::Answer;
use crate::model::{FriendCode, User, UserID};

verus! {

/// Some row has this id.
pub open spec fn has_id(users: Seq<User>, id: UserID) -> bool {
    exists|i: int| 0 <= i < users.len() && (#[trigger] users[i]).id == id
}

/// Some row has this friendcode.
pub open spec fn has_friendcode(users: Seq<User>, code: FriendCode) -> bool {
    exists|i: int| 0 <= i < users.len() && (#[trigger] users[i]).friendcode == code
}

/// Row `i` has this friendcode and no row before it has.
pub open spec fn is_first_holder(users: Seq<User>, code: FriendCode, i: int) -> bool {
    &&& 0 <= i < users.len()
    &&& users[i].friendcode == code
    &&& forall|j: int| 0 <= j < i ==> (#[trigger] users[j]).friendcode != code
}

/// No id and no friendcode stands in two rows.
pub open spec fn unique_keys(users: Seq<User>) -> bool {
    forall|i: int, j: int|
        0 <= i < j < users.len() ==> (#[trigger] users[i]).id != (#[trigger] users[j]).id
            && users[i].friendcode != users[j].friendcode
}

/// The rows with the revising flag of every row that has this id set to
/// `flag`, and nothing else changed.
pub open spec fn with_revising(users: Seq<User>, id: UserID, flag: bool) -> Seq<User> {
    Seq::new(
        users.len(),
        |i: int|
            if users[i].id == id {
                User { revising: flag, ..users[i] }
            } else {
                users[i]
            },
    )
}

/// What the table answers when asked for the row with a primary key.
pub open spec fn caller_answer(users: Seq<User>, id: UserID) -> Answer {
    if has_id(users, id) {
        Answer::CallerFound
    } else {
        Answer::Absent
    }
}

/// `answer` is what the table says when asked for the first row with a
/// friendcode: that row's selected columns, or that there is none.
pub open spec fn is_target_answer(users: Seq<User>, code: FriendCode, answer: Answer) -> bool {
    if has_friendcode(users, code) {
        exists|i: int| is_first_holder(users, code, i) && answer == Answer::TargetFound(
            users[i].profile(),
        )
    } else {
        answer == Answer::Absent
    }
}

/// A table gives one question about a friendcode one answer.
pub proof fn target_answer_is_unique(
    users: Seq<User>,
    code: FriendCode,
    first: Answer,
    second: Answer,
)
    requires
        is_target_answer(users, code, first),
        is_target_answer(users, code, second),
    ensures
        first == second,
{
    if has_friendcode(users, code) {
        let i = choose|i: int|
            is_first_holder(users, code, i) && first == Answer::TargetFound(users[i].profile());
        let k = choose|k: int|
            is_first_holder(users, code, k) && second == Answer::TargetFound(users[k].profile());
        first_holder_is_unique(users, code, i, k);
    }
}

/// Only one row is the first to hold a friendcode.
pub proof fn first_holder_is_unique(users: Seq<User>, code: FriendCode, i: int, k: int)
    requires
        is_first_holder(users, code, i),
        is_first_holder(users, code, k),
    ensures
        i == k,
{
    if i < k {
        assert(users[i].friendcode != code);
    } else if k < i {
        assert(users[k].friendcode != code);
    }
}

/// The users known to the service.
pub struct UserTable {
    rows: Vec<User>,
}

impl View for UserTable {
    type V = Seq<User>;

    closed spec fn view(&self) -> Seq<User> {
        self.rows@
    }
}

impl UserTable {
    #[verifier::type_invariant]
    spec fn keys_are_unique(self) -> bool {
        unique_keys(self.rows@)
    }

    /// A table without rows.
    pub fn new() -> (table: UserTable)
        ensures
            table@ == Seq::<User>::empty(),
    {
        UserTable { rows: Vec::new() }
    }

    /// The number of rows.
    pub fn len(&self) -> (n: usize)
        ensures
            n == self@.len(),
    {
        self.rows.len()
    }

    /// Whether a row has this id.
    pub fn contains_id(&self, id: UserID) -> (found: bool)
        ensures
            found == has_id(self@, id),
    {
        let mut i: usize = 0;
        while i < self.rows.len()
            invariant
                i <= self.rows.len(),
                forall|j: int| 0 <= j < i ==> (#[trigger] self.rows@[j]).id != id,
            decreases self.rows.len() - i,
        {
            if self.rows[i].id == id {
                return true;
            }
            i += 1;
        }
        false
    }

    /// Whether a row has this friendcode.
    pub fn contains_friendcode(&self, code: FriendCode) -> (found: bool)
        ensures
            found == has_friendcode(self@, code),
    {
        let mut i: usize = 0;
        while i < self.rows.len()
            invariant
                i <= self.rows.len(),
                forall|j: int| 0 <= j < i ==> (#[trigger] self.rows@[j]).friendcode != code,
            decreases self.rows.len() - i,
        {
            if self.rows[i].friendcode == code {
                return true;
            }
            i += 1;
        }
        false
    }

    /// Adds a row at the end, unless its id or its friendcode is already
    /// taken: then the table stays as it is. Says whether the row was added.
    pub fn insert(&mut self, user: User) -> (added: bool)
        ensures
            added == (!has_id(old(self)@, user.id) && !has_friendcode(
                old(self)@,
                user.friendcode,
            )),
            added ==> final(self)@ == old(self)@.push(user),
            !added ==> final(self)@ == old(self)@,
            unique_keys(final(self)@),
    {
        proof {
            use_type_invariant(&*self);
        }
        if self.contains_id(user.id) || self.contains_friendcode(user.friendcode) {
            false
        } else {
            let mut rows: Vec<User> = Vec::new();
            std::mem::swap(&mut self.rows, &mut rows);
            rows.push(user);
            std::mem::swap(&mut self.rows, &mut rows);
            true
        }
    }

    /// Sets the revising flag of the row with this id, and says how many
    /// rows that was: one if the id is known, none if it is not.
    pub fn set_revising(&mut self, id: UserID, flag: bool) -> (touched: usize)
        ensures
            final(self)@ == with_revising(old(self)@, id, flag),
            touched == (if has_id(old(self)@, id) { 1usize } else { 0usize }),
            unique_keys(old(self)@),
            unique_keys(final(self)@),
    {
        proof {
            use_type_invariant(&*self);
        }
        let mut i: usize = 0;
        while i < self.rows.len()
            invariant
                i <= self.rows.len(),
                self.rows@ == old(self).rows@,
                unique_keys(self.rows@),
                forall|j: int| 0 <= j < i ==> (#[trigger] self.rows@[j]).id != id,
            decreases self.rows.len() - i,
        {
            if self.rows[i].id == id {
                let row = &self.rows[i];
                let updated = User {
                    id: row.id,
                    friendcode: row.friendcode,
                    username: row.username.clone(),
                    main_pet: row.main_pet,
                    revising: flag,
                };
                let mut rows: Vec<User> = Vec::new();
                std::mem::swap(&mut self.rows, &mut rows);
                rows.set(i, updated);
                proof {
                    assert(rows@ =~= with_revising(old(self)@, id, flag));
                }
                std::mem::swap(&mut self.rows, &mut rows);
                return 1;
            }
            i += 1;
        }
        proof {
            assert(self@ =~= with_revising(old(self)@, id, flag));
        }
        0
    }

    /// Whether the user with this id is revising; `None` if no row has the id.
    pub fn is_revising(&self, id: UserID) -> (flag: Option<bool>)
        ensures
            flag is Some <==> has_id(self@, id),
            forall|i: int|
                0 <= i < self@.len() && (#[trigger] self@[i]).id == id ==> flag == Some(
                    self@[i].revising,
                ),
    {
        proof {
            use_type_invariant(self);
        }
        let mut i: usize = 0;
        while i < self.rows.len()
            invariant
                i <= self.rows.len(),
                unique_keys(self.rows@),
                forall|j: int| 0 <= j < i ==> (#[trigger] self.rows@[j]).id != id,
            decreases self.rows.len() - i,
        {
            if self.rows[i].id == id {
                assert(self@[i as int].id == id);
                return Some(self.rows[i].revising);
            }
            i += 1;
        }
        None
    }

    /// Asks for the row with a primary key.
    pub fn find(&self, id: UserID) -> (answer: Answer)
        ensures
            answer == caller_answer(self@, id),
    {
        if self.contains_id(id) {
            Answer::CallerFound
        } else {
            Answer::Absent
        }
    }

    /// Asks for the selected columns of the first row with a friendcode.
    pub fn find_by_friendcode(&self, code: FriendCode) -> (answer: Answer)
        ensures
            is_target_answer(self@, code, answer),
    {
        let mut i: usize = 0;
        while i < self.rows.len()
            invariant
                i <= self.rows.len(),
                forall|j: int| 0 <= j < i ==> (#[trigger] self.rows@[j]).friendcode != code,
            decreases self.rows.len() - i,
        {
            if self.rows[i].friendcode == code {
                assert(is_first_holder(self@, code, i as int));
                return Answer::TargetFound(self.rows[i].to_profile());
            }
            i += 1;
        }
        Answer::Absent
    }
}

} // verus!
