//! The credential store: what the authentication flows ask of it, what a
//! faithful store answers, and a store held in memory that answers so.

use vstd::prelude::*;
use crate::models::user::{text_of, User, UserView};
use crate::time::Timestamp;

verus! {

/// A user about to be stored: everything but what the store assigns.
#[derive(Debug)]
pub struct NewUser {
    pub username: String,
    pub email: String,
    pub password_hash: String,
    pub display_name: Option<String>,
    pub created_at: Timestamp,
    pub updated_at: Timestamp,
}

/// What a user about to be stored holds, as mathematical values.
pub struct NewUserView {
    pub username: Seq<char>,
    pub email: Seq<char>,
    pub password_hash: Seq<char>,
    pub display_name: Option<Seq<char>>,
    pub created_at: Timestamp,
    pub updated_at: Timestamp,
}

impl View for NewUser {
    type V = NewUserView;

    open spec fn view(&self) -> NewUserView {
        NewUserView {
            username: self.username@,
            email: self.email@,
            password_hash: self.password_hash@,
            display_name: text_of(self.display_name),
            created_at: self.created_at,
            updated_at: self.updated_at,
        }
    }
}

/// The record a store keeps of a new user under a given identifier: no bio, no
/// picture, not deleted.
pub open spec fn stored_form(user: NewUserView, id: u64) -> UserView {
    UserView {
        id,
        username: user.username,
        email: user.email,
        password_hash: user.password_hash,
        display_name: user.display_name,
        bio: None,
        profile_picture_url: None,
        created_at: user.created_at,
        updated_at: user.updated_at,
        deleted_at: None,
    }
}

/// The columns of a user that no two users share.
#[derive(Clone, Copy, Debug, PartialEq, Eq, Structural)]
pub enum UniqueField {
    Email,
    Username,
}

/// What a flow asks of the store.
#[derive(Debug)]
pub enum StoreQuery {
    /// Is there a user, deleted or not, with exactly this email?
    EmailExists { email: String },
    /// Is there a user, deleted or not, with exactly this username?
    UsernameExists { username: String },
    /// Store this user, or report which unique column forbids it.
    Insert { user: NewUser },
    /// The user with this identifier.
    FetchById { id: u64 },
    /// The user with exactly this email who is not soft-deleted.
    FetchActiveByEmail { email: String },
}

/// A query, as mathematical values.
pub enum QueryView {
    EmailExists { email: Seq<char> },
    UsernameExists { username: Seq<char> },
    Insert { user: NewUserView },
    FetchById { id: u64 },
    FetchActiveByEmail { email: Seq<char> },
}

impl View for StoreQuery {
    type V = QueryView;

    open spec fn view(&self) -> QueryView {
        match *self {
            StoreQuery::EmailExists { email } => QueryView::EmailExists { email: email@ },
            StoreQuery::UsernameExists { username } => QueryView::UsernameExists {
                username: username@,
            },
            StoreQuery::Insert { user } => QueryView::Insert { user: user@ },
            StoreQuery::FetchById { id } => QueryView::FetchById { id },
            StoreQuery::FetchActiveByEmail { email } => QueryView::FetchActiveByEmail {
                email: email@,
            },
        }
    }
}

/// What the store answers.
#[derive(Debug)]
pub enum StoreReply {
    /// The store could not answer.
    Failed,
    /// The answer to a question of existence.
    Exists(bool),
    /// The user was stored under this identifier.
    Inserted(u64),
    /// The user was not stored: another user holds the same value in this column.
    Conflict(UniqueField),
    /// The user asked for, if there is one.
    Row(Option<User>),
}

/// A reply, as mathematical values.
pub enum ReplyView {
    Failed,
    Exists(bool),
    Inserted(u64),
    Conflict(UniqueField),
    Row(Option<UserView>),
}

impl View for StoreReply {
    type V = ReplyView;

    open spec fn view(&self) -> ReplyView {
        match *self {
            StoreReply::Failed => ReplyView::Failed,
            StoreReply::Exists(found) => ReplyView::Exists(found),
            StoreReply::Inserted(id) => ReplyView::Inserted(id),
            StoreReply::Conflict(field) => ReplyView::Conflict(field),
            StoreReply::Row(row) => ReplyView::Row(
                match row {
                    Some(user) => Some(user@),
                    None => None,
                },
            ),
        }
    }
}

/// Some user, deleted or not, has this email.
pub open spec fn email_taken(users: Seq<UserView>, email: Seq<char>) -> bool {
    exists|i: int| 0 <= i < users.len() && (#[trigger] users[i]).email == email
}

/// Some user, deleted or not, has this username.
pub open spec fn username_taken(users: Seq<UserView>, username: Seq<char>) -> bool {
    exists|i: int| 0 <= i < users.len() && (#[trigger] users[i]).username == username
}

/// Some user has this identifier.
pub open spec fn id_taken(users: Seq<UserView>, id: u64) -> bool {
    exists|i: int| 0 <= i < users.len() && (#[trigger] users[i]).id == id
}

/// Some user who is not soft-deleted has this email.
pub open spec fn active_email(users: Seq<UserView>, email: Seq<char>) -> bool {
    exists|i: int|
        0 <= i < users.len() && (#[trigger] users[i]).email == email && !users[i].is_deleted()
}

/// The uniqueness rules of the users: no two share an identifier, an email or
/// a username.
pub open spec fn users_unique(users: Seq<UserView>) -> bool {
    forall|i: int, j: int|
        0 <= i < j < users.len() ==> {
            &&& (#[trigger] users[i]).id != (#[trigger] users[j]).id
            &&& users[i].email != users[j].email
            &&& users[i].username != users[j].username
        }
}

/// What a faithful store answers to a query that changes nothing. A request to
/// insert is not such a query and fails.
pub open spec fn reads(users: Seq<UserView>, query: QueryView, reply: ReplyView) -> bool {
    match query {
        QueryView::EmailExists { email } => reply == ReplyView::Exists(email_taken(users, email)),
        QueryView::UsernameExists { username } => reply == ReplyView::Exists(
            username_taken(users, username),
        ),
        QueryView::FetchById { id } => match reply {
            ReplyView::Row(Some(user)) => users.contains(user) && user.id == id,
            ReplyView::Row(None) => !id_taken(users, id),
            _ => false,
        },
        QueryView::FetchActiveByEmail { email } => match reply {
            ReplyView::Row(Some(user)) => users.contains(user) && user.email == email
                && !user.is_deleted(),
            ReplyView::Row(None) => !active_email(users, email),
            _ => false,
        },
        QueryView::Insert { user } => reply == ReplyView::Failed,
    }
}

/// What a faithful store answers to a request to insert, and what it holds
/// afterwards. The user is stored under a fresh identifier, unless another
/// user holds the email or, failing that, the username: then nothing changes
/// and the column is reported. A store that cannot answer changes nothing.
pub open spec fn inserts(
    before: Seq<UserView>,
    user: NewUserView,
    reply: ReplyView,
    after: Seq<UserView>,
) -> bool {
    match reply {
        ReplyView::Inserted(id) => {
            &&& !email_taken(before, user.email)
            &&& !username_taken(before, user.username)
            &&& !id_taken(before, id)
            &&& after == before.push(stored_form(user, id))
        },
        ReplyView::Conflict(UniqueField::Email) => after == before && email_taken(
            before,
            user.email,
        ),
        ReplyView::Conflict(UniqueField::Username) => after == before && !email_taken(
            before,
            user.email,
        ) && username_taken(before, user.username),
        ReplyView::Failed => after == before && !email_taken(before, user.email)
            && !username_taken(before, user.username),
        _ => false,
    }
}

/// What a faithful store answers to any query, and what it holds afterwards.
pub open spec fn answers(
    before: Seq<UserView>,
    query: QueryView,
    reply: ReplyView,
    after: Seq<UserView>,
) -> bool {
    match query {
        QueryView::Insert { user } => inserts(before, user, reply, after),
        _ => after == before && reads(before, query, reply),
    }
}

/// A credential store held in memory.
#[derive(Debug)]
pub struct UserStore {
    users: Vec<User>,
    next_id: u64,
}

impl View for UserStore {
    type V = Seq<UserView>;

    closed spec fn view(&self) -> Seq<UserView> {
        self.users@.map_values(|user: User| user@)
    }
}

impl UserStore {
    /// The store keeps the uniqueness rules, and every identifier in it is
    /// below the next one to be given out.
    #[verifier::type_invariant]
    spec fn wf(self) -> bool {
        &&& users_unique(self@)
        &&& forall|i: int| 0 <= i < self@.len() ==> (#[trigger] self@[i]).id < self.next_id
    }

    /// The store has given out every identifier it can.
    pub open spec fn ids_used_up(&self) -> bool {
        self.next_id() == u64::MAX
    }

    /// An empty store. Identifiers start at 1.
    pub fn new() -> (store: Self)
        ensures
            store@ == Seq::<UserView>::empty(),
            store.next_id() == 1,
    {
        UserStore { users: Vec::new(), next_id: 1 }
    }

    /// The identifier that the next user stored will get. Identifiers are
    /// given out in order, one by one, and never twice.
    pub closed spec fn next_id(&self) -> u64 {
        self.next_id
    }

    /// Recalls that the users of a store keep the uniqueness rules and that
    /// their identifiers are below the next one to be given out, as holds of
    /// every store at all times. Does nothing when run.
    pub fn recall_unique(&self)
        ensures
            users_unique(self@),
            ids_below(self@, self.next_id()),
    {
        proof {
            use_type_invariant(self);
        }
    }

    /// How many users the store holds, deleted ones included.
    pub fn len(&self) -> (count: usize)
        ensures
            count == self@.len(),
    {
        self.users.len()
    }

    fn position_by_email(&self, email: &String) -> (found: Option<usize>)
        ensures
            match found {
                Some(i) => i < self@.len() && self@[i as int].email == email@,
                None => !email_taken(self@, email@),
            },
    {
        let mut i: usize = 0;
        while i < self.users.len()
            invariant
                i <= self.users.len(),
                self@.len() == self.users.len(),
                forall|j: int| 0 <= j < i ==> (#[trigger] self@[j]).email != email@,
            decreases self.users.len() - i,
        {
            if self.users[i].email == *email {
                return Some(i);
            }
            i += 1;
        }
        None
    }

    fn position_by_username(&self, username: &String) -> (found: Option<usize>)
        ensures
            match found {
                Some(i) => i < self@.len() && self@[i as int].username == username@,
                None => !username_taken(self@, username@),
            },
    {
        let mut i: usize = 0;
        while i < self.users.len()
            invariant
                i <= self.users.len(),
                self@.len() == self.users.len(),
                forall|j: int| 0 <= j < i ==> (#[trigger] self@[j]).username != username@,
            decreases self.users.len() - i,
        {
            if self.users[i].username == *username {
                return Some(i);
            }
            i += 1;
        }
        None
    }

    fn position_by_id(&self, id: u64) -> (found: Option<usize>)
        ensures
            match found {
                Some(i) => i < self@.len() && self@[i as int].id == id,
                None => !id_taken(self@, id),
            },
    {
        let mut i: usize = 0;
        while i < self.users.len()
            invariant
                i <= self.users.len(),
                self@.len() == self.users.len(),
                forall|j: int| 0 <= j < i ==> (#[trigger] self@[j]).id != id,
            decreases self.users.len() - i,
        {
            if self.users[i].id == id {
                return Some(i);
            }
            i += 1;
        }
        None
    }

    fn position_active_by_email(&self, email: &String) -> (found: Option<usize>)
        ensures
            match found {
                Some(i) => i < self@.len() && self@[i as int].email == email@
                    && !self@[i as int].is_deleted(),
                None => !active_email(self@, email@),
            },
    {
        let mut i: usize = 0;
        while i < self.users.len()
            invariant
                i <= self.users.len(),
                self@.len() == self.users.len(),
                forall|j: int|
                    0 <= j < i ==> !((#[trigger] self@[j]).email == email@
                        && !self@[j].is_deleted()),
            decreases self.users.len() - i,
        {
            if self.users[i].email == *email && self.users[i].deleted_at.is_none() {
                return Some(i);
            }
            i += 1;
        }
        None
    }

    fn row_at(&self, position: Option<usize>) -> (row: Option<User>)
        requires
            position matches Some(i) ==> i < self@.len(),
        ensures
            match position {
                Some(i) => row matches Some(user) && user@ == self@[i as int],
                None => row is None,
            },
    {
        match position {
            Some(i) => Some(self.users[i].clone()),
            None => None,
        }
    }

    /// Answers a query that changes nothing, as a faithful store does. The
    /// users it answers from keep the uniqueness rules.
    pub fn read(&self, query: &StoreQuery) -> (reply: StoreReply)
        ensures
            reads(self@, query@, reply@),
            users_unique(self@),
    {
        proof {
            use_type_invariant(self);
        }
        match query {
            StoreQuery::EmailExists { email } => StoreReply::Exists(
                self.position_by_email(email).is_some(),
            ),
            StoreQuery::UsernameExists { username } => StoreReply::Exists(
                self.position_by_username(username).is_some(),
            ),
            StoreQuery::FetchById { id } => StoreReply::Row(
                self.row_at(self.position_by_id(*id)),
            ),
            StoreQuery::FetchActiveByEmail { email } => StoreReply::Row(
                self.row_at(self.position_active_by_email(email)),
            ),
            StoreQuery::Insert { user: _ } => StoreReply::Failed,
        }
    }

    /// Stores a user under the next identifier, which then goes up by one, or
    /// reports the unique column that forbids it: the email first, the
    /// username second. Fails, changing nothing, exactly when no column forbids
    /// it and the identifiers are used up. The users keep the uniqueness rules
    /// before and after.
    pub fn insert(&mut self, user: NewUser) -> (reply: StoreReply)
        ensures
            inserts(old(self)@, user@, reply@, final(self)@),
            reply@ is Failed <==> !email_taken(old(self)@, user.email@) && !username_taken(
                old(self)@,
                user.username@,
            ) && old(self).ids_used_up(),
            match reply@ {
                ReplyView::Inserted(id) => id == old(self).next_id() && final(self).next_id() == id
                    + 1,
                _ => final(self).next_id() == old(self).next_id(),
            },
            users_unique(old(self)@),
            users_unique(final(self)@),
    {
        proof {
            use_type_invariant(&*self);
        }
        if self.position_by_email(&user.email).is_some() {
            return StoreReply::Conflict(UniqueField::Email);
        }
        if self.position_by_username(&user.username).is_some() {
            return StoreReply::Conflict(UniqueField::Username);
        }
        if self.next_id == u64::MAX {
            return StoreReply::Failed;
        }
        let id = self.next_id;
        let ghost before = self@;
        let ghost record = stored_form(user@, id);
        let mut users = Vec::new();
        std::mem::swap(&mut users, &mut self.users);
        users.push(
            User {
                id,
                username: user.username,
                email: user.email,
                password_hash: user.password_hash,
                display_name: user.display_name,
                bio: None,
                profile_picture_url: None,
                created_at: user.created_at,
                updated_at: user.updated_at,
                deleted_at: None,
            },
        );
        self.next_id = id + 1;
        assert(users@.map_values(|user: User| user@) =~= before.push(record));
        self.users = users;
        StoreReply::Inserted(id)
    }

    /// Answers any query as a faithful store does. The users keep the
    /// uniqueness rules before and after.
    pub fn answer(&mut self, query: StoreQuery) -> (reply: StoreReply)
        ensures
            answers(old(self)@, query@, reply@, final(self)@),
            reply@ is Failed ==> query@ is Insert && old(self).ids_used_up(),
            match reply@ {
                ReplyView::Inserted(id) => id == old(self).next_id() && final(self).next_id() == id
                    + 1,
                _ => final(self).next_id() == old(self).next_id(),
            },
            users_unique(old(self)@),
            users_unique(final(self)@),
    {
        match query {
            StoreQuery::Insert { user } => self.insert(user),
            other => self.read(&other),
        }
    }

    /// Soft-deletes the user with the given identifier by setting the deletion
    /// time. Returns whether a user who was not yet deleted had it; where none
    /// had, nothing changes. The users keep the uniqueness rules before and
    /// after.
    pub fn soft_delete(&mut self, id: u64, at: Timestamp) -> (done: bool)
        ensures
            soft_deletes(old(self)@, id, at, done, final(self)@),
            final(self).next_id() == old(self).next_id(),
            users_unique(old(self)@),
            users_unique(final(self)@),
    {
        proof {
            use_type_invariant(&*self);
        }
        match self.position_by_id(id) {
            Some(i) => {
                if self.users[i].deleted_at.is_some() {
                    return false;
                }
                let ghost before = self@;
                let mut user = self.users[i].clone();
                user.deleted_at = Some(at);
                let mut users = Vec::new();
                std::mem::swap(&mut users, &mut self.users);
                users.set(i, user);
                assert(users@.map_values(|user: User| user@) =~= before.update(
                    i as int,
                    marked_deleted(before[i as int], at),
                ));
                self.users = users;
                true
            },
            None => false,
        }
    }
}

/// A user with the deletion time set.
pub open spec fn marked_deleted(user: UserView, at: Timestamp) -> UserView {
    UserView { deleted_at: Some(at), ..user }
}

/// What a soft deletion does: where a user who is not yet deleted has the
/// identifier, that user gets the deletion time and nothing else changes;
/// where none has, nothing changes at all.
pub open spec fn soft_deletes(
    before: Seq<UserView>,
    id: u64,
    at: Timestamp,
    done: bool,
    after: Seq<UserView>,
) -> bool {
    if done {
        exists|i: int|
            0 <= i < before.len() && (#[trigger] before[i]).id == id && !before[i].is_deleted()
                && after == before.update(i, marked_deleted(before[i], at))
    } else {
        after == before && forall|i: int|
            0 <= i < before.len() && (#[trigger] before[i]).id == id ==> before[i].is_deleted()
    }
}

/// Every user has an identifier below the bound.
pub open spec fn ids_below(users: Seq<UserView>, bound: u64) -> bool {
    forall|i: int| 0 <= i < users.len() ==> (#[trigger] users[i]).id < bound
}

} // verus!
