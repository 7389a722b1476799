//! The directory of users.
//!
//! A user is created when an email is first seen and keeps its identifier from
//! then on. Every later login under the email overwrites the access token and
//! nothing else.

use vstd::prelude::*;
use crate::auth::{BackendError, Failure};
use crate::user::{User, UserModel};

verus! {

/// What the directory holds under an email.
pub struct Record {
    pub id: int,
    pub access_token: Seq<char>,
}

/// The first identifier that a directory assigns.
pub const FIRST_ID: i32 = 1;

/// The detail reported where no identifier is left for a new user.
pub open spec fn exhausted_text() -> Seq<char> {
    "no identifier is left for a new user"@
}

/// Insert-or-update under an email, on plain values: the directory and the
/// next free identifier before, and both after, with the user that results.
/// A known email keeps its identifier and takes the new token. A new email
/// takes the next free identifier; where none is left, nothing changes and
/// there is no user.
pub open spec fn upserted(
    directory: Map<Seq<char>, Record>,
    next_id: int,
    email: Seq<char>,
    access_token: Seq<char>,
) -> (Map<Seq<char>, Record>, int, Option<UserModel>) {
    if directory.contains_key(email) {
        let id = directory[email].id;
        (
            directory.insert(email, Record { id, access_token }),
            next_id,
            Some(UserModel { id, email, access_token }),
        )
    } else if next_id <= i32::MAX {
        (
            directory.insert(email, Record { id: next_id, access_token }),
            next_id + 1,
            Some(UserModel { id: next_id, email, access_token }),
        )
    } else {
        (directory, next_id, None)
    }
}

/// Emails and identifiers each occur once, and every identifier was assigned.
spec fn consistent(users: Seq<User>, next_id: int) -> bool {
    &&& FIRST_ID <= next_id <= i32::MAX + 1
    &&& forall|i: int, j: int| 0 <= i < j < users.len() ==> users[i].email@ != users[j].email@
    &&& forall|i: int, j: int| 0 <= i < j < users.len() ==> users[i].id != users[j].id
    &&& forall|i: int| 0 <= i < users.len() ==> FIRST_ID <= #[trigger] users[i].id < next_id
}

/// User `i` is the one with that email.
spec fn listed_at(users: Seq<User>, i: int, email: Seq<char>) -> bool {
    0 <= i < users.len() && users[i].email@ == email
}

spec fn record_of(user: User) -> Record {
    Record { id: user.id as int, access_token: user.access_token@ }
}

/// The users as a map from email to identifier and token.
spec fn as_map(users: Seq<User>) -> Map<Seq<char>, Record> {
    Map::new(
        |email: Seq<char>| exists|i: int| listed_at(users, i, email),
        |email: Seq<char>| record_of(users[choose|i: int| listed_at(users, i, email)]),
    )
}

proof fn lemma_user_in_map(users: Seq<User>, next_id: int, i: int)
    requires
        consistent(users, next_id),
        0 <= i < users.len(),
    ensures
        as_map(users).contains_key(users[i].email@),
        as_map(users)[users[i].email@] == record_of(users[i]),
{
    let email = users[i].email@;
    assert(listed_at(users, i, email));
    let j = choose|j: int| listed_at(users, j, email);
    assert(listed_at(users, j, email));
    assert(i == j);
}

proof fn lemma_replaced(users: Seq<User>, next_id: int, i: int, user: User)
    requires
        consistent(users, next_id),
        listed_at(users, i, user.email@),
        user.id == users[i].id,
    ensures
        consistent(users.update(i, user), next_id),
        as_map(users.update(i, user)) == as_map(users).insert(user.email@, record_of(user)),
{
    let after = users.update(i, user);
    let target = as_map(users).insert(user.email@, record_of(user));
    assert(consistent(after, next_id));
    assert forall|email: Seq<char>|
        as_map(after).contains_key(email) == #[trigger] target.contains_key(email) by {
        if as_map(after).contains_key(email) {
            let j = choose|j: int| listed_at(after, j, email);
            assert(listed_at(users, j, email));
        }
        if as_map(users).contains_key(email) {
            let j = choose|j: int| listed_at(users, j, email);
            assert(listed_at(after, j, email));
        }
        if email == user.email@ {
            assert(listed_at(after, i, email));
        }
    }
    assert forall|email: Seq<char>| as_map(after).contains_key(email) implies as_map(after)[email]
        == #[trigger] target[email] by {
        let j = choose|j: int| listed_at(after, j, email);
        lemma_user_in_map(after, next_id, j);
        if j != i {
            lemma_user_in_map(users, next_id, j);
        }
    }
    assert(as_map(after) =~= target);
}

proof fn lemma_appended(users: Seq<User>, next_id: int, user: User)
    requires
        consistent(users, next_id),
        !as_map(users).contains_key(user.email@),
        user.id == next_id,
        next_id <= i32::MAX,
    ensures
        consistent(users.push(user), next_id + 1),
        as_map(users.push(user)) == as_map(users).insert(user.email@, record_of(user)),
{
    let after = users.push(user);
    let last = users.len() as int;
    let target = as_map(users).insert(user.email@, record_of(user));
    assert forall|i: int| 0 <= i < users.len() implies users[i].email@ != user.email@ by {
        if users[i].email@ == user.email@ {
            assert(listed_at(users, i, user.email@));
        }
    }
    assert(consistent(after, next_id + 1));
    assert forall|email: Seq<char>|
        as_map(after).contains_key(email) == #[trigger] target.contains_key(email) by {
        if as_map(after).contains_key(email) {
            let j = choose|j: int| listed_at(after, j, email);
            if j != last {
                assert(listed_at(users, j, email));
            }
        }
        if as_map(users).contains_key(email) {
            let j = choose|j: int| listed_at(users, j, email);
            assert(listed_at(after, j, email));
        }
        if email == user.email@ {
            assert(listed_at(after, last, email));
        }
    }
    assert forall|email: Seq<char>| as_map(after).contains_key(email) implies as_map(after)[email]
        == #[trigger] target[email] by {
        let j = choose|j: int| listed_at(after, j, email);
        lemma_user_in_map(after, next_id + 1, j);
        if j != last {
            lemma_user_in_map(users, next_id, j);
        }
    }
    assert(as_map(after) =~= target);
}

/// The users that have signed in, by email.
pub struct UserDirectory {
    users: Vec<User>,
    next_id: i64,
}

impl View for UserDirectory {
    type V = Map<Seq<char>, Record>;

    closed spec fn view(&self) -> Map<Seq<char>, Record> {
        as_map(self.users@)
    }
}

impl UserDirectory {
    #[verifier::type_invariant]
    spec fn well_formed(self) -> bool {
        consistent(self.users@, self.next_id as int)
    }

    /// The identifier that the next new user takes.
    pub closed spec fn next_id(&self) -> int {
        self.next_id as int
    }

    /// A directory without users.
    pub fn new() -> (directory: Self)
        ensures
            directory@ == Map::<Seq<char>, Record>::empty(),
            directory.next_id() == FIRST_ID,
    {
        let directory = UserDirectory { users: Vec::new(), next_id: 1 };
        assert(directory@ =~= Map::<Seq<char>, Record>::empty());
        directory
    }

    fn position(&self, email: &String) -> (found: Option<usize>)
        ensures
            match found {
                Some(i) => listed_at(self.users@, i as int, email@),
                None => !self@.contains_key(email@),
            },
    {
        let mut i: usize = 0;
        while i < self.users.len()
            invariant
                i <= self.users.len(),
                forall|j: int| 0 <= j < i ==> !listed_at(self.users@, j, email@),
            decreases self.users.len() - i,
        {
            if self.users[i].email == *email {
                return Some(i);
            }
            i += 1;
        }
        proof {
            if self@.contains_key(email@) {
                let j = choose|j: int| listed_at(self.users@, j, email@);
                assert(listed_at(self.users@, j, email@));
            }
        }
        None
    }

    /// Records a login under a verified email and returns the user that
    /// results: insert-or-update in one step.
    pub fn upsert(&mut self, email: &str, access_token: &str) -> (stored: Result<
        User,
        BackendError,
    >)
        ensures
            final(self)@ == upserted(old(self)@, old(self).next_id(), email@, access_token@).0,
            final(self).next_id() == upserted(
                old(self)@,
                old(self).next_id(),
                email@,
                access_token@,
            ).1,
            match upserted(old(self)@, old(self).next_id(), email@, access_token@).2 {
                Some(user) => stored matches Ok(u) && u@ == user,
                None => stored matches Err(e) && e@ == Failure::Sqlx(exhausted_text()),
            },
            stored is Ok && !old(self)@.contains_key(email@) ==> forall|other: Seq<char>|
                old(self)@.contains_key(other) ==> (#[trigger] old(self)@[other]).id
                    != old(self).next_id(),
    {
        let email = email.to_owned();
        let access_token = access_token.to_owned();
        let found = self.position(&email);
        proof {
            use_type_invariant(&*self);
        }
        let ghost before = self.users@;
        let ghost next = self.next_id as int;
        match found {
            Some(i) => {
                let user = User { id: self.users[i].id, email, access_token };
                let stored = user.clone();
                proof {
                    lemma_user_in_map(before, next, i as int);
                    lemma_replaced(before, next, i as int, user);
                }
                let mut users = Vec::new();
                core::mem::swap(&mut self.users, &mut users);
                users.set(i, user);
                self.users = users;
                Ok(stored)
            },
            None => {
                if self.next_id > i32::MAX as i64 {
                    return Err(
                        BackendError::Sqlx("no identifier is left for a new user".to_owned()),
                    );
                }
                let user = User { id: self.next_id as i32, email, access_token };
                let stored = user.clone();
                proof {
                    lemma_appended(before, next, user);
                    assert forall|other: Seq<char>| as_map(before).contains_key(other) implies (
                    #[trigger] as_map(before)[other]).id != user.id by {
                        let j = choose|j: int| listed_at(before, j, other);
                        lemma_user_in_map(before, next, j);
                    }
                }
                let mut users = Vec::new();
                core::mem::swap(&mut self.users, &mut users);
                users.push(user);
                let next_id = self.next_id + 1;
                *self = UserDirectory { users, next_id };
                Ok(stored)
            },
        }
    }

    /// The user with the identifier, if the directory holds one.
    pub fn get_user(&self, user_id: i32) -> (found: Option<User>)
        ensures
            match found {
                Some(user) => {
                    &&& user.id == user_id
                    &&& self@.contains_key(user.email@)
                    &&& self@[user.email@] == (Record {
                        id: user_id as int,
                        access_token: user.access_token@,
                    })
                    &&& forall|email: Seq<char>|
                        self@.contains_key(email) && (#[trigger] self@[email]).id == user_id
                            ==> email == user.email@
                },
                None => forall|email: Seq<char>|
                    self@.contains_key(email) ==> (#[trigger] self@[email]).id != user_id,
            },
    {
        proof {
            use_type_invariant(self);
        }
        let mut i: usize = 0;
        while i < self.users.len()
            invariant
                i <= self.users.len(),
                consistent(self.users@, self.next_id as int),
                forall|j: int| 0 <= j < i ==> self.users[j].id != user_id,
            decreases self.users.len() - i,
        {
            if self.users[i].id == user_id {
                proof {
                    lemma_user_in_map(self.users@, self.next_id as int, i as int);
                    assert forall|email: Seq<char>|
                        self@.contains_key(email) && (#[trigger] self@[email]).id
                            == user_id implies email == self.users@[i as int].email@ by {
                        let j = choose|j: int| listed_at(self.users@, j, email);
                        lemma_user_in_map(self.users@, self.next_id as int, j);
                    }
                }
                return Some(self.users[i].clone());
            }
            i += 1;
        }
        proof {
            assert forall|email: Seq<char>| self@.contains_key(email) implies (
            #[trigger] self@[email]).id != user_id by {
                let j = choose|j: int| listed_at(self.users@, j, email);
                lemma_user_in_map(self.users@, self.next_id as int, j);
            }
        }
        None
    }

}

/// Logging in twice under one email yields one identifier, and the token of
/// the second login is the one that stays.
pub proof fn law_upsert_twice(
    directory: Map<Seq<char>, Record>,
    next_id: int,
    email: Seq<char>,
    first: Seq<char>,
    second: Seq<char>,
)
    ensures
        ({
            let once = upserted(directory, next_id, email, first);
            let twice = upserted(once.0, once.1, email, second);
            once.2 matches Some(user) ==> {
                &&& twice.2 == Some(UserModel { id: user.id, email, access_token: second })
                &&& twice.0[email] == (Record { id: user.id, access_token: second })
                &&& twice.1 == once.1
                &&& twice.0.dom() == once.0.dom()
            }
        }),
{
    let once = upserted(directory, next_id, email, first);
    let twice = upserted(once.0, once.1, email, second);
    if once.2 is Some {
        assert(once.0.contains_key(email));
        assert(twice.0.dom() =~= once.0.dom());
    }
}

/// An upsert under one email leaves every other email as it was.
pub proof fn law_upsert_leaves_others(
    directory: Map<Seq<char>, Record>,
    next_id: int,
    email: Seq<char>,
    access_token: Seq<char>,
    other: Seq<char>,
)
    requires
        other != email,
    ensures
        upserted(directory, next_id, email, access_token).0.contains_key(other)
            == directory.contains_key(other),
        directory.contains_key(other) ==> upserted(directory, next_id, email, access_token).0[other]
            == directory[other],
{
}

} // verus!
