//! The repository and its in-memory store: the repository contract, the
//! store's well-formedness invariant, the transition relations of the
//! mutating operations, and the laws that follow from them.

use vstd::prelude::*;

use crate::avatars::{avatar_url_for, default_avatar_path, is_default_avatar, AVATAR_COUNT};
use crate::users::{CreateUser, CreateUserView, StoreError, User, UserView};

verus! {

/// The value of a store: the live rows in insertion order, and every
/// identifier the store has ever issued (a deletion does not give an
/// identifier back).
pub struct StoreView {
    pub users: Seq<UserView>,
    pub issued: Seq<u128>,
}

/// Some live row carries the identifier `id`.
pub open spec fn has_user(users: Seq<UserView>, id: u128) -> bool {
    exists|i: int| 0 <= i < users.len() && users[i].id == id
}

/// Some live row carries the username `name`.
pub open spec fn username_taken(users: Seq<UserView>, name: Seq<char>) -> bool {
    exists|i: int| 0 <= i < users.len() && users[i].username == name
}

/// The index of the live row carrying `id`.
pub open spec fn index_of_user(users: Seq<UserView>, id: u128) -> int {
    choose|i: int| 0 <= i < users.len() && users[i].id == id
}

/// The identifiers of the rows are pairwise distinct.
pub open spec fn ids_distinct(users: Seq<UserView>) -> bool {
    forall|i: int, j: int|
        0 <= i < j < users.len() ==> (#[trigger] users[i].id) != (#[trigger] users[j].id)
}

/// The usernames of the rows are pairwise distinct.
pub open spec fn usernames_distinct(users: Seq<UserView>) -> bool {
    forall|i: int, j: int|
        0 <= i < j < users.len() ==> (#[trigger] users[i].username) != (#[trigger] users[j].username)
}

/// Well-formedness of a store value: identifiers and usernames are pairwise
/// distinct across live rows, every live identifier was issued, and no row's
/// `updated_at` is before its `created_at`.
pub open spec fn store_wf(s: StoreView) -> bool {
    &&& ids_distinct(s.users)
    &&& usernames_distinct(s.users)
    &&& forall|i: int| 0 <= i < s.users.len() ==> s.issued.contains(#[trigger] s.users[i].id)
    &&& forall|i: int|
        0 <= i < s.users.len() ==> (#[trigger] s.users[i].created_at) <= s.users[i].updated_at
}

/// The row a successful creation inserts for `input`, given the drawn
/// identifier `id`, the clock reading `now` and the avatar pick `pick`:
/// the nickname defaults to the username, the avatar to built-in image
/// `pick`, and both timestamps are set to `now`.
pub open spec fn created_user(input: CreateUserView, id: u128, now: i64, pick: int) -> UserView {
    UserView {
        id: id,
        username: input.username,
        password: input.password,
        nickname: match input.nickname {
            Option::Some(n) => n,
            Option::None => input.username,
        },
        avatar_url: match input.avatar_url {
            Option::Some(a) => a,
            Option::None => default_avatar_path(pick),
        },
        created_at: now,
        updated_at: now,
    }
}

/// The step a successful creation makes: the new row's username was free and
/// its identifier never issued before; the row and the identifier are
/// appended; the row carries the given username and password, the defaulted
/// nickname and avatar, and equal timestamps.
pub open spec fn create_transition(
    pre: StoreView,
    input: CreateUserView,
    u: UserView,
    post: StoreView,
) -> bool {
    &&& !username_taken(pre.users, input.username)
    &&& !pre.issued.contains(u.id)
    &&& u.username == input.username
    &&& u.password == input.password
    &&& u.nickname == (match input.nickname {
        Option::Some(n) => n,
        Option::None => input.username,
    })
    &&& (match input.avatar_url {
        Option::Some(a) => u.avatar_url == a,
        Option::None => is_default_avatar(u.avatar_url),
    })
    &&& u.created_at == u.updated_at
    &&& post.users == pre.users.push(u)
    &&& post.issued == pre.issued.push(u.id)
}

/// The row `u` with its password replaced by `pw` and its `updated_at`
/// refreshed to `now` — never moved backwards, even if the clock regressed.
pub open spec fn password_updated(u: UserView, pw: Seq<char>, now: i64) -> UserView {
    UserView {
        id: u.id,
        username: u.username,
        password: pw,
        nickname: u.nickname,
        avatar_url: u.avatar_url,
        created_at: u.created_at,
        updated_at: if now >= u.updated_at {
            now
        } else {
            u.updated_at
        },
    }
}

/// The step a password update makes: with no row carrying `id` it reports a
/// count of zero and changes nothing; otherwise it reports one and rewrites
/// exactly that row.
pub open spec fn update_transition(
    pre: StoreView,
    id: u128,
    pw: Seq<char>,
    now: i64,
    n: usize,
    post: StoreView,
) -> bool {
    if has_user(pre.users, id) {
        let i = index_of_user(pre.users, id);
        &&& n == 1
        &&& post.users == pre.users.update(i, password_updated(pre.users[i], pw, now))
        &&& post.issued == pre.issued
    } else {
        &&& n == 0
        &&& post == pre
    }
}

/// The step a deletion makes: with no row carrying `id` it reports a count of
/// zero and changes nothing; otherwise it reports one and removes exactly
/// that row. The identifier stays issued.
pub open spec fn delete_transition(pre: StoreView, id: u128, n: usize, post: StoreView) -> bool {
    if has_user(pre.users, id) {
        let i = index_of_user(pre.users, id);
        &&& n == 1
        &&& post.users == pre.users.remove(i)
        &&& post.issued == pre.issued
    } else {
        &&& n == 0
        &&& post == pre
    }
}

/// With pairwise-distinct identifiers, the row carrying `id` stands at one
/// index only, and `index_of_user` names it.
pub proof fn lemma_index_of_user(users: Seq<UserView>, id: u128, i: int)
    requires
        ids_distinct(users),
        0 <= i < users.len(),
        users[i].id == id,
    ensures
        has_user(users, id),
        index_of_user(users, id) == i,
{
    assert(has_user(users, id));
    let j = index_of_user(users, id);
    assert(0 <= j < users.len() && users[j].id == id);
    if i < j {
        assert(users[i].id != users[j].id);
    }
    if j < i {
        assert(users[j].id != users[i].id);
    }
}

/// A successful creation preserves well-formedness: the new row's username
/// was free, its identifier fresh and recorded as issued, and its timestamps
/// equal.
pub proof fn lemma_create_preserves_wf(
    pre: StoreView,
    input: CreateUserView,
    u: UserView,
    post: StoreView,
)
    requires
        store_wf(pre),
        create_transition(pre, input, u, post),
    ensures
        store_wf(post),
{
    let n = pre.users.len() as int;
    assert forall|i: int, j: int|
        0 <= i < j < post.users.len() implies (#[trigger] post.users[i].id) != (
    #[trigger] post.users[j].id) by {
        if j < n {
            assert(pre.users[i].id != pre.users[j].id);
        } else {
            assert(post.users[j] == u);
            assert(pre.issued.contains(pre.users[i].id));
        }
    }
    assert forall|i: int, j: int|
        0 <= i < j < post.users.len() implies (#[trigger] post.users[i].username) != (
    #[trigger] post.users[j].username) by {
        if j < n {
            assert(pre.users[i].username != pre.users[j].username);
        } else {
            assert(post.users[j] == u);
            assert(!(0 <= i < pre.users.len() && pre.users[i].username == input.username));
        }
    }
    assert forall|i: int| 0 <= i < post.users.len() implies post.issued.contains(
        #[trigger] post.users[i].id,
    ) by {
        if i < n {
            assert(pre.issued.contains(pre.users[i].id));
            let k = choose|k: int| 0 <= k < pre.issued.len() && pre.issued[k] == pre.users[i].id;
            assert(post.issued[k] == post.users[i].id);
        } else {
            assert(post.issued[pre.issued.len() as int] == u.id);
            assert(post.users[i] == u);
        }
    }
}

/// A password update preserves well-formedness: it rewrites one row, keeping
/// its identifier, its username and its `created_at`, and never moves
/// `updated_at` backwards.
pub proof fn lemma_update_preserves_wf(
    pre: StoreView,
    id: u128,
    pw: Seq<char>,
    now: i64,
    n: usize,
    post: StoreView,
)
    requires
        store_wf(pre),
        update_transition(pre, id, pw, now, n, post),
    ensures
        store_wf(post),
{
    if has_user(pre.users, id) {
        let i = index_of_user(pre.users, id);
        assert(forall|k: int|
            0 <= k < post.users.len() ==> (#[trigger] post.users[k]).id == pre.users[k].id
                && post.users[k].username == pre.users[k].username);
        assert forall|k: int|
            0 <= k < post.users.len() implies (#[trigger] post.users[k].created_at)
            <= post.users[k].updated_at by {
            assert(pre.users[k].created_at <= pre.users[k].updated_at);
        }
        assert forall|a: int, b: int|
            0 <= a < b < post.users.len() implies (#[trigger] post.users[a].id) != (
        #[trigger] post.users[b].id) by {
            assert(pre.users[a].id != pre.users[b].id);
        }
        assert forall|a: int, b: int|
            0 <= a < b < post.users.len() implies (#[trigger] post.users[a].username) != (
        #[trigger] post.users[b].username) by {
            assert(pre.users[a].username != pre.users[b].username);
        }
        assert forall|k: int| 0 <= k < post.users.len() implies post.issued.contains(
            #[trigger] post.users[k].id,
        ) by {
            assert(pre.issued.contains(pre.users[k].id));
        }
    }
}

/// A deletion preserves well-formedness: the rows after it are the rows
/// before it with one taken out, and the issued identifiers are unchanged.
pub proof fn lemma_delete_preserves_wf(pre: StoreView, id: u128, n: usize, post: StoreView)
    requires
        store_wf(pre),
        delete_transition(pre, id, n, post),
    ensures
        store_wf(post),
{
    if has_user(pre.users, id) {
        let i = index_of_user(pre.users, id);
        pre.users.remove_ensures(i);
        assert forall|k: int| 0 <= k < post.users.len() implies exists|k0: int|
            0 <= k0 < pre.users.len() && #[trigger] post.users[k] == pre.users[k0] && (k < i ==> k0
                == k) && (k >= i ==> k0 == k + 1) by {
            if k < i {
                assert(post.users[k] == pre.users[k]);
            } else {
                assert(post.users[k] == pre.users[k + 1]);
            }
        }
        assert forall|a: int, b: int|
            0 <= a < b < post.users.len() implies (#[trigger] post.users[a].id) != (
        #[trigger] post.users[b].id) && post.users[a].username != post.users[b].username by {
            let a0: int = if a < i {
                a
            } else {
                a + 1
            };
            let b0: int = if b < i {
                b
            } else {
                b + 1
            };
            assert(post.users[a] == pre.users[a0]);
            assert(post.users[b] == pre.users[b0]);
            assert(pre.users[a0].id != pre.users[b0].id);
            assert(pre.users[a0].username != pre.users[b0].username);
        }
        assert forall|k: int| 0 <= k < post.users.len() implies post.issued.contains(
            #[trigger] post.users[k].id,
        ) && post.users[k].created_at <= post.users[k].updated_at by {
            let k0: int = if k < i {
                k
            } else {
                k + 1
            };
            assert(post.users[k] == pre.users[k0]);
            assert(pre.issued.contains(pre.users[k0].id));
        }
    }
}

/// Relies on uuid's `Uuid::new_v4` and `Uuid::as_u128`: a freshly drawn
/// random identifier, as its 128-bit value. The value is random, so nothing
/// is promised of it; the store itself checks it against every identifier it
/// issued before. Panics only if the operating system's randomness source
/// fails — an environment fault no input can provoke.
#[verifier::external_body]
fn fresh_id() -> u128 {
    uuid::Uuid::new_v4().as_u128()
}

/// Relies on chrono's `Utc::now` and `DateTime::timestamp_micros`: the
/// current UTC wall clock in microseconds since the epoch. The clock may
/// move backwards between calls, so nothing is promised of the value; the
/// store never moves a row's `updated_at` backwards itself. Panics only if
/// the machine's clock reads outside chrono's representable range — an
/// environment fault no input can provoke.
#[verifier::external_body]
fn now_micros() -> i64 {
    chrono::Utc::now().timestamp_micros()
}

/// An in-memory store: the single source of truth the repository operations
/// act on. Rows are kept in insertion order.
pub struct MemStore {
    users: Vec<User>,
    issued: Vec<u128>,
}

impl View for MemStore {
    type V = StoreView;

    closed spec fn view(&self) -> StoreView {
        StoreView {
            users: self.users@.map_values(|u: User| u@),
            issued: self.issued@,
        }
    }
}

impl MemStore {
    /// An empty store: no rows, and no identifiers issued yet.
    pub fn new() -> (r: MemStore)
        ensures
            store_wf(r@),
            r@.users == Seq::<UserView>::empty(),
            r@.issued == Seq::<u128>::empty(),
    {
        let r = MemStore { users: Vec::new(), issued: Vec::new() };
        proof {
            assert(r@.users =~= Seq::<UserView>::empty());
            assert(r@.issued =~= Seq::<u128>::empty());
        }
        r
    }

    /// The position of the live row carrying `id`, if there is one.
    fn position_of_id(&self, id: u128) -> (r: Option<usize>)
        ensures
            match r {
                Option::Some(i) => 0 <= i < self@.users.len() && self@.users[i as int].id == id,
                Option::None => !has_user(self@.users, id),
            },
    {
        let mut i: usize = 0;
        while i < self.users.len()
            invariant
                0 <= i <= self.users.len(),
                self@.users.len() == self.users@.len(),
                forall|j: int| 0 <= j < i ==> self@.users[j].id != id,
                forall|j: int| 0 <= j < self.users@.len() ==> self@.users[j] == self.users@[j]@,
            decreases self.users.len() - i,
        {
            if self.users[i].id == id {
                return Option::Some(i);
            }
            i += 1;
        }
        Option::None
    }

    /// Whether some live row carries the username `name`.
    fn username_in_use(&self, name: &String) -> (r: bool)
        ensures
            r == username_taken(self@.users, name@),
    {
        let mut i: usize = 0;
        while i < self.users.len()
            invariant
                0 <= i <= self.users.len(),
                self@.users.len() == self.users@.len(),
                forall|j: int| 0 <= j < i ==> self@.users[j].username != name@,
                forall|j: int| 0 <= j < self.users@.len() ==> self@.users[j] == self.users@[j]@,
            decreases self.users.len() - i,
        {
            if self.users[i].username == *name {
                proof {
                    assert(0 <= i < self@.users.len() && self@.users[i as int].username == name@);
                }
                return true;
            }
            i += 1;
        }
        false
    }

    /// Creation from an already-drawn identifier `id`, clock reading `now`
    /// and avatar pick `pick`: the new row is appended, unless its username
    /// is already taken or `id` was issued before — then the store reports a
    /// uniqueness conflict and changes nothing.
    pub fn create_user_with(
        &mut self,
        input: CreateUser,
        id: u128,
        now: i64,
        pick: i32,
    ) -> (r: Result<User, StoreError>)
        requires
            store_wf(old(self)@),
            1 <= pick <= AVATAR_COUNT,
        ensures
            store_wf(final(self)@),
            match r {
                Result::Ok(u) => u@ == created_user(input@, id, now, pick as int)
                    && create_transition(old(self)@, input@, u@, final(self)@),
                Result::Err(e) => e == StoreError::UniqueViolation && final(self)@ == old(self)@
                    && (username_taken(old(self)@.users, input@.username) || old(
                    self,
                )@.issued.contains(id)),
            },
            r is Err <==> (username_taken(old(self)@.users, input@.username) || old(
                self,
            )@.issued.contains(id)),
    {
        let ghost inp = input@;
        if self.username_in_use(&input.username) {
            return Result::Err(StoreError::UniqueViolation);
        }
        if self.id_issued(id) {
            return Result::Err(StoreError::UniqueViolation);
        }
        let CreateUser { username, password, nickname, avatar_url } = input;
        let nickname: String = match nickname {
            Option::Some(n) => n,
            Option::None => username.clone(),
        };
        let avatar_url: String = match avatar_url {
            Option::Some(a) => a,
            Option::None => avatar_url_for(pick),
        };
        let user = User {
            id,
            username,
            password,
            nickname,
            avatar_url,
            created_at: now,
            updated_at: now,
        };
        let out = user.clone();
        proof {
            assert(user@ == created_user(inp, id, now, pick as int));
        }
        self.users.push(user);
        self.issued.push(id);
        proof {
            assert(self@.users =~= old(self)@.users.push(created_user(inp, id, now, pick as int)));
            assert(self@.issued =~= old(self)@.issued.push(id));
            assert(create_transition(old(self)@, inp, out@, self@));
            lemma_create_preserves_wf(old(self)@, inp, out@, self@);
        }
        Result::Ok(out)
    }

    /// A password update from an already-read clock value `now`: the row
    /// carrying `user_id` gets the new password and a refreshed `updated_at`
    /// — never moved backwards, even if the clock regressed — and the
    /// reported count says whether such a row existed.
    pub fn update_user_password_at(
        &mut self,
        user_id: u128,
        new_password: &str,
        now: i64,
    ) -> (r: Result<usize, StoreError>)
        requires
            store_wf(old(self)@),
        ensures
            store_wf(final(self)@),
            match r {
                Result::Ok(n) => update_transition(
                    old(self)@,
                    user_id,
                    new_password@,
                    now,
                    n,
                    final(self)@,
                ),
                Result::Err(_) => false,
            },
    {
        match self.position_of_id(user_id) {
            Option::None => Result::Ok(0),
            Option::Some(i) => {
                let row = self.users.remove(i);
                let new_row = User {
                    id: row.id,
                    username: row.username,
                    password: new_password.to_owned(),
                    nickname: row.nickname,
                    avatar_url: row.avatar_url,
                    created_at: row.created_at,
                    updated_at: if now >= row.updated_at {
                        now
                    } else {
                        row.updated_at
                    },
                };
                self.users.insert(i, new_row);
                proof {
                    lemma_index_of_user(old(self)@.users, user_id, i as int);
                    assert(self@.users =~= old(self)@.users.update(
                        i as int,
                        password_updated(old(self)@.users[i as int], new_password@, now),
                    ));
                    assert(update_transition(old(self)@, user_id, new_password@, now, 1, self@));
                    lemma_update_preserves_wf(old(self)@, user_id, new_password@, now, 1, self@);
                }
                Result::Ok(1)
            },
        }
    }

    /// Whether the identifier `id` was issued before.
    fn id_issued(&self, id: u128) -> (r: bool)
        ensures
            r == self@.issued.contains(id),
    {
        let mut i: usize = 0;
        while i < self.issued.len()
            invariant
                0 <= i <= self.issued.len(),
                self@.issued == self.issued@,
                forall|j: int| 0 <= j < i ==> self@.issued[j] != id,
            decreases self.issued.len() - i,
        {
            if self.issued[i] == id {
                return true;
            }
            i += 1;
        }
        false
    }
}

/// The account-repository contract: create, read, update and delete over
/// user records held in a store.
pub trait UserRepository {
    /// The value of the store this repository acts on.
    spec fn store(&self) -> StoreView;

    /// Well-formedness of the store this repository acts on.
    spec fn wf(&self) -> bool;

    /// Lookup by primary key. Absence is not an error: with no row carrying
    /// `user_id` the result is `Ok(None)`.
    fn find_user(&self, user_id: u128) -> (r: Result<Option<User>, StoreError>)
        requires
            self.wf(),
        ensures
            match r {
                Result::Ok(o) => match o {
                    Option::Some(u) => has_user(self.store().users, user_id) && u@
                        == self.store().users[index_of_user(self.store().users, user_id)],
                    Option::None => !has_user(self.store().users, user_id),
                },
                Result::Err(_) => false,
            },
    ;

    /// Every account, in insertion order.
    fn find_users(&self) -> (r: Result<Vec<User>, StoreError>)
        requires
            self.wf(),
        ensures
            match r {
                Result::Ok(v) => v@.len() == self.store().users.len() && (forall|i: int|
                    0 <= i < v@.len() ==> (#[trigger] v@[i])@ == self.store().users[i]),
                Result::Err(_) => false,
            },
    ;

    /// Creation: a fresh identifier and the current time are drawn, the
    /// nickname defaults to the username and the avatar to a member of the
    /// default set. A taken username is a uniqueness conflict; a conflict
    /// changes nothing. The identifier is drawn at random and may collide
    /// with one issued before, so success on a free username is promised
    /// only where no draw can decide: on a store that has issued no
    /// identifier yet. `MemStore::create_user_with` says exactly when
    /// success is owed.
    fn create_user(&mut self, input: CreateUser) -> (r: Result<User, StoreError>)
        requires
            old(self).wf(),
        ensures
            final(self).wf(),
            match r {
                Result::Ok(u) => create_transition(
                    old(self).store(),
                    input@,
                    u@,
                    final(self).store(),
                ),
                Result::Err(e) => e == StoreError::UniqueViolation && final(self).store() == old(
                    self,
                ).store(),
            },
            username_taken(old(self).store().users, input@.username) ==> r is Err,
            r is Err ==> (username_taken(old(self).store().users, input@.username) || old(
                self,
            ).store().issued.len() > 0),
    ;

    /// Password update. The count says whether a row carrying `user_id`
    /// existed; absence is not an error.
    fn update_user_password(&mut self, user_id: u128, new_password: &str) -> (r: Result<
        usize,
        StoreError,
    >)
        requires
            old(self).wf(),
        ensures
            final(self).wf(),
            match r {
                Result::Ok(n) => exists|now: i64|
                    update_transition(
                        old(self).store(),
                        user_id,
                        new_password@,
                        now,
                        n,
                        final(self).store(),
                    ),
                Result::Err(_) => false,
            },
    ;

    /// Hard delete. The count says whether a row carrying `user_id` existed;
    /// absence is not an error, and the identifier stays issued.
    fn delete_user(&mut self, user_id: u128) -> (r: Result<usize, StoreError>)
        requires
            old(self).wf(),
        ensures
            final(self).wf(),
            match r {
                Result::Ok(n) => delete_transition(
                    old(self).store(),
                    user_id,
                    n,
                    final(self).store(),
                ),
                Result::Err(_) => false,
            },
    ;
}

impl UserRepository for MemStore {
    open spec fn store(&self) -> StoreView {
        self@
    }

    open spec fn wf(&self) -> bool {
        store_wf(self@)
    }

    fn find_user(&self, user_id: u128) -> (r: Result<Option<User>, StoreError>) {
        match self.position_of_id(user_id) {
            Option::None => Result::Ok(Option::None),
            Option::Some(i) => {
                let u = self.users[i].clone();
                proof {
                    lemma_index_of_user(self@.users, user_id, i as int);
                }
                Result::Ok(Option::Some(u))
            },
        }
    }

    fn find_users(&self) -> (r: Result<Vec<User>, StoreError>) {
        let mut out: Vec<User> = Vec::new();
        let mut i: usize = 0;
        while i < self.users.len()
            invariant
                0 <= i <= self.users.len(),
                out@.len() == i,
                self@.users.len() == self.users@.len(),
                forall|j: int| 0 <= j < i ==> (#[trigger] out@[j])@ == self@.users[j],
                forall|j: int| 0 <= j < self.users@.len() ==> self@.users[j] == self.users@[j]@,
            decreases self.users.len() - i,
        {
            out.push(self.users[i].clone());
            i += 1;
        }
        Result::Ok(out)
    }

    fn create_user(&mut self, input: CreateUser) -> (r: Result<User, StoreError>) {
        let id: u128 = fresh_id();
        let now: i64 = now_micros();
        let pick: i32 = crate::avatars::pick_avatar_index();
        self.create_user_with(input, id, now, pick)
    }

    fn update_user_password(&mut self, user_id: u128, new_password: &str) -> (r: Result<
        usize,
        StoreError,
    >) {
        let now: i64 = now_micros();
        let r = self.update_user_password_at(user_id, new_password, now);
        proof {
            match r {
                Result::Ok(n) => {
                    assert(exists|t: i64|
                        update_transition(
                            old(self).store(),
                            user_id,
                            new_password@,
                            t,
                            n,
                            self.store(),
                        )) by {
                        assert(update_transition(
                            old(self).store(),
                            user_id,
                            new_password@,
                            now,
                            n,
                            self.store(),
                        ));
                    }
                },
                Result::Err(_) => {},
            }
        }
        r
    }

    fn delete_user(&mut self, user_id: u128) -> (r: Result<usize, StoreError>) {
        match self.position_of_id(user_id) {
            Option::None => Result::Ok(0),
            Option::Some(i) => {
                let _row = self.users.remove(i);
                proof {
                    lemma_index_of_user(old(self)@.users, user_id, i as int);
                    assert(self@.users =~= old(self)@.users.remove(i as int));
                    lemma_delete_preserves_wf(old(self)@, user_id, 1, self@);
                }
                Result::Ok(1)
            },
        }
    }
}

/// Identifier uniqueness: a successful creation never returns an identifier
/// the store issued before, and no operation takes an identifier back, so
/// the identifiers of any two successful creations differ — with any number
/// of further operations in between, abstracted here as the earlier issued
/// identifiers staying a prefix of the later ones.
pub proof fn lemma_created_ids_distinct(
    s0: StoreView,
    in1: CreateUserView,
    u1: UserView,
    s1: StoreView,
    s2: StoreView,
    in2: CreateUserView,
    u2: UserView,
    s3: StoreView,
)
    requires
        create_transition(s0, in1, u1, s1),
        s1.issued.is_prefix_of(s2.issued),
        create_transition(s2, in2, u2, s3),
    ensures
        u1.id != u2.id,
{
    let k = s0.issued.len() as int;
    assert(s1.issued[k] == u1.id);
    assert(s2.issued[k] == u1.id);
    assert(s2.issued.contains(u1.id));
}

/// Every operation leaves the already issued identifiers as a prefix of the
/// issued identifiers after it: identifiers are never taken back, so the
/// reachability premise of `lemma_created_ids_distinct` holds of any chain
/// of operations.
pub proof fn lemma_issued_monotone(
    pre: StoreView,
    post: StoreView,
    input: CreateUserView,
    u: UserView,
    id: u128,
    pw: Seq<char>,
    now: i64,
    n: usize,
)
    requires
        create_transition(pre, input, u, post) || update_transition(pre, id, pw, now, n, post)
            || delete_transition(pre, id, n, post),
    ensures
        pre.issued.is_prefix_of(post.issued),
{
    if create_transition(pre, input, u, post) {
        assert(pre.issued =~= post.issued.subrange(0, pre.issued.len() as int));
    } else {
        assert(post.issued == pre.issued);
        assert(pre.issued =~= post.issued.subrange(0, pre.issued.len() as int));
    }
}

/// Username uniqueness is enforced: right after a successful creation its
/// username is taken, so a second creation with the same username fails with
/// a conflict and inserts nothing — only one row with that username
/// persists, as `usernames_distinct` states of every well-formed store.
pub proof fn lemma_duplicate_username_conflicts(
    s0: StoreView,
    in1: CreateUserView,
    u1: UserView,
    s1: StoreView,
    in2: CreateUserView,
)
    requires
        create_transition(s0, in1, u1, s1),
        in2.username == in1.username,
    ensures
        username_taken(s1.users, in2.username),
{
    assert(s1.users[s0.users.len() as int].username == in1.username);
}

/// What a password update that found its row did to the store: the row keeps
/// its identifier, username, nickname, avatar and `created_at`, gets the new
/// password, and its `updated_at` never decreases; every other row and the
/// issued identifiers are untouched.
pub proof fn lemma_update_effect(
    pre: StoreView,
    id: u128,
    pw: Seq<char>,
    now: i64,
    n: usize,
    post: StoreView,
)
    requires
        update_transition(pre, id, pw, now, n, post),
        has_user(pre.users, id),
    ensures
        n == 1,
        post.users.len() == pre.users.len(),
        post.issued == pre.issued,
        ({
            let i = index_of_user(pre.users, id);
            &&& 0 <= i < pre.users.len()
            &&& pre.users[i].id == id
            &&& post.users[i].id == id
            &&& post.users[i].password == pw
            &&& post.users[i].updated_at >= pre.users[i].updated_at
            &&& post.users[i].username == pre.users[i].username
            &&& post.users[i].nickname == pre.users[i].nickname
            &&& post.users[i].avatar_url == pre.users[i].avatar_url
            &&& post.users[i].created_at == pre.users[i].created_at
            &&& forall|j: int|
                0 <= j < pre.users.len() && j != i ==> post.users[j] == pre.users[j]
        }),
{
}

/// Absence is idempotent: a password update and a deletion aimed at an
/// identifier no live row carries both report a count of zero and leave the
/// store unchanged.
pub proof fn lemma_absent_is_noop(
    pre: StoreView,
    id: u128,
    pw: Seq<char>,
    now: i64,
    nu: usize,
    nd: usize,
    post_u: StoreView,
    post_d: StoreView,
)
    requires
        !has_user(pre.users, id),
        update_transition(pre, id, pw, now, nu, post_u),
        delete_transition(pre, id, nd, post_d),
    ensures
        nu == 0,
        post_u == pre,
        nd == 0,
        post_d == pre,
{
}


} // verus!
