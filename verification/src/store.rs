//! The link store: a durable table of user links, with "create and read
//! back what was committed" and "find the most recently created link for
//! an account" as its two operations.

use vstd::prelude::*;

verus! {

/// A persisted link between a messaging-platform account (`discord_id`)
/// and a verified media-tracking-site username (`anilist_username`).
pub struct User {
    /// Surrogate identifier assigned by the store; reflects insertion order.
    pub id: u64,
    /// The messaging-platform account identifier.
    pub discord_id: i64,
    /// The media-tracking-site username the account is linked to.
    pub anilist_username: String,
}

impl Clone for User {
    fn clone(&self) -> (r: Self)
        ensures
            r == *self,
    {
        User {
            id: self.id,
            discord_id: self.discord_id,
            anilist_username: self.anilist_username.clone(),
        }
    }
}

/// The shape of a row handed to an insert, before the store assigns an id.
pub struct NewUser<'a> {
    pub discord_id: i64,
    pub anilist_username: &'a str,
}

/// Why a storage operation failed; nothing is committed in either case.
#[derive(Debug)]
pub enum StorageError {
    /// Every identifier has been handed out; no further row can be created.
    IdsExhausted,
    /// The storage backend could not be reached.
    ConnectionLost,
}

/// A freshly created row carries exactly the identifier it was assigned
/// and the values it was created from.
pub open spec fn user_matches(u: User, id: u64, discord_id: i64, username: Seq<char>) -> bool {
    &&& u.id == id
    &&& u.discord_id == discord_id
    &&& u.anilist_username@ == username
}

/// What a lookup by account id returns: the most recently inserted row
/// whose `discord_id` matches, if any.
pub open spec fn find_spec(s: Seq<User>, discord_id: i64) -> Option<User>
    decreases s.len(),
{
    if s.len() == 0 {
        None
    } else if s.last().discord_id == discord_id {
        Some(s.last())
    } else {
        find_spec(s.drop_last(), discord_id)
    }
}

/// Identifiers strictly increase along the table, so insertion order can
/// be read off the ids.
pub open spec fn ids_increasing(s: Seq<User>) -> bool {
    forall|i: int, j: int| 0 <= i < j < s.len() ==> s[i].id < s[j].id
}

/// The table of user links. Rows are only ever appended; ids are assigned
/// by the store, starting at 1, in insertion order.
pub struct LinkStore {
    records: Vec<User>,
    next_id: u64,
}

impl View for LinkStore {
    type V = Seq<User>;

    closed spec fn view(&self) -> Seq<User> {
        self.records@
    }
}

impl LinkStore {
    /// The identifier the next created row will receive.
    pub closed spec fn spec_next_id(&self) -> u64 {
        self.next_id
    }

    /// Well-formed store: ids follow insertion order and stay below the
    /// next free one, which starts at 1.
    pub open spec fn wf(&self) -> bool {
        &&& ids_increasing(self@)
        &&& forall|i: int| 0 <= i < self@.len() ==> (#[trigger] self@[i]).id < self.spec_next_id()
        &&& self.spec_next_id() >= 1
    }

    /// An empty store; the first created row receives id 1.
    pub fn new() -> (s: LinkStore)
        ensures
            s@ == Seq::<User>::empty(),
            s.spec_next_id() == 1,
            s.wf(),
    {
        LinkStore { records: Vec::new(), next_id: 1 }
    }

    /// Inserts a new row built from the given values, then reads the most
    /// recently inserted row back, as one indivisible step: either both
    /// happen and the returned row is exactly the row that was committed,
    /// or nothing is committed and the store is unchanged.
    pub fn create_user(&mut self, discord_id: i64, anilist_username: &str) -> (r: Result<
        User,
        StorageError,
    >)
        requires
            old(self).wf(),
        ensures
            final(self).wf(),
            match r {
                Ok(u) => {
                    &&& final(self)@ == old(self)@.push(u)
                    &&& user_matches(u, old(self).spec_next_id(), discord_id, anilist_username@)
                    &&& final(self).spec_next_id() == old(self).spec_next_id() + 1
                },
                Err(e) => {
                    &&& final(self)@ == old(self)@
                    &&& final(self).spec_next_id() == old(self).spec_next_id()
                    &&& e is IdsExhausted
                },
            },
            r is Err <==> old(self).spec_next_id() == u64::MAX,
    {
        if self.next_id == u64::MAX {
            return Err(StorageError::IdsExhausted);
        }
        let new_user = NewUser { discord_id, anilist_username };
        let row = User {
            id: self.next_id,
            discord_id: new_user.discord_id,
            anilist_username: new_user.anilist_username.to_owned(),
        };
        self.records.push(row);
        self.next_id = self.next_id + 1;
        let committed = &self.records[self.records.len() - 1];
        Ok(committed.clone())
    }

    /// Looks the link up by messaging-platform account id. When several
    /// rows match, the most recently created one (the one with the largest
    /// id) is returned; an empty result is not an error.
    pub fn get_user(&self, discord_id: i64) -> (r: Option<User>)
        ensures
            r == find_spec(self@, discord_id),
    {
        let n = self.records.len();
        let mut i: usize = n;
        proof {
            assert(self.records@.take(n as int) =~= self.records@);
        }
        while i > 0
            invariant
                i <= n,
                n == self.records@.len(),
                find_spec(self.records@, discord_id) == find_spec(
                    self.records@.take(i as int),
                    discord_id,
                ),
            decreases i,
        {
            i = i - 1;
            let row = &self.records[i];
            proof {
                assert(self.records@.take(i as int + 1).last() == self.records@[i as int]);
                assert(self.records@.take(i as int + 1).drop_last() =~= self.records@.take(
                    i as int,
                ));
            }
            if row.discord_id == discord_id {
                return Some(row.clone());
            }
        }
        None
    }
}

/// A lookup misses exactly when no row carries the account id.
pub proof fn lemma_find_spec_none(s: Seq<User>, discord_id: i64)
    ensures
        (find_spec(s, discord_id) is None) <==> (forall|i: int|
            0 <= i < s.len() ==> (#[trigger] s[i]).discord_id != discord_id),
    decreases s.len(),
{
    if s.len() > 0 {
        lemma_find_spec_none(s.drop_last(), discord_id);
        assert(forall|i: int|
            0 <= i < s.len() - 1 ==> s.drop_last()[i] == (#[trigger] s[i]));
        assert(s.last() == s[s.len() - 1]);
    }
}

/// The row a lookup returns stands in the table, carries the looked-up
/// account id, and — under insertion-order ids — the largest id among all
/// rows with that account id: the most recent link wins.
pub proof fn lemma_find_spec_most_recent(s: Seq<User>, discord_id: i64)
    requires
        ids_increasing(s),
    ensures
        match find_spec(s, discord_id) {
            Some(u) => {
                &&& u.discord_id == discord_id
                &&& exists|i: int| 0 <= i < s.len() && s[i] == u
                &&& forall|i: int|
                    0 <= i < s.len() && (#[trigger] s[i]).discord_id == discord_id ==> s[i].id
                        <= u.id
            },
            None => forall|i: int| 0 <= i < s.len() ==> (#[trigger] s[i]).discord_id != discord_id,
        },
    decreases s.len(),
{
    if s.len() == 0 {
    } else if s.last().discord_id == discord_id {
        let u = s.last();
        assert(s[s.len() - 1] == u);
        assert(forall|i: int|
            0 <= i < s.len() && (#[trigger] s[i]).discord_id == discord_id ==> s[i].id <= u.id);
    } else {
        let t = s.drop_last();
        assert(forall|i: int| 0 <= i < t.len() ==> t[i] == (#[trigger] s[i]));
        assert(ids_increasing(t));
        lemma_find_spec_most_recent(t, discord_id);
        assert(forall|i: int| 0 <= i < s.len() - 1 ==> t[i] == (#[trigger] s[i]));
        match find_spec(t, discord_id) {
            Some(u) => {
                let w = choose|i: int| 0 <= i < t.len() && t[i] == u;
                assert(s[w] == u);
            },
            None => {
                assert(s.last() == s[s.len() - 1]);
            },
        }
    }
}

/// A freshly created link is found by the lookup that follows it.
pub proof fn lemma_created_then_found(s: Seq<User>, u: User)
    ensures
        find_spec(s.push(u), u.discord_id) == Some(u),
{
    assert(s.push(u).last() == u);
}

/// Looking a link up twice, with no create in between, returns the same
/// result: the lookup is a function of the table's state alone.
pub proof fn lemma_lookup_idempotent(s: Seq<User>, discord_id: i64, r1: Option<User>, r2: Option<
    User,
>)
    requires
        r1 == find_spec(s, discord_id),
        r2 == find_spec(s, discord_id),
    ensures
        r1 == r2,
{
}

/// Creating two links for the same account, then looking the account up,
/// returns the link created last.
pub proof fn lemma_most_recent_wins(s: Seq<User>, first: User, second: User, discord_id: i64)
    requires
        first.discord_id == discord_id,
        second.discord_id == discord_id,
    ensures
        find_spec(s.push(first).push(second), discord_id) == Some(second),
{
    lemma_created_then_found(s.push(first), second);
}

} // verus!
