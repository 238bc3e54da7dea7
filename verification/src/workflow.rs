//! The linking workflow: receive an account id and a candidate username,
//! consult the identity verifier, and only on a confirmed account create
//! a link. Each distinct failure keeps its own outcome; none is downgraded
//! into another, and nothing is created unless the verifier confirmed.

use vstd::prelude::*;
use crate::identity::VerifyOutcome;
use crate::store::LinkStore;
use crate::store::StorageError;
use crate::store::User;
use crate::store::find_spec;
use crate::store::lemma_created_then_found;
use crate::store::user_matches;

verus! {

/// The terminal outcome of one linking attempt.
pub enum LinkOutcome {
    /// The username was verified and the link committed; the row returned
    /// is exactly the one committed.
    Linked(User),
    /// The upstream service reported no such account; nothing was created.
    NoSuchUser,
    /// The upstream service was not usable; nothing was created, and the
    /// caller may retry as a brand-new attempt.
    Unavailable(String),
    /// The store failed; nothing was committed.
    StorageFailed(StorageError),
    /// The candidate username was empty; nothing was consulted or created.
    InvalidInput,
}

/// The workflow's input constraint: a candidate username must be
/// non-empty before anything — the verifier included — is consulted; no
/// other local format check is made.
pub fn admissible_username(username: &str) -> (r: bool)
    ensures
        r == (username@.len() > 0),
{
    username.unicode_len() > 0
}

/// The decision after the verifier's report: only a confirmed account may
/// proceed to the store; each other report ends the attempt with its own
/// outcome, before any storage call.
pub fn decide_after_verify(verdict: VerifyOutcome) -> (r: Option<LinkOutcome>)
    ensures
        match verdict {
            VerifyOutcome::Found => r is None,
            VerifyOutcome::NotFound => r == Some(LinkOutcome::NoSuchUser),
            VerifyOutcome::UpstreamUnavailable(d) => r == Some(LinkOutcome::Unavailable(d)),
        },
{
    match verdict {
        VerifyOutcome::Found => None,
        VerifyOutcome::NotFound => Some(LinkOutcome::NoSuchUser),
        VerifyOutcome::UpstreamUnavailable(d) => Some(LinkOutcome::Unavailable(d)),
    }
}

/// The workflow's last step when the storage call is made by the caller
/// (a durable backend outside this crate): a committed row is reported as
/// linked, a storage failure as such — never as a missing account.
pub fn outcome_after_store(stored: Result<User, StorageError>) -> (r: LinkOutcome)
    ensures
        match stored {
            Ok(u) => r == LinkOutcome::Linked(u),
            Err(e) => r == LinkOutcome::StorageFailed(e),
        },
{
    match stored {
        Ok(u) => LinkOutcome::Linked(u),
        Err(e) => LinkOutcome::StorageFailed(e),
    }
}

impl LinkStore {
    /// One linking attempt run against this store, with the verifier's
    /// report supplied by the caller (the verification itself is a remote
    /// call). A link is created exactly when the report is `Found` and an
    /// id is left to assign; the created link is retrievable afterward by
    /// its account id; on every other path the store is unchanged.
    pub fn link_user(&mut self, discord_id: i64, anilist_username: &str, verdict: VerifyOutcome) -> (r:
        LinkOutcome)
        requires
            old(self).wf(),
        ensures
            final(self).wf(),
            anilist_username@.len() == 0 ==> {
                &&& r == LinkOutcome::InvalidInput
                &&& final(self)@ == old(self)@
                &&& final(self).spec_next_id() == old(self).spec_next_id()
            },
            anilist_username@.len() > 0 ==> match verdict {
                VerifyOutcome::Found => match r {
                    LinkOutcome::Linked(u) => {
                        &&& final(self)@ == old(self)@.push(u)
                        &&& user_matches(
                            u,
                            old(self).spec_next_id(),
                            discord_id,
                            anilist_username@,
                        )
                        &&& find_spec(final(self)@, discord_id) == Some(u)
                        &&& final(self).spec_next_id() == old(self).spec_next_id() + 1
                    },
                    LinkOutcome::StorageFailed(_) => {
                        &&& final(self)@ == old(self)@
                        &&& final(self).spec_next_id() == old(self).spec_next_id()
                        &&& old(self).spec_next_id() == u64::MAX
                    },
                    _ => false,
                },
                VerifyOutcome::NotFound => {
                    &&& r == LinkOutcome::NoSuchUser
                    &&& final(self)@ == old(self)@
                    &&& final(self).spec_next_id() == old(self).spec_next_id()
                },
                VerifyOutcome::UpstreamUnavailable(d) => {
                    &&& r == LinkOutcome::Unavailable(d)
                    &&& final(self)@ == old(self)@
                    &&& final(self).spec_next_id() == old(self).spec_next_id()
                },
            },
    {
        if !admissible_username(anilist_username) {
            return LinkOutcome::InvalidInput;
        }
        match decide_after_verify(verdict) {
            Some(outcome) => outcome,
            None => {
                let stored = self.create_user(discord_id, anilist_username);
                proof {
                    if let Ok(u) = &stored {
                        lemma_created_then_found(old(self)@, *u);
                    }
                }
                outcome_after_store(stored)
            },
        }
    }
}

} // verus!
