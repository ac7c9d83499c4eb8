//! The user store: user rows and settings rows, keyed by subject
//! identifier, with read-through auto-provisioning.
//!
//! This is the store the service logic is verified against and the
//! in-memory double used by tests; the production deployment keeps the
//! same rows in a relational store behind the same operations.

use vstd::prelude::*;
use vstd::string::StringExecFns;
use crate::bykey::{lemma_map_by_dom, lemma_map_by_pairs, lemma_map_by_update, spec_map_by};
use crate::models::{
    spec_applied_setting_update, spec_applied_user_update, Setting, UpdateSettingRequest,
    UpdateUserRequest, User,
};
use crate::strutil::str_eq;

verus! {

/// The key of a user row: its subject identifier.
pub open spec fn user_key() -> spec_fn(User) -> Seq<char> {
    |u: User| u.sub@
}

/// The key of a settings row: its subject identifier.
pub open spec fn setting_key() -> spec_fn(Setting) -> Seq<char> {
    |s: Setting| s.sub@
}

/// User rows and settings rows, at most one of each per subject.
pub struct UserStore {
    users: Vec<User>,
    settings: Vec<Setting>,
}

impl UserStore {
    /// Subjects are unique among user rows and among settings rows.
    pub closed spec fn wf(self) -> bool {
        &&& forall|i: int, j: int|
            0 <= i < j < self.users@.len() ==> user_key()(self.users@[i]) != user_key()(
                self.users@[j],
            )
        &&& forall|i: int, j: int|
            0 <= i < j < self.settings@.len() ==> setting_key()(self.settings@[i]) != setting_key()(
                self.settings@[j],
            )
    }

    /// The mapping from subject identifier to user row.
    pub closed spec fn user_map(self) -> Map<Seq<char>, User> {
        spec_map_by(self.users@, user_key())
    }

    /// The mapping from subject identifier to settings row.
    pub closed spec fn setting_map(self) -> Map<Seq<char>, Setting> {
        spec_map_by(self.settings@, setting_key())
    }

    /// How many user rows the store holds.
    pub closed spec fn spec_user_count(self) -> nat {
        self.users@.len()
    }

    /// A new store holds nothing.
    pub fn new() -> (r: UserStore)
        ensures
            r.wf(),
            r.user_map() == Map::<Seq<char>, User>::empty(),
            r.setting_map() == Map::<Seq<char>, Setting>::empty(),
            r.spec_user_count() == 0,
    {
        UserStore { users: Vec::new(), settings: Vec::new() }
    }

    /// The number of user rows.
    pub fn user_count(&self) -> (n: usize)
        ensures
            n == self.spec_user_count(),
    {
        self.users.len()
    }

    /// Looks a user row up by subject identifier.
    pub fn get_user_by_sub(&self, sub: &str) -> (r: Option<User>)
        requires
            self.wf(),
        ensures
            match r {
                Some(u) => self.user_map().contains_pair(sub@, u),
                None => !self.user_map().dom().contains(sub@),
            },
    {
        let mut i: usize = 0;
        while i < self.users.len()
            invariant
                self.wf(),
                i <= self.users.len(),
                forall|j: int| 0 <= j < i ==> self.users@[j].sub@ != sub@,
            decreases self.users.len() - i,
        {
            if str_eq(self.users[i].sub.as_str(), sub) {
                proof {
                    lemma_map_by_pairs(self.users@, user_key());
                    assert(user_key()(self.users@[i as int]) == sub@);
                }
                return Some(self.users[i].clone());
            }
            i += 1;
        }
        proof {
            lemma_map_by_dom(self.users@, user_key());
        }
        None
    }

    /// Creates the user row for a subject not seen before: profile fields
    /// empty, both timestamps at `now`.
    pub fn create_user(&mut self, sub: &str, now: i64) -> (r: User)
        requires
            old(self).wf(),
            !old(self).user_map().dom().contains(sub@),
        ensures
            final(self).wf(),
            r.sub@ == sub@,
            r.display_name@ == Seq::<char>::empty(),
            r.profile_picture@ == Seq::<char>::empty(),
            r.description@ == Seq::<char>::empty(),
            r.created_at == now,
            r.updated_at == now,
            final(self).user_map() == old(self).user_map().insert(sub@, r),
            final(self).setting_map() == old(self).setting_map(),
            final(self).spec_user_count() == old(self).spec_user_count() + 1,
    {
        let row = User {
            sub: sub.to_owned(),
            display_name: String::new(),
            profile_picture: String::new(),
            description: String::new(),
            created_at: now,
            updated_at: now,
        };
        let r = row.clone();
        proof {
            lemma_map_by_dom(self.users@, user_key());
            assert(self.users@.push(row).drop_last() =~= self.users@);
        }
        self.users.push(row);
        r
    }

    /// Read-through provisioning: the subject's row if it exists — the
    /// store unchanged, nothing written — else a fresh row, inserted.
    /// At most one row per subject ever exists, and repeating the call
    /// returns the same row while writing nothing more.
    pub fn get_or_create_user(&mut self, sub: &str, now: i64) -> (r: User)
        requires
            old(self).wf(),
        ensures
            final(self).wf(),
            old(self).user_map().dom().contains(sub@) ==> *final(self) == *old(self) && r == old(
                self,
            ).user_map()[sub@],
            !old(self).user_map().dom().contains(sub@) ==> {
                &&& r.sub@ == sub@
                &&& r.display_name@ == Seq::<char>::empty()
                &&& r.profile_picture@ == Seq::<char>::empty()
                &&& r.description@ == Seq::<char>::empty()
                &&& r.created_at == now
                &&& r.updated_at == now
                &&& final(self).user_map() == old(self).user_map().insert(sub@, r)
                &&& final(self).setting_map() == old(self).setting_map()
                &&& final(self).spec_user_count() == old(self).spec_user_count() + 1
            },
    {
        match self.get_user_by_sub(sub) {
            Some(u) => u,
            None => self.create_user(sub, now),
        }
    }

    /// Applies a partial profile update to the subject's row: each present
    /// field replaces the stored one, absent fields stay, the update
    /// timestamp moves to `now`. Nothing changes when the row is missing.
    pub fn update_user(&mut self, sub: &str, req: &UpdateUserRequest, now: i64) -> (r: Option<
        User,
    >)
        requires
            old(self).wf(),
        ensures
            final(self).wf(),
            match r {
                None => !old(self).user_map().dom().contains(sub@) && *final(self) == *old(self),
                Some(u) => {
                    &&& old(self).user_map().dom().contains(sub@)
                    &&& u == spec_applied_user_update(old(self).user_map()[sub@], *req, now)
                    &&& final(self).user_map() == old(self).user_map().insert(sub@, u)
                    &&& final(self).setting_map() == old(self).setting_map()
                },
            },
    {
        let mut i: usize = 0;
        while i < self.users.len()
            invariant
                self.wf(),
                *self == *old(self),
                i <= self.users.len(),
                forall|j: int| 0 <= j < i ==> self.users@[j].sub@ != sub@,
            decreases self.users.len() - i,
        {
            if str_eq(self.users[i].sub.as_str(), sub) {
                let prev = self.users[i].clone();
                proof {
                    lemma_map_by_pairs(self.users@, user_key());
                    assert(spec_map_by(self.users@, user_key()).contains_pair(
                        user_key()(self.users@[i as int]),
                        self.users@[i as int],
                    ));
                    assert(user_key()(self.users@[i as int]) == sub@);
                    assert(self.user_map()[sub@] == self.users@[i as int]);
                }
                let row = User {
                    sub: prev.sub,
                    display_name: match &req.display_name {
                        Some(d) => d.clone(),
                        None => prev.display_name,
                    },
                    profile_picture: match &req.profile_picture {
                        Some(p) => p.clone(),
                        None => prev.profile_picture,
                    },
                    description: match &req.description {
                        Some(d) => d.clone(),
                        None => prev.description,
                    },
                    created_at: prev.created_at,
                    updated_at: now,
                };
                let u = row.clone();
                proof {
                    lemma_map_by_update(self.users@, user_key(), i as int, row);
                }
                self.users[i] = row;
                return Some(u);
            }
            i += 1;
        }
        proof {
            lemma_map_by_dom(self.users@, user_key());
        }
        None
    }

    /// Looks a user row up by display name; display names are not unique,
    /// so the earliest matching row is returned.
    pub fn get_user_by_display_name(&self, name: &str) -> (r: Option<User>)
        requires
            self.wf(),
        ensures
            match r {
                Some(u) => u.display_name@ == name@ && self.user_map().contains_pair(u.sub@, u),
                None => forall|k: Seq<char>|
                    self.user_map().dom().contains(k) ==> #[trigger] self.user_map()[
                        k
                    ].display_name@ != name@,
            },
    {
        let mut i: usize = 0;
        while i < self.users.len()
            invariant
                self.wf(),
                i <= self.users.len(),
                forall|j: int| 0 <= j < i ==> self.users@[j].display_name@ != name@,
            decreases self.users.len() - i,
        {
            if str_eq(self.users[i].display_name.as_str(), name) {
                proof {
                    lemma_map_by_pairs(self.users@, user_key());
                    assert(user_key()(self.users@[i as int]) == self.users@[i as int].sub@);
                }
                return Some(self.users[i].clone());
            }
            i += 1;
        }
        proof {
            lemma_map_by_dom(self.users@, user_key());
            lemma_map_by_pairs(self.users@, user_key());
            assert forall|k: Seq<char>|
                self.user_map().dom().contains(k) implies #[trigger] self.user_map()[
                k
            ].display_name@ != name@ by {
                let i = choose|i: int|
                    0 <= i < self.users@.len() && #[trigger] user_key()(self.users@[i]) == k;
                assert(self.user_map().contains_pair(user_key()(self.users@[i]), self.users@[i]));
            }
        }
        None
    }

    /// The rows selected by a list of subjects, in the list's order,
    /// skipping subjects without a row.
    pub open spec fn spec_selected_users(m: Map<Seq<char>, User>, subs: Seq<String>) -> Seq<User>
        decreases subs.len(),
    {
        if subs.len() == 0 {
            Seq::empty()
        } else {
            let rest = Self::spec_selected_users(m, subs.drop_last());
            if m.dom().contains(subs.last()@) {
                rest.push(m[subs.last()@])
            } else {
                rest
            }
        }
    }

    /// Fetches the rows of the given subjects, in the given order; subjects
    /// without a row are skipped.
    pub fn get_users_by_subs(&self, subs: &Vec<String>) -> (r: Vec<User>)
        requires
            self.wf(),
        ensures
            r@ == Self::spec_selected_users(self.user_map(), subs@),
    {
        let mut out: Vec<User> = Vec::new();
        let mut i: usize = 0;
        while i < subs.len()
            invariant
                self.wf(),
                i <= subs.len(),
                out@ == Self::spec_selected_users(self.user_map(), subs@.take(i as int)),
            decreases subs.len() - i,
        {
            proof {
                assert(subs@.take(i as int + 1).drop_last() =~= subs@.take(i as int));
                assert(subs@.take(i as int + 1).last() == subs@[i as int]);
            }
            match self.get_user_by_sub(subs[i].as_str()) {
                Some(u) => {
                    out.push(u);
                },
                None => {},
            }
            i += 1;
        }
        proof {
            assert(subs@.take(subs@.len() as int) =~= subs@);
        }
        out
    }

    /// Looks a settings row up by subject identifier.
    pub fn get_setting_by_sub(&self, sub: &str) -> (r: Option<Setting>)
        requires
            self.wf(),
        ensures
            match r {
                Some(s) => self.setting_map().contains_pair(sub@, s),
                None => !self.setting_map().dom().contains(sub@),
            },
    {
        let mut i: usize = 0;
        while i < self.settings.len()
            invariant
                self.wf(),
                i <= self.settings.len(),
                forall|j: int| 0 <= j < i ==> self.settings@[j].sub@ != sub@,
            decreases self.settings.len() - i,
        {
            if str_eq(self.settings[i].sub.as_str(), sub) {
                proof {
                    lemma_map_by_pairs(self.settings@, setting_key());
                    assert(setting_key()(self.settings@[i as int]) == sub@);
                }
                return Some(self.settings[i].clone());
            }
            i += 1;
        }
        proof {
            lemma_map_by_dom(self.settings@, setting_key());
        }
        None
    }

    /// Creates the settings row for a subject that has none: no theme, no
    /// language, both timestamps at `now`.
    pub fn create_setting(&mut self, sub: &str, now: i64) -> (r: Setting)
        requires
            old(self).wf(),
            !old(self).setting_map().dom().contains(sub@),
        ensures
            final(self).wf(),
            r.sub@ == sub@,
            r.theme is None,
            r.lang is None,
            r.created_at == now,
            r.updated_at == now,
            final(self).setting_map() == old(self).setting_map().insert(sub@, r),
            final(self).user_map() == old(self).user_map(),
    {
        let row = Setting {
            sub: sub.to_owned(),
            theme: None,
            lang: None,
            created_at: now,
            updated_at: now,
        };
        let r = row.clone();
        proof {
            lemma_map_by_dom(self.settings@, setting_key());
            assert(self.settings@.push(row).drop_last() =~= self.settings@);
        }
        self.settings.push(row);
        r
    }

    /// Applies a partial settings update to the subject's row: each present
    /// field replaces the stored one, absent fields stay, the update
    /// timestamp moves to `now`. Nothing changes when the row is missing.
    pub fn update_setting(&mut self, sub: &str, req: &UpdateSettingRequest, now: i64) -> (r:
        Option<Setting>)
        requires
            old(self).wf(),
        ensures
            final(self).wf(),
            match r {
                None => !old(self).setting_map().dom().contains(sub@) && *final(self) == *old(
                    self,
                ),
                Some(s) => {
                    &&& old(self).setting_map().dom().contains(sub@)
                    &&& s == spec_applied_setting_update(old(self).setting_map()[sub@], *req, now)
                    &&& final(self).setting_map() == old(self).setting_map().insert(sub@, s)
                    &&& final(self).user_map() == old(self).user_map()
                },
            },
    {
        let mut i: usize = 0;
        while i < self.settings.len()
            invariant
                self.wf(),
                *self == *old(self),
                i <= self.settings.len(),
                forall|j: int| 0 <= j < i ==> self.settings@[j].sub@ != sub@,
            decreases self.settings.len() - i,
        {
            if str_eq(self.settings[i].sub.as_str(), sub) {
                let prev = self.settings[i].clone();
                proof {
                    lemma_map_by_pairs(self.settings@, setting_key());
                    assert(spec_map_by(self.settings@, setting_key()).contains_pair(
                        setting_key()(self.settings@[i as int]),
                        self.settings@[i as int],
                    ));
                    assert(setting_key()(self.settings@[i as int]) == sub@);
                    assert(self.setting_map()[sub@] == self.settings@[i as int]);
                }
                let row = Setting {
                    sub: prev.sub,
                    theme: match &req.theme {
                        Some(t) => Some(t.clone()),
                        None => prev.theme,
                    },
                    lang: match &req.lang {
                        Some(l) => Some(l.clone()),
                        None => prev.lang,
                    },
                    created_at: prev.created_at,
                    updated_at: now,
                };
                let s = row.clone();
                proof {
                    lemma_map_by_update(self.settings@, setting_key(), i as int, row);
                }
                self.settings[i] = row;
                return Some(s);
            }
            i += 1;
        }
        proof {
            lemma_map_by_dom(self.settings@, setting_key());
        }
        None
    }
}

/// Provisioning is idempotent: after a first pass inserts a fresh row for a
/// brand-new subject, the subject has a row, and it is that very row — so a
/// second pass takes the read path of `get_or_create_user`, returns the
/// same row and leaves the store untouched.
pub proof fn lemma_get_or_create_idempotent(m: Map<Seq<char>, User>, sub: Seq<char>, fresh: User)
    requires
        !m.dom().contains(sub),
    ensures
        m.insert(sub, fresh).dom().contains(sub),
        m.insert(sub, fresh)[sub] == fresh,
{
}

} // verus!
