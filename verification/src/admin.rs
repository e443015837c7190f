//! Role administration and idea review: the registry of users with roles,
//! the admin set, and the submit/approve/reject workflow for ideas.

use vstd::prelude::*;
use crate::pk::Pk;

verus! {

/// What a registered identity may do.
#[derive(Clone, Copy, PartialEq, Eq, Structural, Debug)]
pub enum Role {
    Admin,
    User,
}

/// Review state of a submitted idea.
#[derive(Clone, Copy, PartialEq, Eq, Structural, Debug)]
pub enum IdeaStatus {
    Pending,
    Approved,
    Rejected,
}

/// A registered identity with its role.
pub struct RegisteredUser {
    pub principal: Pk,
    pub name: String,
    pub email: String,
    pub role: Role,
    pub registered_at_ns: u64,
}

/// The two records agree on every field.
pub open spec fn same_admin_user(a: RegisteredUser, b: RegisteredUser) -> bool {
    &&& a.principal@ == b.principal@
    &&& a.name == b.name
    &&& a.email == b.email
    &&& a.role == b.role
    &&& a.registered_at_ns == b.registered_at_ns
}

impl Clone for RegisteredUser {
    fn clone(&self) -> (r: Self)
        ensures
            same_admin_user(r, *self),
    {
        RegisteredUser {
            principal: self.principal.clone(),
            name: self.name.clone(),
            email: self.email.clone(),
            role: self.role,
            registered_at_ns: self.registered_at_ns,
        }
    }
}

/// An idea under review.
pub struct Idea {
    pub id: u64,
    pub title: String,
    pub description: String,
    pub submitted_by: Pk,
    pub submitted_at_ns: u64,
    pub status: IdeaStatus,
}

/// The two records agree on every field.
pub open spec fn same_admin_idea(a: Idea, b: Idea) -> bool {
    &&& a.id == b.id
    &&& a.title == b.title
    &&& a.description == b.description
    &&& a.submitted_by@ == b.submitted_by@
    &&& a.submitted_at_ns == b.submitted_at_ns
    &&& a.status == b.status
}

impl Clone for Idea {
    fn clone(&self) -> (r: Self)
        ensures
            same_admin_idea(r, *self),
    {
        Idea {
            id: self.id,
            title: self.title.clone(),
            description: self.description.clone(),
            submitted_by: self.submitted_by.clone(),
            submitted_at_ns: self.submitted_at_ns,
            status: self.status,
        }
    }
}

/// Outcome of a review decision.
#[derive(Clone, Copy, PartialEq, Eq, Structural, Debug)]
pub struct ApproveRejectResult {
    pub id: u64,
    pub status: IdeaStatus,
}

/// Failures of the administration surface.
#[derive(Debug)]
pub enum AdminError {
    NotAuthorized,
    UserNotFound,
    IdeaNotFound,
    AlreadyExists,
    InvalidInput(String),
}

impl Clone for AdminError {
    fn clone(&self) -> (r: Self)
        ensures
            r == *self,
    {
        match self {
            AdminError::NotAuthorized => AdminError::NotAuthorized,
            AdminError::UserNotFound => AdminError::UserNotFound,
            AdminError::IdeaNotFound => AdminError::IdeaNotFound,
            AdminError::AlreadyExists => AdminError::AlreadyExists,
            AdminError::InvalidInput(m) => AdminError::InvalidInput(m.clone()),
        }
    }
}

/// The administration state: users with roles, the admin set, and the ideas
/// under review.
pub struct AdminState {
    /// One record per identity.
    pub users: Vec<RegisteredUser>,
    /// Idea with id `i` sits at index `i`; never deleted.
    pub ideas: Vec<Idea>,
    /// The next idea id, always the number of ideas submitted.
    pub next_idea_id: u64,
    /// Identities with the admin role; each at most once.
    pub admins: Vec<Pk>,
}

impl AdminState {
    /// Structural invariant: idea ids are positions, the id counter matches,
    /// identities are registered once and are admins at most once.
    pub open spec fn wf(self) -> bool {
        &&& forall|i: int| 0 <= i < self.ideas@.len() ==> (#[trigger] self.ideas@[i]).id == i
        &&& self.next_idea_id == self.ideas@.len()
        &&& forall|i: int, j: int|
            0 <= i < j < self.users@.len() ==> (#[trigger] self.users@[i]).principal@ != (
            #[trigger] self.users@[j]).principal@
        &&& forall|i: int, j: int|
            #![trigger self.admins@[i], self.admins@[j]]
            0 <= i < j < self.admins@.len() ==> self.admins@[i]@ != self.admins@[j]@
    }

    /// Whether the identity holds the admin role.
    pub open spec fn spec_is_admin(self, who: Seq<u8>) -> bool {
        exists|i: int| 0 <= i < self.admins@.len() && (#[trigger] self.admins@[i])@ == who
    }

    /// Whether the identity has a user record.
    pub open spec fn spec_has_user(self, who: Seq<u8>) -> bool {
        exists|i: int| 0 <= i < self.users@.len() && (#[trigger] self.users@[i]).principal@ == who
    }

    /// The fresh state at installation: the installer becomes the first
    /// admin, with a bootstrap user record.
    pub fn init(installer: &Pk, now_ns: u64) -> (r: Self)
        ensures
            r.wf(),
            r.ideas@.len() == 0,
            r.admins@.len() == 1,
            r.admins@[0]@ == installer@,
            r.spec_is_admin(installer@),
            r.users@.len() == 1,
            r.users@[0].principal@ == installer@,
            r.users@[0].role == Role::Admin,
            r.users@[0].registered_at_ns == now_ns,
    {
        let mut admins: Vec<Pk> = Vec::new();
        admins.push(installer.clone());
        let mut users: Vec<RegisteredUser> = Vec::new();
        users.push(
            RegisteredUser {
                principal: installer.clone(),
                name: String::from_str("Deployer"),
                email: String::new(),
                role: Role::Admin,
                registered_at_ns: now_ns,
            },
        );
        AdminState { users, ideas: Vec::new(), next_idea_id: 0, admins }
    }

    /// Index of the identity among the admins, if present.
    fn find_admin(&self, who: &Pk) -> (r: Option<usize>)
        ensures
            match r {
                Some(i) => i < self.admins@.len() && self.admins@[i as int]@ == who@,
                None => !self.spec_is_admin(who@),
            },
    {
        let n = self.admins.len();
        let mut i: usize = 0;
        while i < n
            invariant
                n == self.admins@.len(),
                0 <= i <= n,
                forall|j: int| 0 <= j < i ==> (#[trigger] self.admins@[j])@ != who@,
            decreases n - i,
        {
            if self.admins[i].eq_pk(who) {
                return Some(i);
            }
            i += 1;
        }
        None
    }

    /// Whether the identity holds the admin role.
    pub fn is_admin(&self, who: &Pk) -> (b: bool)
        ensures
            b == self.spec_is_admin(who@),
    {
        self.find_admin(who).is_some()
    }

    /// Admits only admins.
    pub fn ensure_admin(&self, caller: &Pk) -> (r: Result<(), AdminError>)
        ensures
            self.spec_is_admin(caller@) ==> r is Ok,
            !self.spec_is_admin(caller@) ==> r matches Err(AdminError::NotAuthorized),
    {
        if self.is_admin(caller) {
            Ok(())
        } else {
            Err(AdminError::NotAuthorized)
        }
    }

    /// Index of the identity's user record, if any.
    fn find_user(&self, who: &Pk) -> (r: Option<usize>)
        ensures
            match r {
                Some(i) => i < self.users@.len() && self.users@[i as int].principal@ == who@,
                None => !self.spec_has_user(who@),
            },
    {
        let n = self.users.len();
        let mut i: usize = 0;
        while i < n
            invariant
                n == self.users@.len(),
                0 <= i <= n,
                forall|j: int| 0 <= j < i ==> (#[trigger] self.users@[j]).principal@ != who@,
            decreases n - i,
        {
            if self.users[i].principal.eq_pk(who) {
                return Some(i);
            }
            i += 1;
        }
        None
    }

    /// Registers the caller, or updates the name and email of its record
    /// while keeping the original role and registration time.  A new record
    /// gets the admin role exactly when the caller is an admin.  Returns the
    /// resulting record.
    pub fn register_user(&mut self, caller: &Pk, name: String, email: String, now_ns: u64) -> (r:
        RegisteredUser)
        requires
            old(self).wf(),
        ensures
            final(self).wf(),
            final(self).ideas@ == old(self).ideas@,
            final(self).next_idea_id == old(self).next_idea_id,
            final(self).admins@ == old(self).admins@,
            final(self).spec_has_user(caller@),
            r.principal@ == caller@,
            r.name == name,
            r.email == email,
            final(self).users@.len() == old(self).users@.len() + (if old(self).spec_has_user(
                caller@,
            ) {
                0int
            } else {
                1int
            }),
            forall|j: int|
                0 <= j < old(self).users@.len() && (#[trigger] old(self).users@[j]).principal@
                    != caller@ ==> final(self).users@[j] == old(self).users@[j],
            exists|k: int|
                0 <= k < final(self).users@.len() && same_admin_user(
                    #[trigger] final(self).users@[k],
                    r,
                ) && final(self).users@[k].principal@ == caller@,
            !old(self).spec_has_user(caller@) ==> r.registered_at_ns == now_ns && r.role == (if old(
                self,
            ).spec_is_admin(caller@) {
                Role::Admin
            } else {
                Role::User
            }),
            old(self).spec_has_user(caller@) ==> exists|k: int|
                0 <= k < old(self).users@.len() && (#[trigger] old(self).users@[k]).principal@
                    == caller@ && r.role == old(self).users@[k].role && r.registered_at_ns == old(
                    self,
                ).users@[k].registered_at_ns,
    {
        match self.find_user(caller) {
            Some(i) => {
                let slot = user_at_mut(&mut self.users, i);
                slot.name = name;
                slot.email = email;
                let record = self.users[i].clone();
                proof {
                    assert(self.users@ =~= old(self).users@.update(
                        i as int,
                        self.users@[i as int],
                    ));
                    assert(self.users@[i as int].principal@ == caller@);
                }
                record
            },
            None => {
                let is_admin = self.is_admin(caller);
                let record = RegisteredUser {
                    principal: caller.clone(),
                    name,
                    email,
                    role: if is_admin {
                        Role::Admin
                    } else {
                        Role::User
                    },
                    registered_at_ns: now_ns,
                };
                let returned = record.clone();
                self.users.push(record);
                proof {
                    let k = self.users@.len() - 1;
                    assert(self.users@[k].principal@ == caller@);
                }
                returned
            },
        }
    }

    /// Snapshot of every user record.
    pub fn get_users(&self) -> (r: Vec<RegisteredUser>)
        ensures
            r@.len() == self.users@.len(),
            forall|k: int|
                0 <= k < r@.len() ==> same_admin_user(#[trigger] r@[k], self.users@[k]),
    {
        let n = self.users.len();
        let mut r: Vec<RegisteredUser> = Vec::new();
        let mut i: usize = 0;
        while i < n
            invariant
                n == self.users@.len(),
                0 <= i <= n,
                r@.len() == i,
                forall|k: int|
                    0 <= k < i ==> same_admin_user(#[trigger] r@[k], self.users@[k]),
            decreases n - i,
        {
            r.push(self.users[i].clone());
            i += 1;
        }
        r
    }

    /// The caller's role: admins report `Admin`, registered users their
    /// recorded role, everyone else `User`.
    pub fn get_my_role(&self, caller: &Pk) -> (r: Role)
        requires
            self.wf(),
        ensures
            self.spec_is_admin(caller@) ==> r == Role::Admin,
            !self.spec_is_admin(caller@) ==> match self.spec_user_role(caller@) {
                Some(role) => r == role,
                None => r == Role::User,
            },
    {
        if self.is_admin(caller) {
            return Role::Admin;
        }
        match self.find_user(caller) {
            Some(i) => {
                proof {
                    let k = choose|k: int|
                        0 <= k < self.users@.len() && (#[trigger] self.users@[k]).principal@
                            == caller@;
                    if k < i as int {
                        assert(self.users@[k].principal@ != self.users@[i as int].principal@);
                    } else if k > i as int {
                        assert(self.users@[i as int].principal@ != self.users@[k].principal@);
                    }
                }
                self.users[i].role
            },
            None => Role::User,
        }
    }

    /// The recorded role of the identity's user record, if one exists.
    pub open spec fn spec_user_role(self, who: Seq<u8>) -> Option<Role> {
        if self.spec_has_user(who) {
            Some(
                self.users@[choose|i: int|
                    0 <= i < self.users@.len() && (#[trigger] self.users@[i]).principal@
                        == who].role,
            )
        } else {
            None
        }
    }

    /// Grants the admin role: only an admin may call; the target gains a
    /// place in the admin set and its user record, created on demand, gets
    /// the admin role.
    pub fn add_admin(&mut self, caller: &Pk, p: &Pk, now_ns: u64) -> (r: Result<(), AdminError>)
        requires
            old(self).wf(),
        ensures
            final(self).wf(),
            final(self).ideas@ == old(self).ideas@,
            final(self).next_idea_id == old(self).next_idea_id,
            !old(self).spec_is_admin(caller@) ==> (r matches Err(AdminError::NotAuthorized)) && final(self).users@ == old(self).users@ && final(self).admins@ == old(self).admins@,
            old(self).spec_is_admin(caller@) ==> {
                &&& r is Ok
                &&& final(self).spec_is_admin(p@)
                &&& forall|x: Seq<u8>|
                    x != p@ ==> final(self).spec_is_admin(x) == old(self).spec_is_admin(x)
                &&& final(self).spec_has_user(p@)
                &&& exists|k: int|
                    0 <= k < final(self).users@.len() && (#[trigger] final(self).users@[k]).principal@
                        == p@ && final(self).users@[k].role == Role::Admin
                &&& forall|j: int|
                    0 <= j < old(self).users@.len() && (#[trigger] old(self).users@[j]).principal@
                        != p@ ==> final(self).users@[j] == old(self).users@[j]
            },
    {
        if !self.is_admin(caller) {
            return Err(AdminError::NotAuthorized);
        }
        match self.find_user(p) {
            Some(i) => {
                let slot = user_at_mut(&mut self.users, i);
                slot.role = Role::Admin;
                proof {
                    assert(self.users@[i as int].principal@ == p@);
                }
            },
            None => {
                self.users.push(
                    RegisteredUser {
                        principal: p.clone(),
                        name: String::from_str("Admin"),
                        email: String::new(),
                        role: Role::Admin,
                        registered_at_ns: now_ns,
                    },
                );
                proof {
                    let k = self.users@.len() - 1;
                    assert(self.users@[k].principal@ == p@);
                }
            },
        }
        match self.find_admin(p) {
            Some(i) => {
                proof {
                    assert(self.admins@[i as int]@ == p@);
                    assert(self.spec_is_admin(p@));
                }
            },
            None => {
                let ghost pre_admins = self.admins@;
                self.admins.push(p.clone());
                proof {
                    let k = self.admins@.len() - 1;
                    assert(self.admins@[k]@ == p@);
                    assert(pre_admins == old(self).admins@);
                    assert forall|a: int, b: int|
                        #![trigger self.admins@[a], self.admins@[b]]
                        0 <= a < b < self.admins@.len() implies self.admins@[a]@
                        != self.admins@[b]@ by {
                        if b == self.admins@.len() - 1 {
                            assert(pre_admins[a]@ != p@);
                        } else {
                            assert(self.admins@[a] == pre_admins[a]);
                            assert(self.admins@[b] == pre_admins[b]);
                        }
                    }
                    assert forall|x: Seq<u8>| x != p@ implies self.spec_is_admin(x) == old(
                        self,
                    ).spec_is_admin(x) by {
                        if old(self).spec_is_admin(x) {
                            let j = choose|j: int|
                                0 <= j < pre_admins.len() && (#[trigger] pre_admins[j])@ == x;
                            assert(self.admins@[j]@ == x);
                        }
                        if self.spec_is_admin(x) {
                            let j = choose|j: int|
                                0 <= j < self.admins@.len() && (#[trigger] self.admins@[j])@ == x;
                            assert(j != self.admins@.len() - 1);
                            assert(pre_admins[j]@ == x);
                        }
                    }
                }
            },
        }
        Ok(())
    }

    /// Revokes the admin role: only an admin may call, and the last admin
    /// cannot be removed — callers keep at least one admin, so the state
    /// never locks itself out.  Revoking a non-admin is a no-op.
    pub fn remove_admin(&mut self, caller: &Pk, p: &Pk) -> (r: Result<(), AdminError>)
        requires
            old(self).wf(),
            !(old(self).spec_is_admin(p@) && old(self).admins@.len() == 1),
        ensures
            final(self).wf(),
            final(self).ideas@ == old(self).ideas@,
            final(self).next_idea_id == old(self).next_idea_id,
            !old(self).spec_is_admin(caller@) ==> (r matches Err(AdminError::NotAuthorized)) && final(self).users@ == old(self).users@ && final(self).admins@ == old(self).admins@,
            old(self).spec_is_admin(caller@) ==> {
                &&& r is Ok
                &&& !final(self).spec_is_admin(p@)
                &&& forall|x: Seq<u8>|
                    x != p@ ==> final(self).spec_is_admin(x) == old(self).spec_is_admin(x)
                &&& final(self).users@.len() == old(self).users@.len()
                &&& forall|j: int|
                    0 <= j < old(self).users@.len() && (#[trigger] old(self).users@[j]).principal@
                        != p@ ==> final(self).users@[j] == old(self).users@[j]
            },
    {
        if !self.is_admin(caller) {
            return Err(AdminError::NotAuthorized);
        }
        match self.find_admin(p) {
            None => Ok(()),
            Some(i) => {
                match self.find_user(p) {
                    Some(k) => {
                        let slot = user_at_mut(&mut self.users, k);
                        slot.role = Role::User;
                        proof {
                            assert(self.users@[k as int].principal@ == p@);
                        }
                    },
                    None => {},
                }
                proof {
                    assert(self.admins@ == old(self).admins@);
                }
                self.admins.remove(i);
                proof {
                    let prev = old(self).admins@;
                    assert(self.admins@ == prev.remove(i as int));
                    assert forall|j: int| 0 <= j < self.admins@.len() implies self.admins@[j]@
                        != p@ by {
                        if j < i {
                            assert(self.admins@[j] == prev[j]);
                            assert(prev[j]@ != prev[i as int]@);
                        } else {
                            assert(self.admins@[j] == prev[j + 1]);
                            assert(prev[i as int]@ != prev[j + 1]@);
                        }
                    }
                    assert forall|x: Seq<u8>| x != p@ implies self.spec_is_admin(x) == old(
                        self,
                    ).spec_is_admin(x) by {
                        if old(self).spec_is_admin(x) {
                            let k = choose|k: int|
                                0 <= k < prev.len() && (#[trigger] prev[k])@ == x;
                            if k < i {
                                assert(self.admins@[k]@ == x);
                            } else {
                                assert(k != i);
                                assert(self.admins@[k - 1]@ == x);
                            }
                        }
                        if self.spec_is_admin(x) {
                            let k = choose|k: int|
                                0 <= k < self.admins@.len() && (#[trigger] self.admins@[k])@ == x;
                            if k < i {
                                assert(prev[k]@ == x);
                            } else {
                                assert(prev[k + 1]@ == x);
                            }
                        }
                    }
                    assert forall|a: int, b: int|
                        #![trigger self.admins@[a], self.admins@[b]]
                        0 <= a < b < self.admins@.len() implies self.admins@[a]@
                        != self.admins@[b]@ by {
                        let pa: int = if a < i { a } else { a + 1 };
                        let pb: int = if b < i { b } else { b + 1 };
                        assert(self.admins@[a] == prev[pa]);
                        assert(self.admins@[b] == prev[pb]);
                        assert(prev[pa]@ != prev[pb]@);
                    }
                }
                Ok(())
            },
        }
    }

    /// Sets the role on an existing user record and keeps the admin set in
    /// step: only an admin may call; fails on an unknown identity.
    pub fn set_role(&mut self, caller: &Pk, p: &Pk, role: Role) -> (r: Result<(), AdminError>)
        requires
            old(self).wf(),
            !(role is User && old(self).spec_is_admin(p@) && old(self).admins@.len() == 1),
        ensures
            final(self).wf(),
            final(self).ideas@ == old(self).ideas@,
            final(self).next_idea_id == old(self).next_idea_id,
            !old(self).spec_is_admin(caller@) ==> (r matches Err(AdminError::NotAuthorized)) && final(self).users@ == old(self).users@ && final(self).admins@ == old(self).admins@,
            old(self).spec_is_admin(caller@) && !old(self).spec_has_user(p@) ==> (r matches Err(
                AdminError::UserNotFound,
            )) && final(self).users@ == old(self).users@ && final(self).admins@ == old(self).admins@,
            old(self).spec_is_admin(caller@) && old(self).spec_has_user(p@) ==> {
                &&& r is Ok
                &&& final(self).spec_is_admin(p@) == (role is Admin)
                &&& forall|x: Seq<u8>|
                    x != p@ ==> final(self).spec_is_admin(x) == old(self).spec_is_admin(x)
                &&& exists|k: int|
                    0 <= k < final(self).users@.len() && (#[trigger] final(self).users@[k]).principal@
                        == p@ && final(self).users@[k].role == role
                &&& forall|j: int|
                    0 <= j < old(self).users@.len() && (#[trigger] old(self).users@[j]).principal@
                        != p@ ==> final(self).users@[j] == old(self).users@[j]
            },
    {
        if !self.is_admin(caller) {
            return Err(AdminError::NotAuthorized);
        }
        let idx = match self.find_user(p) {
            Some(i) => i,
            None => {
                return Err(AdminError::UserNotFound);
            },
        };
        let slot = user_at_mut(&mut self.users, idx);
        slot.role = role;
        proof {
            assert(self.users@[idx as int].principal@ == p@);
        }
        match role {
            Role::Admin => {
                let already = self.is_admin(p);
                if !already {
                    self.admins.push(p.clone());
                    proof {
                        let k = self.admins@.len() - 1;
                        assert(self.admins@[k]@ == p@);
                        assert forall|a: int, b: int|
                            #![trigger self.admins@[a], self.admins@[b]]
                            0 <= a < b < self.admins@.len() implies self.admins@[a]@
                            != self.admins@[b]@ by {
                            if b == self.admins@.len() - 1 {
                                assert(old(self).admins@[a]@ != p@);
                            } else {
                                assert(self.admins@[a] == old(self).admins@[a]);
                                assert(self.admins@[b] == old(self).admins@[b]);
                            }
                        }
                        assert forall|x: Seq<u8>| x != p@ implies self.spec_is_admin(x) == old(
                            self,
                        ).spec_is_admin(x) by {
                            if old(self).spec_is_admin(x) {
                                let j = choose|j: int|
                                    0 <= j < old(self).admins@.len() && (#[trigger] old(
                                        self,
                                    ).admins@[j])@ == x;
                                assert(self.admins@[j]@ == x);
                            }
                            if self.spec_is_admin(x) {
                                let j = choose|j: int|
                                    0 <= j < self.admins@.len() && (#[trigger] self.admins@[
                                        j
                                    ])@ == x;
                                assert(j != self.admins@.len() - 1);
                                assert(old(self).admins@[j]@ == x);
                            }
                        }
                    }
                }
                Ok(())
            },
            Role::User => {
                match self.find_admin(p) {
                    Some(i) => {
                        self.admins.remove(i);
                        proof {
                            let prev = old(self).admins@;
                            assert(self.admins@ == prev.remove(i as int));
                            assert forall|j: int|
                                0 <= j < self.admins@.len() implies self.admins@[j]@ != p@ by {
                                if j < i {
                                    assert(self.admins@[j] == prev[j]);
                                    assert(prev[j]@ != prev[i as int]@);
                                } else {
                                    assert(self.admins@[j] == prev[j + 1]);
                                    assert(prev[i as int]@ != prev[j + 1]@);
                                }
                            }
                            assert forall|x: Seq<u8>| x != p@ implies self.spec_is_admin(x) == old(
                                self,
                            ).spec_is_admin(x) by {
                                if old(self).spec_is_admin(x) {
                                    let k = choose|k: int|
                                        0 <= k < prev.len() && (#[trigger] prev[k])@ == x;
                                    if k < i {
                                        assert(self.admins@[k]@ == x);
                                    } else {
                                        assert(k != i);
                                        assert(self.admins@[k - 1]@ == x);
                                    }
                                }
                                if self.spec_is_admin(x) {
                                    let k = choose|k: int|
                                        0 <= k < self.admins@.len() && (#[trigger] self.admins@[
                                            k
                                        ])@ == x;
                                    if k < i {
                                        assert(prev[k]@ == x);
                                    } else {
                                        assert(prev[k + 1]@ == x);
                                    }
                                }
                            }
                            assert forall|a: int, b: int|
                                #![trigger self.admins@[a], self.admins@[b]]
                                0 <= a < b < self.admins@.len() implies self.admins@[a]@
                                != self.admins@[b]@ by {
                                let pa: int = if a < i { a } else { a + 1 };
                                let pb: int = if b < i { b } else { b + 1 };
                                assert(self.admins@[a] == prev[pa]);
                                assert(self.admins@[b] == prev[pb]);
                                assert(prev[pa]@ != prev[pb]@);
                            }
                        }
                    },
                    None => {},
                }
                Ok(())
            },
        }
    }

    /// Accepts an idea for review: the title must be given and the
    /// description must hold at least ten characters.  Returns the recorded
    /// idea.
    pub fn submit_idea(&mut self, caller: &Pk, title: String, description: String, now_ns: u64) -> (r:
        Result<Idea, AdminError>)
        requires
            old(self).wf(),
            old(self).ideas@.len() < u64::MAX,
        ensures
            final(self).wf(),
            final(self).users@ == old(self).users@,
            final(self).admins@ == old(self).admins@,
            title@.len() == 0 || description@.len() < 10 ==> (r matches Err(
                AdminError::InvalidInput(_),
            )) && final(self).ideas@ == old(self).ideas@,
            title@.len() > 0 && description@.len() >= 10 ==> {
                &&& final(self).ideas@.len() == old(self).ideas@.len() + 1
                &&& final(self).ideas@.drop_last() == old(self).ideas@
                &&& ({
                    let idea = final(self).ideas@.last();
                    &&& r matches Ok(out) && same_admin_idea(out, idea)
                    &&& idea.id == old(self).ideas@.len()
                    &&& idea.title == title
                    &&& idea.description == description
                    &&& idea.submitted_by@ == caller@
                    &&& idea.submitted_at_ns == now_ns
                    &&& idea.status == IdeaStatus::Pending
                })
            },
    {
        if title.as_str().is_empty() || description.as_str().unicode_len() < 10 {
            return Err(
                AdminError::InvalidInput(
                    String::from_str("Title required and description >= 10 chars"),
                ),
            );
        }
        let id = self.next_idea_id;
        self.next_idea_id = id + 1;
        let idea = Idea {
            id,
            title,
            description,
            submitted_by: caller.clone(),
            submitted_at_ns: now_ns,
            status: IdeaStatus::Pending,
        };
        let returned = idea.clone();
        self.ideas.push(idea);
        proof {
            assert(self.ideas@.drop_last() =~= old(self).ideas@);
        }
        Ok(returned)
    }

    /// Marks an idea approved: only an admin may call; fails on an unknown
    /// id.
    pub fn approve_idea(&mut self, caller: &Pk, id: u64) -> (r: Result<
        ApproveRejectResult,
        AdminError,
    >)
        requires
            old(self).wf(),
        ensures
            final(self).wf(),
            final(self).users@ == old(self).users@,
            final(self).admins@ == old(self).admins@,
            final(self).next_idea_id == old(self).next_idea_id,
            !old(self).spec_is_admin(caller@) ==> (r matches Err(AdminError::NotAuthorized)) && final(self).ideas@ == old(self).ideas@,
            old(self).spec_is_admin(caller@) && !(id < old(self).ideas@.len()) ==> (r matches Err(
                AdminError::IdeaNotFound,
            )) && final(self).ideas@ == old(self).ideas@,
            old(self).spec_is_admin(caller@) && id < old(self).ideas@.len() ==> {
                &&& r == Ok::<ApproveRejectResult, AdminError>(
                    (ApproveRejectResult { id, status: IdeaStatus::Approved }),
                )
                &&& final(self).ideas@.len() == old(self).ideas@.len()
                &&& forall|j: int|
                    0 <= j < old(self).ideas@.len() && j != id ==> final(self).ideas@[j] == old(
                        self,
                    ).ideas@[j]
                &&& ({
                    let pre = old(self).ideas@[id as int];
                    let post = final(self).ideas@[id as int];
                    &&& post.status == IdeaStatus::Approved
                    &&& post.id == pre.id
                    &&& post.title == pre.title
                    &&& post.description == pre.description
                    &&& post.submitted_by == pre.submitted_by
                    &&& post.submitted_at_ns == pre.submitted_at_ns
                })
            },
    {
        self.decide_idea(caller, id, IdeaStatus::Approved)
    }

    /// Marks an idea rejected: only an admin may call; fails on an unknown
    /// id.
    pub fn reject_idea(&mut self, caller: &Pk, id: u64) -> (r: Result<
        ApproveRejectResult,
        AdminError,
    >)
        requires
            old(self).wf(),
        ensures
            final(self).wf(),
            final(self).users@ == old(self).users@,
            final(self).admins@ == old(self).admins@,
            final(self).next_idea_id == old(self).next_idea_id,
            !old(self).spec_is_admin(caller@) ==> (r matches Err(AdminError::NotAuthorized)) && final(self).ideas@ == old(self).ideas@,
            old(self).spec_is_admin(caller@) && !(id < old(self).ideas@.len()) ==> (r matches Err(
                AdminError::IdeaNotFound,
            )) && final(self).ideas@ == old(self).ideas@,
            old(self).spec_is_admin(caller@) && id < old(self).ideas@.len() ==> {
                &&& r == Ok::<ApproveRejectResult, AdminError>(
                    (ApproveRejectResult { id, status: IdeaStatus::Rejected }),
                )
                &&& final(self).ideas@.len() == old(self).ideas@.len()
                &&& forall|j: int|
                    0 <= j < old(self).ideas@.len() && j != id ==> final(self).ideas@[j] == old(
                        self,
                    ).ideas@[j]
                &&& ({
                    let pre = old(self).ideas@[id as int];
                    let post = final(self).ideas@[id as int];
                    &&& post.status == IdeaStatus::Rejected
                    &&& post.id == pre.id
                    &&& post.title == pre.title
                    &&& post.description == pre.description
                    &&& post.submitted_by == pre.submitted_by
                    &&& post.submitted_at_ns == pre.submitted_at_ns
                })
            },
    {
        self.decide_idea(caller, id, IdeaStatus::Rejected)
    }

    /// The shared guarded review transition.
    fn decide_idea(&mut self, caller: &Pk, id: u64, status: IdeaStatus) -> (r: Result<
        ApproveRejectResult,
        AdminError,
    >)
        requires
            old(self).wf(),
        ensures
            final(self).wf(),
            final(self).users@ == old(self).users@,
            final(self).admins@ == old(self).admins@,
            final(self).next_idea_id == old(self).next_idea_id,
            !old(self).spec_is_admin(caller@) ==> (r matches Err(AdminError::NotAuthorized)) && final(self).ideas@ == old(self).ideas@,
            old(self).spec_is_admin(caller@) && !(id < old(self).ideas@.len()) ==> (r matches Err(
                AdminError::IdeaNotFound,
            )) && final(self).ideas@ == old(self).ideas@,
            old(self).spec_is_admin(caller@) && id < old(self).ideas@.len() ==> {
                &&& r == Ok::<ApproveRejectResult, AdminError>((ApproveRejectResult { id, status }))
                &&& final(self).ideas@.len() == old(self).ideas@.len()
                &&& forall|j: int|
                    0 <= j < old(self).ideas@.len() && j != id ==> final(self).ideas@[j] == old(
                        self,
                    ).ideas@[j]
                &&& ({
                    let pre = old(self).ideas@[id as int];
                    let post = final(self).ideas@[id as int];
                    &&& post.status == status
                    &&& post.id == pre.id
                    &&& post.title == pre.title
                    &&& post.description == pre.description
                    &&& post.submitted_by == pre.submitted_by
                    &&& post.submitted_at_ns == pre.submitted_at_ns
                })
            },
    {
        if !self.is_admin(caller) {
            return Err(AdminError::NotAuthorized);
        }
        let count = self.ideas.len();
        if id >= count as u64 {
            return Err(AdminError::IdeaNotFound);
        }
        proof {
            assert((id as usize) as int == id);
        }
        let slot = idea_at_mut(&mut self.ideas, id as usize);
        slot.status = status;
        Ok(ApproveRejectResult { id, status })
    }

    /// Snapshot of every idea.
    pub fn get_ideas(&self) -> (r: Vec<Idea>)
        ensures
            r@.len() == self.ideas@.len(),
            forall|k: int|
                0 <= k < r@.len() ==> same_admin_idea(#[trigger] r@[k], self.ideas@[k]),
    {
        let n = self.ideas.len();
        let mut r: Vec<Idea> = Vec::new();
        let mut i: usize = 0;
        while i < n
            invariant
                n == self.ideas@.len(),
                0 <= i <= n,
                r@.len() == i,
                forall|k: int| 0 <= k < i ==> same_admin_idea(#[trigger] r@[k], self.ideas@[k]),
            decreases n - i,
        {
            r.push(self.ideas[i].clone());
            i += 1;
        }
        r
    }

    /// One idea, by id.
    pub fn get_idea(&self, id: u64) -> (r: Option<Idea>)
        ensures
            id < self.ideas@.len() ==> r is Some && same_admin_idea(r->0, self.ideas@[id as int]),
            !(id < self.ideas@.len()) ==> r is None,
    {
        let count = self.ideas.len();
        if id >= count as u64 {
            return None;
        }
        Some(self.ideas[id as usize].clone())
    }
}

/// Mutable access to one user record.
fn user_at_mut(v: &mut Vec<RegisteredUser>, i: usize) -> (e: &mut RegisteredUser)
    requires
        i < old(v).len(),
    ensures
        *e == old(v)@[i as int],
        final(v)@ == old(v)@.update(i as int, *final(e)),
{
    &mut v[i]
}

/// Mutable access to one idea record.
fn idea_at_mut(v: &mut Vec<Idea>, i: usize) -> (e: &mut Idea)
    requires
        i < old(v).len(),
    ensures
        *e == old(v)@[i as int],
        final(v)@ == old(v)@.update(i as int, *final(e)),
{
    &mut v[i]
}

} // verus!
