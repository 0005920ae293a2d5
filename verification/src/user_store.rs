use vstd::prelude::*;

use crate::errors::ServiceError;
use crate::ids::fresh_id;
use crate::models::{Address, Company, CreateAddressRequest, CreateCompanyRequest,
    CreateGeoRequest, CreateUserRequest, Geo, UpdateUserRequest, User, UserRecord, valid_geo};

verus! {

/// The user directory: three normalized relations — profile scalars,
/// address children and company children, the latter two linked to their
/// parent profile by `user_id`.  Each profile owns at most one address and
/// at most one company; children never outlive their parent.
pub struct UserStore {
    users: Vec<UserRecord>,
    addresses: Vec<Address>,
    companies: Vec<Company>,
}

/// The geographic point of a request, as the store keeps it.
pub open spec fn geo_of(g: Option<CreateGeoRequest>) -> Option<Geo> {
    match g {
        Option::None => Option::None,
        Option::Some(q) => Option::Some(Geo { lat: q.lat, lng: q.lng }),
    }
}

/// The address row that a request maps to, under the given row id and
/// parent profile id.
pub open spec fn address_from_request(a: CreateAddressRequest, row_id: u128, user_id: u128) -> Address {
    Address {
        id: row_id,
        user_id: user_id,
        street: a.street,
        suite: a.suite,
        city: a.city,
        zipcode: a.zipcode,
        geo: geo_of(a.geo),
    }
}

/// The company row that a request maps to, under the given row id and
/// parent profile id.
pub open spec fn company_from_request(c: CreateCompanyRequest, row_id: u128, user_id: u128) -> Company {
    Company {
        id: row_id,
        user_id: user_id,
        name: c.name,
        catch_phrase: c.catch_phrase,
        bs: c.bs,
    }
}

/// Whether the geographic point of a create request lies inside the ranges
/// the store's check constraint admits.
pub open spec fn create_geo_in_range(req: CreateUserRequest) -> bool {
    req.address matches Some(a) ==> (a.geo matches Some(g) ==> valid_geo(g.lat, g.lng))
}

/// Whether the geographic point of an update request lies inside the ranges
/// the store's check constraint admits.
pub open spec fn update_geo_in_range(req: UpdateUserRequest) -> bool {
    req.address matches Some(a) ==> (a.geo matches Some(g) ==> valid_geo(g.lat, g.lng))
}

/// The profile scalars after a partial update: a field present in the
/// request overwrites the stored value, an absent field keeps it; the id
/// and creation instant never change, and the update instant becomes `now`.
pub open spec fn merged_record(rec: UserRecord, req: UpdateUserRequest, now: u64) -> UserRecord {
    UserRecord {
        id: rec.id,
        name: match req.name {
            Option::Some(n) => n,
            Option::None => rec.name,
        },
        username: match req.username {
            Option::Some(n) => n,
            Option::None => rec.username,
        },
        email: match req.email {
            Option::Some(n) => n,
            Option::None => rec.email,
        },
        phone: match req.phone {
            Option::Some(p) => Option::Some(p),
            Option::None => rec.phone,
        },
        website: match req.website {
            Option::Some(w) => Option::Some(w),
            Option::None => rec.website,
        },
        created_at: rec.created_at,
        updated_at: now,
    }
}

impl UserStore {
    /// The stored profile rows, in insertion order.
    pub closed spec fn user_rows(self) -> Seq<UserRecord> {
        self.users@
    }

    /// The stored address rows, in insertion order.
    pub closed spec fn address_rows(self) -> Seq<Address> {
        self.addresses@
    }

    /// The stored company rows, in insertion order.
    pub closed spec fn company_rows(self) -> Seq<Company> {
        self.companies@
    }

    /// Whether a profile row with this id is stored.
    pub open spec fn has_user(self, id: u128) -> bool {
        exists|i: int| 0 <= i < self.user_rows().len() && self.user_rows()[i].id == id
    }

    /// The position of the profile row with this id (unique when the store
    /// is well formed).
    pub open spec fn user_idx(self, id: u128) -> int {
        choose|i: int| 0 <= i < self.user_rows().len() && self.user_rows()[i].id == id
    }

    /// The profile row stored under this id.
    pub open spec fn user_rec(self, id: u128) -> UserRecord {
        self.user_rows()[self.user_idx(id)]
    }

    /// Whether this profile owns an address row.
    pub open spec fn has_address_for(self, id: u128) -> bool {
        exists|i: int| 0 <= i < self.address_rows().len() && self.address_rows()[i].user_id == id
    }

    /// The position of the address row owned by this profile.
    pub open spec fn address_idx_for(self, id: u128) -> int {
        choose|i: int| 0 <= i < self.address_rows().len() && self.address_rows()[i].user_id == id
    }

    /// The address row owned by this profile.
    pub open spec fn address_for(self, id: u128) -> Address {
        self.address_rows()[self.address_idx_for(id)]
    }

    /// Whether this profile owns a company row.
    pub open spec fn has_company_for(self, id: u128) -> bool {
        exists|i: int| 0 <= i < self.company_rows().len() && self.company_rows()[i].user_id == id
    }

    /// The position of the company row owned by this profile.
    pub open spec fn company_idx_for(self, id: u128) -> int {
        choose|i: int| 0 <= i < self.company_rows().len() && self.company_rows()[i].user_id == id
    }

    /// The company row owned by this profile.
    pub open spec fn company_for(self, id: u128) -> Company {
        self.company_rows()[self.company_idx_for(id)]
    }

    /// Whether some stored address row carries this row id.
    pub open spec fn address_id_present(self, id: u128) -> bool {
        exists|i: int| 0 <= i < self.address_rows().len() && self.address_rows()[i].id == id
    }

    /// Whether some stored company row carries this row id.
    pub open spec fn company_id_present(self, id: u128) -> bool {
        exists|i: int| 0 <= i < self.company_rows().len() && self.company_rows()[i].id == id
    }

    /// The store's invariant: profile ids are unique; address and company
    /// rows have unique row ids, at most one row per profile, a parent
    /// profile that exists, and coordinates inside the geographic ranges.
    pub open spec fn wf(self) -> bool {
        &&& forall|i: int, j: int|
            0 <= i < j < self.user_rows().len() ==> self.user_rows()[i].id
                != self.user_rows()[j].id
        &&& forall|i: int, j: int|
            0 <= i < j < self.address_rows().len() ==> self.address_rows()[i].id
                != self.address_rows()[j].id && self.address_rows()[i].user_id
                != self.address_rows()[j].user_id
        &&& forall|i: int|
            0 <= i < self.address_rows().len() ==> self.has_user(self.address_rows()[i].user_id)
        &&& forall|i: int|
            0 <= i < self.address_rows().len() ==> (#[trigger] self.address_rows()[i].geo matches Some(g)
                ==> valid_geo(g.lat, g.lng))
        &&& forall|i: int, j: int|
            0 <= i < j < self.company_rows().len() ==> self.company_rows()[i].id
                != self.company_rows()[j].id && self.company_rows()[i].user_id
                != self.company_rows()[j].user_id
        &&& forall|i: int|
            0 <= i < self.company_rows().len() ==> self.has_user(self.company_rows()[i].user_id)
    }

    /// The composite entity this profile reassembles to: its scalars plus
    /// its address and company children, absent children mapping to `None`.
    pub open spec fn aggregate(self, id: u128) -> User {
        User {
            id: self.user_rec(id).id,
            name: self.user_rec(id).name,
            username: self.user_rec(id).username,
            email: self.user_rec(id).email,
            phone: self.user_rec(id).phone,
            website: self.user_rec(id).website,
            address: if self.has_address_for(id) {
                Option::Some(self.address_for(id))
            } else {
                Option::None
            },
            company: if self.has_company_for(id) {
                Option::Some(self.company_for(id))
            } else {
                Option::None
            },
            created_at: self.user_rec(id).created_at,
            updated_at: self.user_rec(id).updated_at,
        }
    }

    /// At a position holding a profile row, the row's id resolves back to
    /// that very position.
    pub proof fn lemma_user_idx_is(self, i: int)
        requires
            self.wf(),
            0 <= i < self.user_rows().len(),
        ensures
            self.has_user(self.user_rows()[i].id),
            self.user_idx(self.user_rows()[i].id) == i,
    {
        assert(self.has_user(self.user_rows()[i].id));
        let k = self.user_idx(self.user_rows()[i].id);
        if k != i {
            if k < i {
                assert(self.user_rows()[k].id != self.user_rows()[i].id);
            } else {
                assert(self.user_rows()[i].id != self.user_rows()[k].id);
            }
        }
    }

    /// At a position holding an address row, the row's parent id resolves
    /// back to that very position.
    pub proof fn lemma_address_idx_is(self, i: int)
        requires
            self.wf(),
            0 <= i < self.address_rows().len(),
        ensures
            self.has_address_for(self.address_rows()[i].user_id),
            self.address_idx_for(self.address_rows()[i].user_id) == i,
    {
        assert(self.has_address_for(self.address_rows()[i].user_id));
        let k = self.address_idx_for(self.address_rows()[i].user_id);
        if k != i {
            if k < i {
                assert(self.address_rows()[k].user_id != self.address_rows()[i].user_id);
            } else {
                assert(self.address_rows()[i].user_id != self.address_rows()[k].user_id);
            }
        }
    }

    /// At a position holding a company row, the row's parent id resolves
    /// back to that very position.
    pub proof fn lemma_company_idx_is(self, i: int)
        requires
            self.wf(),
            0 <= i < self.company_rows().len(),
        ensures
            self.has_company_for(self.company_rows()[i].user_id),
            self.company_idx_for(self.company_rows()[i].user_id) == i,
    {
        assert(self.has_company_for(self.company_rows()[i].user_id));
        let k = self.company_idx_for(self.company_rows()[i].user_id);
        if k != i {
            if k < i {
                assert(self.company_rows()[k].user_id != self.company_rows()[i].user_id);
            } else {
                assert(self.company_rows()[i].user_id != self.company_rows()[k].user_id);
            }
        }
    }

    /// An empty directory.
    pub fn new() -> (r: UserStore)
        ensures
            r.wf(),
            r.user_rows() == Seq::<UserRecord>::empty(),
            r.address_rows() == Seq::<Address>::empty(),
            r.company_rows() == Seq::<Company>::empty(),
    {
        UserStore { users: Vec::new(), addresses: Vec::new(), companies: Vec::new() }
    }

    /// Finds the position of the profile row with this id.
    fn find_user_idx(&self, id: u128) -> (r: Option<usize>)
        requires
            self.wf(),
        ensures
            r is Some <==> self.has_user(id),
            r matches Some(i) ==> i < self.user_rows().len() && self.user_rows()[i as int].id == id
                && self.user_idx(id) == i as int,
    {
        let n = self.users.len();
        let mut i: usize = 0;
        while i < n
            invariant
                self.wf(),
                n == self.user_rows().len(),
                i <= n,
                forall|j: int| 0 <= j < i ==> self.user_rows()[j].id != id,
            decreases n - i,
        {
            if self.users[i].id == id {
                proof {
                    self.lemma_user_idx_is(i as int);
                }
                return Some(i);
            }
            i += 1;
        }
        None
    }

    /// Finds the position of the address row owned by this profile.
    fn find_address_idx(&self, user_id: u128) -> (r: Option<usize>)
        requires
            self.wf(),
        ensures
            r is Some <==> self.has_address_for(user_id),
            r matches Some(i) ==> i < self.address_rows().len()
                && self.address_rows()[i as int].user_id == user_id && self.address_idx_for(user_id)
                == i as int,
    {
        let n = self.addresses.len();
        let mut i: usize = 0;
        while i < n
            invariant
                self.wf(),
                n == self.address_rows().len(),
                i <= n,
                forall|j: int| 0 <= j < i ==> self.address_rows()[j].user_id != user_id,
            decreases n - i,
        {
            if self.addresses[i].user_id == user_id {
                proof {
                    self.lemma_address_idx_is(i as int);
                }
                return Some(i);
            }
            i += 1;
        }
        None
    }

    /// Finds the position of the company row owned by this profile.
    fn find_company_idx(&self, user_id: u128) -> (r: Option<usize>)
        requires
            self.wf(),
        ensures
            r is Some <==> self.has_company_for(user_id),
            r matches Some(i) ==> i < self.company_rows().len()
                && self.company_rows()[i as int].user_id == user_id && self.company_idx_for(user_id)
                == i as int,
    {
        let n = self.companies.len();
        let mut i: usize = 0;
        while i < n
            invariant
                self.wf(),
                n == self.company_rows().len(),
                i <= n,
                forall|j: int| 0 <= j < i ==> self.company_rows()[j].user_id != user_id,
            decreases n - i,
        {
            if self.companies[i].user_id == user_id {
                proof {
                    self.lemma_company_idx_is(i as int);
                }
                return Some(i);
            }
            i += 1;
        }
        None
    }

    /// Whether some stored address row already carries this row id.
    fn address_id_taken(&self, id: u128) -> (r: bool)
        ensures
            r == self.address_id_present(id),
    {
        let n = self.addresses.len();
        let mut i: usize = 0;
        while i < n
            invariant
                n == self.address_rows().len(),
                i <= n,
                forall|j: int| 0 <= j < i ==> self.address_rows()[j].id != id,
            decreases n - i,
        {
            if self.addresses[i].id == id {
                return true;
            }
            i += 1;
        }
        false
    }

    /// Whether some stored company row already carries this row id.
    fn company_id_taken(&self, id: u128) -> (r: bool)
        ensures
            r == self.company_id_present(id),
    {
        let n = self.companies.len();
        let mut i: usize = 0;
        while i < n
            invariant
                n == self.company_rows().len(),
                i <= n,
                forall|j: int| 0 <= j < i ==> self.company_rows()[j].id != id,
            decreases n - i,
        {
            if self.companies[i].id == id {
                return true;
            }
            i += 1;
        }
        false
    }

    /// Reassembles the composite entity for the profile row at a position:
    /// one profile read plus at most one address and one company read.
    fn assemble(&self, idx: usize) -> (u: User)
        requires
            self.wf(),
            idx < self.user_rows().len(),
        ensures
            u == self.aggregate(self.user_rows()[idx as int].id),
            u.id == self.user_rows()[idx as int].id,
    {
        proof {
            self.lemma_user_idx_is(idx as int);
        }
        let rec = self.users[idx].clone();
        let address = match self.find_address_idx(rec.id) {
            Some(ai) => Some(self.addresses[ai].clone()),
            None => None,
        };
        let company = match self.find_company_idx(rec.id) {
            Some(ci) => Some(self.companies[ci].clone()),
            None => None,
        };
        User {
            id: rec.id,
            name: rec.name,
            username: rec.username,
            email: rec.email,
            phone: rec.phone,
            website: rec.website,
            address,
            company,
            created_at: rec.created_at,
            updated_at: rec.updated_at,
        }
    }

    /// Fetches one composite user.  A missing profile row is `NotFound`;
    /// absent children are `None`, never an error.
    pub fn get_user_by_id(&self, user_id: u128) -> (r: Result<User, ServiceError>)
        requires
            self.wf(),
        ensures
            r matches Ok(u) ==> self.has_user(user_id) && u == self.aggregate(user_id) && u.id
                == user_id,
            r == Err::<User, ServiceError>(ServiceError::NotFound) <==> !self.has_user(user_id),
            r is Err ==> r == Err::<User, ServiceError>(ServiceError::NotFound),
    {
        match self.find_user_idx(user_id) {
            Some(idx) => Ok(self.assemble(idx)),
            None => Err(ServiceError::NotFound),
        }
    }

    /// Fetches every composite user, one aggregate per stored profile row,
    /// in the profile relation's order.
    pub fn get_all_users(&self) -> (r: Vec<User>)
        requires
            self.wf(),
        ensures
            r@.len() == self.user_rows().len(),
            forall|i: int|
                0 <= i < r@.len() ==> r@[i] == self.aggregate(self.user_rows()[i].id)
                    && r@[i].id == self.user_rows()[i].id,
    {
        let n = self.users.len();
        let mut out: Vec<User> = Vec::new();
        let mut i: usize = 0;
        while i < n
            invariant
                self.wf(),
                n == self.user_rows().len(),
                i <= n,
                out@.len() == i,
                forall|j: int|
                    0 <= j < i ==> out@[j] == self.aggregate(self.user_rows()[j].id)
                        && out@[j].id == self.user_rows()[j].id,
            decreases n - i,
        {
            let u = self.assemble(i);
            out.push(u);
            i += 1;
        }
        out
    }

    /// Creates a composite user: inserts the profile row and, when present
    /// in the request, an address row and a company row, each under a
    /// freshly drawn id, all-or-nothing.  A coordinate outside the
    /// geographic ranges is rejected as `ValidationFailed`; a clash of a
    /// freshly drawn id with a stored row is a storage-level failure,
    /// `PersistenceFailed`.  A failed create leaves the store unchanged.
    /// On success the authoritative composite view is fetched back and
    /// returned.
    pub fn create_user(&mut self, req: CreateUserRequest, now: u64) -> (r: Result<
        User,
        ServiceError,
    >)
        requires
            old(self).wf(),
        ensures
            final(self).wf(),
            r matches Err(e) ==> *final(self) == *old(self) && (e == ServiceError::ValidationFailed
                || e == ServiceError::PersistenceFailed),
            (r matches Err(e) && e == ServiceError::ValidationFailed) <==> !create_geo_in_range(
                req,
            ),
            r == Err::<User, ServiceError>(ServiceError::PersistenceFailed) ==> old(
                self,
            ).user_rows().len() + old(self).address_rows().len() + old(self).company_rows().len()
                > 0,
            r matches Ok(u) ==> !old(self).has_user(u.id) && final(self).has_user(u.id) && u
                == final(self).aggregate(u.id) && u.name@ == req.name@ && u.username@
                == req.username@ && u.email@ == req.email@ && u.phone == req.phone && u.website
                == req.website && u.created_at == now && u.updated_at == now,
            r matches Ok(u) ==> final(self).user_rows() == old(self).user_rows().push(
                final(self).user_rows().last(),
            ) && final(self).user_rows().last().id == u.id,
            r matches Ok(u) ==> (req.address is None ==> final(self).address_rows() == old(
                self,
            ).address_rows() && u.address is None),
            r matches Ok(u) ==> (req.address matches Some(a) ==> u.address matches Some(ar) && ar
                == address_from_request(a, ar.id, u.id) && final(self).address_rows() == old(
                self,
            ).address_rows().push(ar)),
            r matches Ok(u) ==> (req.company is None ==> final(self).company_rows() == old(
                self,
            ).company_rows() && u.company is None),
            r matches Ok(u) ==> (req.company matches Some(c) ==> u.company matches Some(cr) && cr
                == company_from_request(c, cr.id, u.id) && final(self).company_rows() == old(
                self,
            ).company_rows().push(cr)),
    {
        if let Some(a) = &req.address {
            if let Some(g) = &a.geo {
                if g.validate().is_err() {
                    return Err(ServiceError::ValidationFailed);
                }
            }
        }
        let user_id = fresh_id();
        if self.find_user_idx(user_id).is_some() {
            return Err(ServiceError::PersistenceFailed);
        }
        let CreateUserRequest { name, username, email, phone, website, address, company } = req;
        let address_row = match address {
            Some(a) => {
                let aid = fresh_id();
                if self.address_id_taken(aid) {
                    return Err(ServiceError::PersistenceFailed);
                }
                let CreateAddressRequest { street, suite, city, zipcode, geo } = a;
                let geo_row = match geo {
                    Some(g) => Some(Geo { lat: g.lat, lng: g.lng }),
                    None => None,
                };
                Some(
                    Address {
                        id: aid,
                        user_id,
                        street,
                        suite,
                        city,
                        zipcode,
                        geo: geo_row,
                    },
                )
            },
            None => None,
        };
        let company_row = match company {
            Some(c) => {
                let cid = fresh_id();
                if self.company_id_taken(cid) {
                    return Err(ServiceError::PersistenceFailed);
                }
                let CreateCompanyRequest { name: company_name, catch_phrase, bs } = c;
                Some(
                    Company {
                        id: cid,
                        user_id,
                        name: company_name,
                        catch_phrase,
                        bs,
                    },
                )
            },
            None => None,
        };
        let rec = UserRecord {
            id: user_id,
            name,
            username,
            email,
            phone,
            website,
            created_at: now,
            updated_at: now,
        };
        self.users.push(rec);
        match address_row {
            Some(ar) => {
                self.addresses.push(ar);
            },
            None => {},
        }
        match company_row {
            Some(cr) => {
                self.companies.push(cr);
            },
            None => {},
        }
        proof {
            let n_users = self.user_rows().len();
            assert forall|i: int, j: int| 0 <= i < j < n_users implies self.user_rows()[i].id
                != self.user_rows()[j].id by {
                if j == n_users - 1 && self.user_rows()[i].id == user_id {
                    assert(old(self).has_user(user_id));
                }
            }
            let n_addr = self.address_rows().len();
            assert forall|i: int, j: int| 0 <= i < j < n_addr implies self.address_rows()[i].id
                != self.address_rows()[j].id && self.address_rows()[i].user_id
                != self.address_rows()[j].user_id by {
                if j == n_addr - 1 && address_row is Some {
                    if self.address_rows()[i].id == self.address_rows()[j].id {
                        assert(old(self).address_id_present(self.address_rows()[j].id));
                    }
                    if self.address_rows()[i].user_id == user_id {
                        assert(old(self).has_user(user_id));
                    }
                }
            }
            assert forall|i: int| 0 <= i < n_addr implies self.has_user(
                self.address_rows()[i].user_id,
            ) by {
                if address_row is Some && i == n_addr - 1 {
                    assert(self.user_rows()[n_users - 1].id == user_id);
                } else {
                    assert(old(self).has_user(self.address_rows()[i].user_id));
                    let k = choose|k: int|
                        0 <= k < old(self).user_rows().len() && old(self).user_rows()[k].id
                            == self.address_rows()[i].user_id;
                    assert(self.user_rows()[k].id == self.address_rows()[i].user_id);
                }
            }
            assert forall|i: int| 0 <= i < n_addr implies (#[trigger] self.address_rows()[i].geo
                matches Some(g) ==> valid_geo(g.lat, g.lng)) by {}
            let n_comp = self.company_rows().len();
            assert forall|i: int, j: int| 0 <= i < j < n_comp implies self.company_rows()[i].id
                != self.company_rows()[j].id && self.company_rows()[i].user_id
                != self.company_rows()[j].user_id by {
                if j == n_comp - 1 && company_row is Some {
                    if self.company_rows()[i].id == self.company_rows()[j].id {
                        assert(old(self).company_id_present(self.company_rows()[j].id));
                    }
                    if self.company_rows()[i].user_id == user_id {
                        assert(old(self).has_user(user_id));
                    }
                }
            }
            assert forall|i: int| 0 <= i < n_comp implies self.has_user(
                self.company_rows()[i].user_id,
            ) by {
                if company_row is Some && i == n_comp - 1 {
                    assert(self.user_rows()[n_users - 1].id == user_id);
                } else {
                    assert(old(self).has_user(self.company_rows()[i].user_id));
                    let k = choose|k: int|
                        0 <= k < old(self).user_rows().len() && old(self).user_rows()[k].id
                            == self.company_rows()[i].user_id;
                    assert(self.user_rows()[k].id == self.company_rows()[i].user_id);
                }
            }
            self.lemma_user_idx_is(n_users - 1);
            if address_row is Some {
                self.lemma_address_idx_is(n_addr - 1);
            } else {
                if self.has_address_for(user_id) {
                    let k = self.address_idx_for(user_id);
                    assert(old(self).has_user(self.address_rows()[k].user_id));
                }
            }
            if company_row is Some {
                self.lemma_company_idx_is(n_comp - 1);
            } else {
                if self.has_company_for(user_id) {
                    let k = self.company_idx_for(user_id);
                    assert(old(self).has_user(self.company_rows()[k].user_id));
                }
            }
        }
        match self.get_user_by_id(user_id) {
            Ok(u) => Ok(u),
            Err(_) => {
                proof {
                    assert(false);
                }
                Err(ServiceError::PersistenceFailed)
            },
        }
    }

    /// Updates a composite user in place, all-or-nothing.  Scalar fields
    /// present in the request overwrite the stored values; absent ones stay
    /// untouched.  An address or company present in the request replaces
    /// the stored child row if one exists (keeping its row id) and is
    /// inserted under a fresh id otherwise; an absent child request leaves
    /// the stored child unchanged.  A missing target profile is `NotFound`;
    /// a coordinate outside the geographic ranges is `ValidationFailed`; a
    /// clash of a freshly drawn id is `PersistenceFailed`.  On success the
    /// authoritative composite view is fetched back and returned.
    pub fn update_user(&mut self, user_id: u128, req: UpdateUserRequest, now: u64) -> (r: Result<
        User,
        ServiceError,
    >)
        requires
            old(self).wf(),
        ensures
            final(self).wf(),
            r matches Err(e) ==> *final(self) == *old(self) && (e == ServiceError::NotFound || e
                == ServiceError::ValidationFailed || e == ServiceError::PersistenceFailed),
            r == Err::<User, ServiceError>(ServiceError::NotFound) <==> !old(self).has_user(
                user_id,
            ),
            (r matches Err(e) && e == ServiceError::ValidationFailed) <==> (old(self).has_user(
                user_id,
            ) && !update_geo_in_range(req)),
            old(self).has_user(user_id) && update_geo_in_range(req) && (req.address is Some
                ==> old(self).has_address_for(user_id)) && (req.company is Some ==> old(
                self,
            ).has_company_for(user_id)) ==> r is Ok,
            r matches Ok(u) ==> old(self).has_user(user_id) && final(self).has_user(user_id) && u
                == final(self).aggregate(user_id) && final(self).user_rows() == old(
                self,
            ).user_rows().update(
                old(self).user_idx(user_id),
                merged_record(old(self).user_rec(user_id), req, now),
            ) && final(self).user_rec(user_id) == merged_record(
                old(self).user_rec(user_id),
                req,
                now,
            ),
            r matches Ok(u) ==> (req.address is None ==> final(self).address_rows() == old(
                self,
            ).address_rows()),
            r matches Ok(u) ==> (req.address matches Some(a) ==> u.address matches Some(ar) && ar
                == address_from_request(a, ar.id, user_id) && (old(self).has_address_for(user_id)
                ==> ar.id == old(self).address_for(user_id).id && final(self).address_rows() == old(
                self,
            ).address_rows().update(old(self).address_idx_for(user_id), ar)) && (!old(
                self,
            ).has_address_for(user_id) ==> final(self).address_rows() == old(
                self,
            ).address_rows().push(ar))),
            r matches Ok(u) ==> (req.company is None ==> final(self).company_rows() == old(
                self,
            ).company_rows()),
            r matches Ok(u) ==> (req.company matches Some(c) ==> u.company matches Some(cr) && cr
                == company_from_request(c, cr.id, user_id) && (old(self).has_company_for(user_id)
                ==> cr.id == old(self).company_for(user_id).id && final(self).company_rows() == old(
                self,
            ).company_rows().update(old(self).company_idx_for(user_id), cr)) && (!old(
                self,
            ).has_company_for(user_id) ==> final(self).company_rows() == old(
                self,
            ).company_rows().push(cr))),
    {
        let idx = match self.find_user_idx(user_id) {
            Some(i) => i,
            None => {
                return Err(ServiceError::NotFound);
            },
        };
        if let Some(a) = &req.address {
            if let Some(g) = &a.geo {
                if g.validate().is_err() {
                    return Err(ServiceError::ValidationFailed);
                }
            }
        }
        let UpdateUserRequest { name, username, email, phone, website, address, company } = req;
        let addr_idx = self.find_address_idx(user_id);
        let comp_idx = self.find_company_idx(user_id);
        let address_row = match address {
            Some(a) => {
                let aid = match addr_idx {
                    Some(ai) => self.addresses[ai].id,
                    None => {
                        let drawn = fresh_id();
                        if self.address_id_taken(drawn) {
                            return Err(ServiceError::PersistenceFailed);
                        }
                        drawn
                    },
                };
                let CreateAddressRequest { street, suite, city, zipcode, geo } = a;
                let geo_row = match geo {
                    Some(g) => Some(Geo { lat: g.lat, lng: g.lng }),
                    None => None,
                };
                Some(
                    Address {
                        id: aid,
                        user_id,
                        street,
                        suite,
                        city,
                        zipcode,
                        geo: geo_row,
                    },
                )
            },
            None => None,
        };
        let company_row = match company {
            Some(c) => {
                let cid = match comp_idx {
                    Some(ci) => self.companies[ci].id,
                    None => {
                        let drawn = fresh_id();
                        if self.company_id_taken(drawn) {
                            return Err(ServiceError::PersistenceFailed);
                        }
                        drawn
                    },
                };
                let CreateCompanyRequest { name: company_name, catch_phrase, bs } = c;
                Some(
                    Company {
                        id: cid,
                        user_id,
                        name: company_name,
                        catch_phrase,
                        bs,
                    },
                )
            },
            None => None,
        };
        let old_rec = self.users[idx].clone();
        let new_rec = UserRecord {
            id: old_rec.id,
            name: match name {
                Some(n) => n,
                None => old_rec.name,
            },
            username: match username {
                Some(n) => n,
                None => old_rec.username,
            },
            email: match email {
                Some(n) => n,
                None => old_rec.email,
            },
            phone: match phone {
                Some(p) => Some(p),
                None => old_rec.phone,
            },
            website: match website {
                Some(w) => Some(w),
                None => old_rec.website,
            },
            created_at: old_rec.created_at,
            updated_at: now,
        };
        self.users.set(idx, new_rec);
        match address_row {
            Some(ar) => {
                match addr_idx {
                    Some(ai) => {
                        self.addresses.set(ai, ar);
                    },
                    None => {
                        self.addresses.push(ar);
                    },
                }
            },
            None => {},
        }
        match company_row {
            Some(cr) => {
                match comp_idx {
                    Some(ci) => {
                        self.companies.set(ci, cr);
                    },
                    None => {
                        self.companies.push(cr);
                    },
                }
            },
            None => {},
        }
        proof {
            let n_users = self.user_rows().len();
            assert forall|i: int, j: int| 0 <= i < j < n_users implies self.user_rows()[i].id
                != self.user_rows()[j].id by {
                assert(old(self).user_rows()[i].id != old(self).user_rows()[j].id);
            }
            let n_addr = self.address_rows().len();
            assert forall|i: int, j: int| 0 <= i < j < n_addr implies self.address_rows()[i].id
                != self.address_rows()[j].id && self.address_rows()[i].user_id
                != self.address_rows()[j].user_id by {
                if address_row is Some && addr_idx is None {
                    let ar = address_row->0;
                    if j == n_addr - 1 {
                        if self.address_rows()[i].id == ar.id {
                            assert(old(self).address_id_present(ar.id));
                        }
                        if self.address_rows()[i].user_id == user_id {
                            assert(old(self).has_address_for(user_id));
                        }
                    } else {
                        assert(old(self).address_rows()[i].id != old(self).address_rows()[j].id);
                    }
                } else {
                    assert(old(self).address_rows()[i].id != old(self).address_rows()[j].id);
                    assert(old(self).address_rows()[i].user_id != old(
                        self,
                    ).address_rows()[j].user_id);
                }
            }
            assert forall|i: int| 0 <= i < n_addr implies self.has_user(
                self.address_rows()[i].user_id,
            ) by {
                let w = self.address_rows()[i].user_id;
                if w == user_id {
                    assert(self.user_rows()[idx as int].id == user_id);
                } else {
                    assert(old(self).has_user(w));
                    let k = choose|k: int|
                        0 <= k < old(self).user_rows().len() && old(self).user_rows()[k].id == w;
                    assert(self.user_rows()[k].id == w);
                }
            }
            assert forall|i: int| 0 <= i < n_addr implies (#[trigger] self.address_rows()[i].geo
                matches Some(g) ==> valid_geo(g.lat, g.lng)) by {}
            let n_comp = self.company_rows().len();
            assert forall|i: int, j: int| 0 <= i < j < n_comp implies self.company_rows()[i].id
                != self.company_rows()[j].id && self.company_rows()[i].user_id
                != self.company_rows()[j].user_id by {
                if company_row is Some && comp_idx is None {
                    let cr = company_row->0;
                    if j == n_comp - 1 {
                        if self.company_rows()[i].id == cr.id {
                            assert(old(self).company_id_present(cr.id));
                        }
                        if self.company_rows()[i].user_id == user_id {
                            assert(old(self).has_company_for(user_id));
                        }
                    } else {
                        assert(old(self).company_rows()[i].id != old(self).company_rows()[j].id);
                    }
                } else {
                    assert(old(self).company_rows()[i].id != old(self).company_rows()[j].id);
                    assert(old(self).company_rows()[i].user_id != old(
                        self,
                    ).company_rows()[j].user_id);
                }
            }
            assert forall|i: int| 0 <= i < n_comp implies self.has_user(
                self.company_rows()[i].user_id,
            ) by {
                let w = self.company_rows()[i].user_id;
                if w == user_id {
                    assert(self.user_rows()[idx as int].id == user_id);
                } else {
                    assert(old(self).has_user(w));
                    let k = choose|k: int|
                        0 <= k < old(self).user_rows().len() && old(self).user_rows()[k].id == w;
                    assert(self.user_rows()[k].id == w);
                }
            }
            self.lemma_user_idx_is(idx as int);
            if address_row is Some {
                match addr_idx {
                    Some(ai) => {
                        self.lemma_address_idx_is(ai as int);
                    },
                    None => {
                        self.lemma_address_idx_is(n_addr - 1);
                    },
                }
            } else {
                match addr_idx {
                    Some(ai) => {
                        self.lemma_address_idx_is(ai as int);
                    },
                    None => {
                        if self.has_address_for(user_id) {
                            let k = self.address_idx_for(user_id);
                            assert(old(self).address_rows()[k].user_id == user_id);
                        }
                    },
                }
            }
            if company_row is Some {
                match comp_idx {
                    Some(ci) => {
                        self.lemma_company_idx_is(ci as int);
                    },
                    None => {
                        self.lemma_company_idx_is(n_comp - 1);
                    },
                }
            } else {
                match comp_idx {
                    Some(ci) => {
                        self.lemma_company_idx_is(ci as int);
                    },
                    None => {
                        if self.has_company_for(user_id) {
                            let k = self.company_idx_for(user_id);
                            assert(old(self).company_rows()[k].user_id == user_id);
                        }
                    },
                }
            }
        }
        match self.get_user_by_id(user_id) {
            Ok(u) => Ok(u),
            Err(_) => {
                proof {
                    assert(false);
                }
                Err(ServiceError::PersistenceFailed)
            },
        }
    }

    /// Deletes a composite user: removes the profile row and cascades the
    /// removal of its address and company children.  Deleting an id that
    /// is not stored is `NotFound`, never a silent no-op, so callers can
    /// tell "never existed" from "removed".
    pub fn delete_user(&mut self, user_id: u128) -> (r: Result<(), ServiceError>)
        requires
            old(self).wf(),
        ensures
            final(self).wf(),
            r == Err::<(), ServiceError>(ServiceError::NotFound) <==> !old(self).has_user(user_id),
            r is Err ==> *final(self) == *old(self) && r == Err::<(), ServiceError>(
                ServiceError::NotFound,
            ),
            r is Ok ==> final(self).user_rows() == old(self).user_rows().remove(
                old(self).user_idx(user_id),
            ) && !final(self).has_user(user_id),
            r is Ok ==> (old(self).has_address_for(user_id) ==> final(self).address_rows() == old(
                self,
            ).address_rows().remove(old(self).address_idx_for(user_id))) && (!old(
                self,
            ).has_address_for(user_id) ==> final(self).address_rows() == old(self).address_rows())
                && !final(self).has_address_for(user_id),
            r is Ok ==> (old(self).has_company_for(user_id) ==> final(self).company_rows() == old(
                self,
            ).company_rows().remove(old(self).company_idx_for(user_id))) && (!old(
                self,
            ).has_company_for(user_id) ==> final(self).company_rows() == old(self).company_rows())
                && !final(self).has_company_for(user_id),
    {
        let idx = match self.find_user_idx(user_id) {
            Some(i) => i,
            None => {
                return Err(ServiceError::NotFound);
            },
        };
        let addr_idx = self.find_address_idx(user_id);
        let comp_idx = self.find_company_idx(user_id);
        match addr_idx {
            Some(ai) => {
                self.addresses.remove(ai);
            },
            None => {},
        }
        match comp_idx {
            Some(ci) => {
                self.companies.remove(ci);
            },
            None => {},
        }
        self.users.remove(idx);
        proof {
            let n_users = self.user_rows().len();
            assert forall|i: int, j: int| 0 <= i < j < n_users implies self.user_rows()[i].id
                != self.user_rows()[j].id by {
                let oi = if i < idx as int { i } else { i + 1 };
                let oj = if j < idx as int { j } else { j + 1 };
                assert(self.user_rows()[i] == old(self).user_rows()[oi]);
                assert(self.user_rows()[j] == old(self).user_rows()[oj]);
            }
            assert forall|i: int| 0 <= i < n_users implies self.user_rows()[i].id != user_id by {
                let oi = if i < idx as int { i } else { i + 1 };
                assert(self.user_rows()[i] == old(self).user_rows()[oi]);
                if old(self).user_rows()[oi].id == user_id && oi != idx as int {
                    if oi < idx as int {
                        assert(old(self).user_rows()[oi].id != old(self).user_rows()[idx as int].id);
                    } else {
                        assert(old(self).user_rows()[idx as int].id != old(self).user_rows()[oi].id);
                    }
                }
            }
            let n_addr = self.address_rows().len();
            assert forall|i: int| 0 <= i < n_addr implies self.address_rows()[i]
                == old(self).address_rows()[
                (match addr_idx {
                    Some(ai) => if i < ai as int { i } else { i + 1 },
                    None => i,
                })] by {}
            assert forall|i: int| 0 <= i < n_addr implies self.address_rows()[i].user_id != user_id
                && self.has_user(self.address_rows()[i].user_id) by {
                let oi = match addr_idx {
                    Some(ai) => if i < ai as int { i } else { i + 1 },
                    None => i,
                };
                assert(self.address_rows()[i] == old(self).address_rows()[oi]);
                let w = old(self).address_rows()[oi].user_id;
                if w == user_id {
                    match addr_idx {
                        Some(ai) => {
                            old(self).lemma_address_idx_is(oi);
                            old(self).lemma_address_idx_is(ai as int);
                        },
                        None => {
                            assert(old(self).has_address_for(user_id));
                        },
                    }
                }
                assert(old(self).has_user(w));
                let k = choose|k: int|
                    0 <= k < old(self).user_rows().len() && old(self).user_rows()[k].id == w;
                let nk = if k < idx as int { k } else { k - 1 };
                assert(k != idx as int);
                assert(self.user_rows()[nk] == old(self).user_rows()[k]);
            }
            assert forall|i: int, j: int| 0 <= i < j < n_addr implies self.address_rows()[i].id
                != self.address_rows()[j].id && self.address_rows()[i].user_id
                != self.address_rows()[j].user_id by {
                let oi = match addr_idx {
                    Some(ai) => if i < ai as int { i } else { i + 1 },
                    None => i,
                };
                let oj = match addr_idx {
                    Some(ai) => if j < ai as int { j } else { j + 1 },
                    None => j,
                };
                assert(self.address_rows()[i] == old(self).address_rows()[oi]);
                assert(self.address_rows()[j] == old(self).address_rows()[oj]);
                assert(old(self).address_rows()[oi].id != old(self).address_rows()[oj].id);
                assert(old(self).address_rows()[oi].user_id != old(self).address_rows()[oj].user_id);
            }
            assert forall|i: int| 0 <= i < n_addr implies (#[trigger] self.address_rows()[i].geo
                matches Some(g) ==> valid_geo(g.lat, g.lng)) by {
                let oi = match addr_idx {
                    Some(ai) => if i < ai as int { i } else { i + 1 },
                    None => i,
                };
                assert(self.address_rows()[i] == old(self).address_rows()[oi]);
            }
            let n_comp = self.company_rows().len();
            assert forall|i: int| 0 <= i < n_comp implies self.company_rows()[i].user_id != user_id
                && self.has_user(self.company_rows()[i].user_id) by {
                let oi = match comp_idx {
                    Some(ci) => if i < ci as int { i } else { i + 1 },
                    None => i,
                };
                assert(self.company_rows()[i] == old(self).company_rows()[oi]);
                let w = old(self).company_rows()[oi].user_id;
                if w == user_id {
                    match comp_idx {
                        Some(ci) => {
                            old(self).lemma_company_idx_is(oi);
                            old(self).lemma_company_idx_is(ci as int);
                        },
                        None => {
                            assert(old(self).has_company_for(user_id));
                        },
                    }
                }
                assert(old(self).has_user(w));
                let k = choose|k: int|
                    0 <= k < old(self).user_rows().len() && old(self).user_rows()[k].id == w;
                let nk = if k < idx as int { k } else { k - 1 };
                assert(k != idx as int);
                assert(self.user_rows()[nk] == old(self).user_rows()[k]);
            }
            assert forall|i: int, j: int| 0 <= i < j < n_comp implies self.company_rows()[i].id
                != self.company_rows()[j].id && self.company_rows()[i].user_id
                != self.company_rows()[j].user_id by {
                let oi = match comp_idx {
                    Some(ci) => if i < ci as int { i } else { i + 1 },
                    None => i,
                };
                let oj = match comp_idx {
                    Some(ci) => if j < ci as int { j } else { j + 1 },
                    None => j,
                };
                assert(self.company_rows()[i] == old(self).company_rows()[oi]);
                assert(self.company_rows()[j] == old(self).company_rows()[oj]);
                assert(old(self).company_rows()[oi].id != old(self).company_rows()[oj].id);
                assert(old(self).company_rows()[oi].user_id != old(self).company_rows()[oj].user_id);
            }
        }
        Ok(())
    }
}

} // verus!
