use vstd::prelude::*;

use crate::errors::ServiceError;

verus! {

// Identifiers are carried as 128-bit integers, the value space of the
// version-4 identifiers the store keys its rows by.  Timestamps are unix
// seconds.  Geographic coordinates are micro-degree fixed-point values, the
// exact decimal form the store keeps in its two nullable numeric columns.

/// An embedded geographic point; present only when both coordinates were
/// supplied.  `lat` must lie in [-90, 90] degrees and `lng` in [-180, 180]
/// degrees, both expressed in micro-degrees.
#[derive(Clone, Copy, Debug, PartialEq, Eq, Structural)]
pub struct Geo {
    pub lat: i64,
    pub lng: i64,
}

/// The coordinate ranges the store's check constraint admits.
pub open spec fn valid_geo(lat: i64, lng: i64) -> bool {
    &&& -90_000_000 <= lat <= 90_000_000
    &&& -180_000_000 <= lng <= 180_000_000
}

/// An address row: an owned child of one user profile, linked by `user_id`.
#[derive(Debug)]
pub struct Address {
    pub id: u128,
    pub user_id: u128,
    pub street: String,
    pub suite: Option<String>,
    pub city: String,
    pub zipcode: String,
    pub geo: Option<Geo>,
}

/// A company row: an owned child of one user profile, linked by `user_id`.
#[derive(Debug)]
pub struct Company {
    pub id: u128,
    pub user_id: u128,
    pub name: String,
    pub catch_phrase: Option<String>,
    pub bs: Option<String>,
}

/// The scalar part of a user profile, as the profile relation stores it.
#[derive(Debug)]
pub struct UserRecord {
    pub id: u128,
    pub name: String,
    pub username: String,
    pub email: String,
    pub phone: Option<String>,
    pub website: Option<String>,
    pub created_at: u64,
    pub updated_at: u64,
}

/// The composite user entity: profile scalars plus the optional address and
/// company children, reassembled from the three normalized relations.
#[derive(Debug)]
pub struct User {
    pub id: u128,
    pub name: String,
    pub username: String,
    pub email: String,
    pub phone: Option<String>,
    pub website: Option<String>,
    pub address: Option<Address>,
    pub company: Option<Company>,
    pub created_at: u64,
    pub updated_at: u64,
}

/// An account row of the credential store.  Only the password hash is
/// stored, never the plaintext.
#[derive(Debug)]
pub struct AuthUser {
    pub id: u128,
    pub name: String,
    pub email: String,
    pub password_hash: String,
    pub created_at: u64,
    pub updated_at: u64,
}

/// The insert payload for a new account; the store adds the timestamps.
#[derive(Debug)]
pub struct NewAuthUser {
    pub id: u128,
    pub name: String,
    pub email: String,
    pub password_hash: String,
}

/// The request payload for creating a user profile aggregate.
#[derive(Debug)]
pub struct CreateUserRequest {
    pub name: String,
    pub username: String,
    pub email: String,
    pub phone: Option<String>,
    pub website: Option<String>,
    pub address: Option<CreateAddressRequest>,
    pub company: Option<CreateCompanyRequest>,
}

/// The request payload for a partial update of a user profile aggregate.
/// A scalar field left at `None` keeps the stored value unchanged; an
/// address or company left at `None` likewise keeps the stored child row.
/// Omission never deletes a child: this library collapses "omitted" to
/// "leave unchanged" and offers no tombstone.
#[derive(Debug)]
pub struct UpdateUserRequest {
    pub name: Option<String>,
    pub username: Option<String>,
    pub email: Option<String>,
    pub phone: Option<String>,
    pub website: Option<String>,
    pub address: Option<CreateAddressRequest>,
    pub company: Option<CreateCompanyRequest>,
}

/// The request payload for an address child row.
#[derive(Debug)]
pub struct CreateAddressRequest {
    pub street: String,
    pub suite: Option<String>,
    pub city: String,
    pub zipcode: String,
    pub geo: Option<CreateGeoRequest>,
}

/// The request payload for a geographic point, in micro-degrees.
#[derive(Clone, Copy, Debug, PartialEq, Eq, Structural)]
pub struct CreateGeoRequest {
    pub lat: i64,
    pub lng: i64,
}

/// The request payload for a company child row.
#[derive(Debug)]
pub struct CreateCompanyRequest {
    pub name: String,
    pub catch_phrase: Option<String>,
    pub bs: Option<String>,
}

/// The registration input.  Shape validation beyond what `validate` checks
/// (full email-format checking in particular) belongs to the HTTP layer's
/// validation collaborator.
#[derive(Debug)]
pub struct RegisterRequest {
    pub name: String,
    pub email: String,
    pub password: String,
}

/// The login input.
#[derive(Debug)]
pub struct LoginRequest {
    pub email: String,
    pub password: String,
}

/// The successful outcome of registration or login: a signed session token
/// and the public view of the account.
#[derive(Debug)]
pub struct AuthResponse {
    pub token: String,
    pub user: AuthUserResponse,
}

/// The public view of an account; it excludes the password hash.
#[derive(Debug)]
pub struct AuthUserResponse {
    pub id: u128,
    pub name: String,
    pub email: String,
    pub created_at: u64,
}

/// The session claims carried by a signed token: the account id as subject,
/// its email, and the issue and expiry instants in unix seconds.
#[derive(Debug)]
pub struct Claims {
    pub sub: u128,
    pub email: String,
    pub exp: u64,
    pub iat: u64,
}

impl Clone for Claims {
    fn clone(&self) -> (res: Self)
        ensures
            res == *self,
    {
        Claims { sub: self.sub, email: self.email.clone(), exp: self.exp, iat: self.iat }
    }
}

/// Clones an optional string, preserving its value.
fn clone_opt_string(o: &Option<String>) -> (r: Option<String>)
    ensures
        r == *o,
{
    match o {
        Option::None => Option::None,
        Option::Some(s) => Option::Some(s.clone()),
    }
}

impl Clone for Address {
    fn clone(&self) -> (res: Self)
        ensures
            res == *self,
    {
        Address {
            id: self.id,
            user_id: self.user_id,
            street: self.street.clone(),
            suite: clone_opt_string(&self.suite),
            city: self.city.clone(),
            zipcode: self.zipcode.clone(),
            geo: self.geo,
        }
    }
}

impl Clone for Company {
    fn clone(&self) -> (res: Self)
        ensures
            res == *self,
    {
        Company {
            id: self.id,
            user_id: self.user_id,
            name: self.name.clone(),
            catch_phrase: clone_opt_string(&self.catch_phrase),
            bs: clone_opt_string(&self.bs),
        }
    }
}

impl Clone for UserRecord {
    fn clone(&self) -> (res: Self)
        ensures
            res == *self,
    {
        UserRecord {
            id: self.id,
            name: self.name.clone(),
            username: self.username.clone(),
            email: self.email.clone(),
            phone: clone_opt_string(&self.phone),
            website: clone_opt_string(&self.website),
            created_at: self.created_at,
            updated_at: self.updated_at,
        }
    }
}

impl Clone for AuthUser {
    fn clone(&self) -> (res: Self)
        ensures
            res == *self,
    {
        AuthUser {
            id: self.id,
            name: self.name.clone(),
            email: self.email.clone(),
            password_hash: self.password_hash.clone(),
            created_at: self.created_at,
            updated_at: self.updated_at,
        }
    }
}

// Shape validation, mirroring the bounds the external interface states:
// names 1 to 100 characters, usernames 1 to 50, passwords 6 to 100, streets
// 1 to 100, cities 1 to 50, zipcodes 1 to 20, company names 1 to 100, and
// coordinates inside the geographic ranges.  Emails are only required to be
// non-empty here; their full format is the HTTP layer's concern.

pub open spec fn spec_valid_geo_request(g: CreateGeoRequest) -> bool {
    valid_geo(g.lat, g.lng)
}

pub open spec fn spec_valid_address_request(a: CreateAddressRequest) -> bool {
    &&& 1 <= a.street@.len() <= 100
    &&& 1 <= a.city@.len() <= 50
    &&& 1 <= a.zipcode@.len() <= 20
    &&& (a.geo matches Some(g) ==> spec_valid_geo_request(g))
}

pub open spec fn spec_valid_company_request(c: CreateCompanyRequest) -> bool {
    1 <= c.name@.len() <= 100
}

pub open spec fn spec_valid_create_user_request(r: CreateUserRequest) -> bool {
    &&& 1 <= r.name@.len() <= 100
    &&& 1 <= r.username@.len() <= 50
    &&& 1 <= r.email@.len()
    &&& (r.address matches Some(a) ==> spec_valid_address_request(a))
    &&& (r.company matches Some(c) ==> spec_valid_company_request(c))
}

pub open spec fn spec_valid_update_user_request(r: UpdateUserRequest) -> bool {
    &&& (r.name matches Some(n) ==> 1 <= n@.len() <= 100)
    &&& (r.username matches Some(u) ==> 1 <= u@.len() <= 50)
    &&& (r.email matches Some(e) ==> 1 <= e@.len())
    &&& (r.address matches Some(a) ==> spec_valid_address_request(a))
    &&& (r.company matches Some(c) ==> spec_valid_company_request(c))
}

pub open spec fn spec_valid_register_request(r: RegisterRequest) -> bool {
    &&& 1 <= r.name@.len() <= 100
    &&& 1 <= r.email@.len()
    &&& 6 <= r.password@.len() <= 100
}

pub open spec fn spec_valid_login_request(r: LoginRequest) -> bool {
    &&& 1 <= r.email@.len()
    &&& 1 <= r.password@.len()
}

fn check_len_range(s: &str, lo: usize, hi: usize) -> (r: bool)
    ensures
        r == (lo <= s@.len() <= hi),
{
    let n = s.unicode_len();
    lo <= n && n <= hi
}

impl CreateGeoRequest {
    pub fn validate(&self) -> (r: Result<(), ServiceError>)
        ensures
            r is Ok <==> spec_valid_geo_request(*self),
            r is Err ==> r == Err::<(), ServiceError>(ServiceError::ValidationFailed),
    {
        if -90_000_000 <= self.lat && self.lat <= 90_000_000 && -180_000_000 <= self.lng
            && self.lng <= 180_000_000 {
            Ok(())
        } else {
            Err(ServiceError::ValidationFailed)
        }
    }
}

impl CreateAddressRequest {
    pub fn validate(&self) -> (r: Result<(), ServiceError>)
        ensures
            r is Ok <==> spec_valid_address_request(*self),
            r is Err ==> r == Err::<(), ServiceError>(ServiceError::ValidationFailed),
    {
        if !check_len_range(self.street.as_str(), 1, 100) {
            return Err(ServiceError::ValidationFailed);
        }
        if !check_len_range(self.city.as_str(), 1, 50) {
            return Err(ServiceError::ValidationFailed);
        }
        if !check_len_range(self.zipcode.as_str(), 1, 20) {
            return Err(ServiceError::ValidationFailed);
        }
        match &self.geo {
            Option::None => Ok(()),
            Option::Some(g) => g.validate(),
        }
    }
}

impl CreateCompanyRequest {
    pub fn validate(&self) -> (r: Result<(), ServiceError>)
        ensures
            r is Ok <==> spec_valid_company_request(*self),
            r is Err ==> r == Err::<(), ServiceError>(ServiceError::ValidationFailed),
    {
        if check_len_range(self.name.as_str(), 1, 100) {
            Ok(())
        } else {
            Err(ServiceError::ValidationFailed)
        }
    }
}

impl CreateUserRequest {
    pub fn validate(&self) -> (r: Result<(), ServiceError>)
        ensures
            r is Ok <==> spec_valid_create_user_request(*self),
            r is Err ==> r == Err::<(), ServiceError>(ServiceError::ValidationFailed),
    {
        if !check_len_range(self.name.as_str(), 1, 100) {
            return Err(ServiceError::ValidationFailed);
        }
        if !check_len_range(self.username.as_str(), 1, 50) {
            return Err(ServiceError::ValidationFailed);
        }
        if self.email.as_str().unicode_len() == 0 {
            return Err(ServiceError::ValidationFailed);
        }
        if let Option::Some(a) = &self.address {
            if let Err(e) = a.validate() {
                return Err(e);
            }
        }
        match &self.company {
            Option::None => Ok(()),
            Option::Some(c) => c.validate(),
        }
    }
}

impl UpdateUserRequest {
    pub fn validate(&self) -> (r: Result<(), ServiceError>)
        ensures
            r is Ok <==> spec_valid_update_user_request(*self),
            r is Err ==> r == Err::<(), ServiceError>(ServiceError::ValidationFailed),
    {
        if let Option::Some(n) = &self.name {
            if !check_len_range(n.as_str(), 1, 100) {
                return Err(ServiceError::ValidationFailed);
            }
        }
        if let Option::Some(u) = &self.username {
            if !check_len_range(u.as_str(), 1, 50) {
                return Err(ServiceError::ValidationFailed);
            }
        }
        if let Option::Some(e) = &self.email {
            if e.as_str().unicode_len() == 0 {
                return Err(ServiceError::ValidationFailed);
            }
        }
        if let Option::Some(a) = &self.address {
            if let Err(e) = a.validate() {
                return Err(e);
            }
        }
        match &self.company {
            Option::None => Ok(()),
            Option::Some(c) => c.validate(),
        }
    }
}

impl RegisterRequest {
    pub fn validate(&self) -> (r: Result<(), ServiceError>)
        ensures
            r is Ok <==> spec_valid_register_request(*self),
            r is Err ==> r == Err::<(), ServiceError>(ServiceError::ValidationFailed),
    {
        if !check_len_range(self.name.as_str(), 1, 100) {
            return Err(ServiceError::ValidationFailed);
        }
        if self.email.as_str().unicode_len() == 0 {
            return Err(ServiceError::ValidationFailed);
        }
        if check_len_range(self.password.as_str(), 6, 100) {
            Ok(())
        } else {
            Err(ServiceError::ValidationFailed)
        }
    }
}

impl LoginRequest {
    pub fn validate(&self) -> (r: Result<(), ServiceError>)
        ensures
            r is Ok <==> spec_valid_login_request(*self),
            r is Err ==> r == Err::<(), ServiceError>(ServiceError::ValidationFailed),
    {
        if self.email.as_str().unicode_len() == 0 {
            return Err(ServiceError::ValidationFailed);
        }
        if self.password.as_str().unicode_len() == 0 {
            return Err(ServiceError::ValidationFailed);
        }
        Ok(())
    }
}

} // verus!
