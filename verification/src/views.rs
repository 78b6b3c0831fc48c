//! The decision halves of the record-store endpoints: given what the store
//! reported, decide the status, the body, and the error of the response.
//! The store accesses themselves happen outside; these functions fix
//! everything the endpoints answer, for every outcome of those accesses.

use vstd::prelude::*;
use vstd::string::StringExecFns;

use crate::errors::CustomError;
use crate::models::NewProfile;
use crate::models::Profile;

verus! {

/// Status code of a response that carries a freshly created record.
pub const STATUS_CREATED: u16 = 201;

/// Status code of a plain successful response.
pub const STATUS_OK: u16 = 200;

/// Answer a single-record lookup: the record when the store found one, and
/// `TaskNotFound` exactly when it did not.
pub fn profile_response(found: Option<Profile>) -> (r: Result<Profile, CustomError>)
    ensures
        match found {
            Some(p) => r matches Ok(q) && q.same_record(p),
            None => r matches Err(e) && e == CustomError::TaskNotFound,
        },
{
    match found {
        Some(p) => Ok(p),
        None => Err(CustomError::TaskNotFound),
    }
}

/// Answer a record creation: echo the submitted record with status 201
/// when the store accepted the insert, and `InternalServerError` exactly
/// when it did not.
pub fn post_profile_response(inserted: bool, data: NewProfile) -> (r: Result<
    (u16, NewProfile),
    CustomError,
>)
    ensures
        inserted ==> (r matches Ok((s, d)) && s == STATUS_CREATED && d.id == data.id
            && d.eid@ == data.eid@ && d.ename@ == data.ename@ && d.eemail@ == data.eemail@
            && d.econtact@ == data.econtact@),
        !inserted ==> (r matches Err(e) && e == CustomError::InternalServerError),
{
    if inserted {
        Ok((STATUS_CREATED, data))
    } else {
        Err(CustomError::InternalServerError)
    }
}

/// Answer a record update: `TaskNotFound` when the record to update does
/// not exist, `InternalServerError` when it exists but the update failed,
/// and the new record with status 200 otherwise.
pub fn update_profile_response(found: bool, updated: bool, data: NewProfile) -> (r: Result<
    (u16, NewProfile),
    CustomError,
>)
    ensures
        !found ==> (r matches Err(e) && e == CustomError::TaskNotFound),
        found && !updated ==> (r matches Err(e) && e == CustomError::InternalServerError),
        found && updated ==> (r matches Ok((s, d)) && s == STATUS_OK && d.id == data.id
            && d.eid@ == data.eid@ && d.ename@ == data.ename@ && d.eemail@ == data.eemail@
            && d.econtact@ == data.econtact@),
{
    if !found {
        Err(CustomError::TaskNotFound)
    } else if !updated {
        Err(CustomError::InternalServerError)
    } else {
        Ok((STATUS_OK, data))
    }
}

/// Answer a record deletion: `TaskNotFound` when the record does not exist
/// or the delete failed, and a fixed confirmation body with status 200
/// otherwise.
pub fn delete_profile_response(found: bool, deleted: bool) -> (r: Result<
    (u16, String),
    CustomError,
>)
    ensures
        !found ==> (r matches Err(e) && e == CustomError::TaskNotFound),
        found && !deleted ==> (r matches Err(e) && e == CustomError::TaskNotFound),
        found && deleted ==> (r matches Ok((s, b)) && s == STATUS_OK && b@ == "{\"msg\":\"Profile Deleted\"}"@),
{
    if !found {
        Err(CustomError::TaskNotFound)
    } else if !deleted {
        Err(CustomError::TaskNotFound)
    } else {
        Ok((STATUS_OK, String::from_str("{\"msg\":\"Profile Deleted\"}")))
    }
}

} // verus!
