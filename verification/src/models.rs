//! The records the store endpoints carry: an employee profile as stored,
//! and the shape a client submits when creating or updating one.

use vstd::prelude::*;

verus! {

/// An employee profile as the store returns it.
pub struct Profile {
    pub id: i32,
    pub eid: String,
    pub ename: String,
    pub eemail: String,
    pub econtact: String,
}

/// The payload a client submits to create or update a profile.
pub struct NewProfile {
    pub id: i32,
    pub eid: String,
    pub ename: String,
    pub eemail: String,
    pub econtact: String,
}

impl Profile {
    /// Field-for-field equality of two profiles.
    pub open spec fn same_record(self, other: Profile) -> bool {
        &&& self.id == other.id
        &&& self.eid@ == other.eid@
        &&& self.ename@ == other.ename@
        &&& self.eemail@ == other.eemail@
        &&& self.econtact@ == other.econtact@
    }
}

} // verus!
