//! Specializations of a profession.

use vstd::prelude::*;

use crate::characters::Profession;
use crate::endpoint::Schema;
use crate::traits::TraitId;

verus! {

/// Identifier of a specialization.
pub type SpecializationId = u16;

/// A specialization line of a profession.
#[derive(Clone, Debug, PartialEq, Eq)]
pub struct Specialization {
    pub id: SpecializationId,
    pub name: String,
    pub profession: Profession,
    pub elite: bool,
    pub icon: String,
    pub background: String,
    pub minor_traits: Vec<TraitId>,
    pub major_traits: Vec<TraitId>,
}

impl Specialization {
    /// The identifier that the record is cached and requested by.
    pub fn id(&self) -> (r: &SpecializationId)
        ensures
            *r == self.id,
    {
        &self.id
    }

    /// How specializations are requested: by id, localized, without
    /// authentication, all at once with `ids=all`.
    pub fn schema() -> (r: Schema)
        ensures
            r.path@ == "v2/specializations"@,
            r.version@ == "2022-07-22T00:00:00.000Z"@,
            !r.authenticated,
            r.locale,
            r.supports_all,
    {
        Schema {
            path: "v2/specializations",
            version: "2022-07-22T00:00:00.000Z",
            authenticated: false,
            locale: true,
            supports_all: true,
        }
    }
}

} // verus!
