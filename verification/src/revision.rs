use vstd::prelude::*;
use crate::cooking::CookingIngredient;
use crate::messages::copy_vec;

verus! {

/// A change of an ingredient's amount against the recipe.
#[derive(Debug, Clone, Copy, PartialEq, Eq, Structural)]
pub enum CookingRevisionEntityProperty {
    Add(CookingIngredient),
    Sub(CookingIngredient),
}

/// One change, with the entity it is about.
#[derive(Debug, Clone, Copy, PartialEq, Eq, Structural)]
pub struct CookingRevisionEntity {
    pub entity_id: u16,
    pub property: CookingRevisionEntityProperty,
}

impl CookingRevisionEntity {
    pub fn new(entity_id: u16, property: CookingRevisionEntityProperty) -> (r: Self)
        ensures
            r == (CookingRevisionEntity { entity_id, property }),
    {
        CookingRevisionEntity { entity_id, property }
    }
}

/// The changes that measuring found so far, oldest first.
#[derive(Debug, PartialEq)]
pub struct CookingRevision {
    pub entities: Vec<CookingRevisionEntity>,
}

impl View for CookingRevision {
    type V = Seq<CookingRevisionEntity>;

    open spec fn view(&self) -> Seq<CookingRevisionEntity> {
        self.entities@
    }
}

impl CookingRevision {
    pub fn new(entities: Vec<CookingRevisionEntity>) -> (r: Self)
        ensures
            r@ == entities@,
    {
        CookingRevision { entities }
    }
}

impl Clone for CookingRevision {
    fn clone(&self) -> (r: Self)
        ensures
            r@ == self@,
    {
        CookingRevision { entities: copy_vec(&self.entities) }
    }
}

/// The view of an optional revision.
pub open spec fn revision_view(r: Option<CookingRevision>) -> Option<Seq<CookingRevisionEntity>> {
    match r {
        Some(rev) => Some(rev@),
        None => None,
    }
}

} // verus!
