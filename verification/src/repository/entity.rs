use vstd::prelude::*;

verus! {

/// The type-level contract of a persisted entity: its identifier type, its
/// full record type, and the creation payload a caller may supply.
///
/// The payload type never carries an identifier or a store-assigned field;
/// those are assigned by the store alone when a record is inserted.
pub trait Entity {
    type Id;

    type Item;

    type ItemDto;
}

} // verus!
