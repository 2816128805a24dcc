use vstd::prelude::*;

use crate::repository::entity::Entity;

mod entity;
pub mod sqlite;

verus! {

/// The kinds of failure a repository operation can surface.
///
/// Absence of a record is reported as `NotFound`, never as a sentinel value;
/// every other failure is final for the call that raised it.
#[derive(Clone, Copy, Debug, PartialEq, Eq, Structural)]
pub enum RepoError {
    /// The store could not be opened at the requested location.
    Connection,
    /// The schema could not be created, e.g. because the table already exists.
    Schema,
    /// No record carries the requested identifier.
    NotFound,
    /// Any other store failure: a constraint violation, a row that does not
    /// decode, an input/output fault.
    Storage,
}

/// The common CRUD contract, generic over a connection type `C`, an entity
/// `E`, and an error type `ErrT`.
///
/// Each implementation fixes the meaning of its operations through the spec
/// members: `inv` is the well-formedness every operation preserves, and the
/// `..._post` predicates state, entity by entity, how the store's contents
/// before and after a call relate to the call's result.
pub trait Repository<C, E: Entity, ErrT>: Sized {
    /// Well-formedness of the repository; established by construction and
    /// preserved by every operation.
    spec fn inv(&self) -> bool;

    /// What `save_new_item` asks of the store beyond `inv`, e.g. room left
    /// in the identifier space.
    spec fn save_pre(&self) -> bool;

    /// How the store before and after `save_new_item` relates to its result.
    spec fn save_post(pre: Self, post: Self, dto: &E::ItemDto, r: &Result<E::Id, ErrT>) -> bool;

    /// What `select_item_by_id` returns for each store content.
    spec fn select_post(&self, id: &E::Id, r: &Result<E::Item, ErrT>) -> bool;

    /// How the store before and after `update_item` relates to its result.
    spec fn update_post(pre: Self, post: Self, id: &E::Id, dto: &E::ItemDto, r: &Result<usize, ErrT>) -> bool;

    /// How the store before and after `delete_item_by_id` relates to its
    /// result.
    spec fn delete_post(pre: Self, post: Self, id: &E::Id, r: &Result<usize, ErrT>) -> bool;

    /// Opens or creates a durable store at the given location.
    fn connect_to_db(connection_string: &str) -> (r: Result<C, ErrT>);

    /// Inserts a new record built from `item`; the store assigns the
    /// identifier and every defaulted column.
    fn save_new_item(&mut self, item: &E::ItemDto) -> (r: Result<E::Id, ErrT>)
        requires
            old(self).inv(),
            old(self).save_pre(),
        ensures
            final(self).inv(),
            Self::save_post(*old(self), *final(self), item, &r),
    ;

    /// Fetches the one record carrying `id`; fails with a not-found kind
    /// when no record does.
    fn select_item_by_id(&self, id: &E::Id) -> (r: Result<E::Item, ErrT>)
        requires
            self.inv(),
        ensures
            self.select_post(id, &r),
    ;

    /// Applies the mutable fields of `item` to the record carrying `id`;
    /// returns how many records that was (0 or 1).
    fn update_item(&mut self, id: &E::Id, item: &E::ItemDto) -> (r: Result<usize, ErrT>)
        requires
            old(self).inv(),
        ensures
            final(self).inv(),
            Self::update_post(*old(self), *final(self), id, item, &r),
    ;

    /// Removes the record carrying `id`; returns how many records that was
    /// (0 or 1).
    fn delete_item_by_id(&mut self, id: &E::Id) -> (r: Result<usize, ErrT>)
        requires
            old(self).inv(),
        ensures
            final(self).inv(),
            Self::delete_post(*old(self), *final(self), id, &r),
    ;
}

} // verus!
