//! The product table as the repository sees it: four statements.

use vstd::prelude::*;
use crate::error::{is_unavailable, Error};
use crate::infrastructure::product_entity::{row_of, ProductEntity};
use crate::model::{ProductModel, TableModel};

verus! {

/// The product of the columns that a statement writes, under the id `id`.
pub open spec fn columns(
    id: nat,
    name: Seq<char>,
    price: nat,
    description: Seq<char>,
    quantity: nat,
) -> ProductModel {
    ProductModel { id, name, price, description, quantity }
}

/// A durable table of products with an id that the table assigns on insert.
///
/// A table is either available or not. While it is available every statement
/// is carried out as its contract says; while it is not, every statement
/// fails with `Error::StoreUnavailable` and leaves the table as it was.
/// Whatever a statement answers, the table is well formed before and after.
///
/// A statement is carried out whole or not at all, and whether the table is
/// available does not change under a statement: a table that answers one
/// statement and fails the next is not among those that this trait
/// describes.
pub trait ProductStore {
    /// The rows of the table and the last id that it has handed out. A store
    /// that is not verified need not say what they are.
    open spec fn table(&self) -> TableModel {
        arbitrary()
    }

    /// Whether the table carries out the statements it is given. A store
    /// that is not verified need not say.
    open spec fn available(&self) -> bool {
        arbitrary()
    }

    /// Every row, in the order of the table.
    fn select_all(&self) -> (outcome: Result<Vec<ProductEntity>, Error>)
        ensures
            self.table().well_formed(),
            self.available() ==> outcome is Ok && outcome->Ok_0.deep_view() == self.table().rows,
            !self.available() ==> is_unavailable(outcome),
    ;

    /// The row with the id `id`, if there is one.
    fn select_by_id(&self, id: u32) -> (outcome: Result<Option<ProductEntity>, Error>)
        ensures
            self.table().well_formed(),
            self.available() ==> outcome is Ok && row_of(outcome->Ok_0) == self.table().find(
                id as nat,
            ),
            !self.available() ==> is_unavailable(outcome),
    ;

    /// Overwrites the product columns and the time of the last write in the
    /// row with the id `id`, and returns how many rows it changed: one, or
    /// none where no row has that id.
    fn update_by_id(
        &mut self,
        id: u32,
        name: &String,
        price: u32,
        description: &String,
        quantity: u32,
        updated_at: &String,
    ) -> (outcome: Result<u64, Error>)
        ensures
            old(self).table().well_formed(),
            final(self).table().well_formed(),
            final(self).available() == old(self).available(),
            old(self).available() ==> outcome is Ok && outcome->Ok_0 == (if old(self).table().holds(
                id as nat,
            ) {
                1u64
            } else {
                0u64
            }) && final(self).table() == old(self).table().updated(
                columns(id as nat, name@, price as nat, description@, quantity as nat),
                updated_at@,
            ),
            !old(self).available() ==> is_unavailable(outcome) && final(self).table() == old(
                self,
            ).table(),
    ;

    /// Appends a row with the given columns under the next id, and returns
    /// that id. A table that has handed out its last id is as good as
    /// unavailable to this statement.
    fn insert(
        &mut self,
        name: &String,
        price: u32,
        description: &String,
        quantity: u32,
        created_at: &String,
        updated_at: &String,
    ) -> (outcome: Result<u32, Error>)
        ensures
            old(self).table().well_formed(),
            final(self).table().well_formed(),
            final(self).available() == old(self).available(),
            old(self).available() && old(self).table().has_room() ==> outcome is Ok
                && outcome->Ok_0 == old(self).table().last_id + 1 && final(self).table() == old(
                self,
            ).table().inserted(
                columns(0, name@, price as nat, description@, quantity as nat),
                created_at@,
                updated_at@,
            ),
            !(old(self).available() && old(self).table().has_room()) ==> is_unavailable(outcome)
                && final(self).table() == old(self).table(),
    ;
}

} // verus!
