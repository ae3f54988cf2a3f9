//! The repository that the use cases are written against.

use vstd::prelude::*;
use crate::domain::product::Product;
use crate::error::{is_unavailable, Error};
use crate::model::TableModel;

verus! {

/// Storage for products: read them all, read one by its id, save one.
///
/// A repository stands over a product table, which is either available or
/// not. While the table is not available every operation fails with
/// `Error::StoreUnavailable` and changes nothing. Whatever an operation
/// answers, the table is well formed before and after.
pub trait ProductRepository {
    /// The table behind the repository. A repository that is not verified
    /// need not say what it is.
    open spec fn table(&self) -> TableModel {
        arbitrary()
    }

    /// Whether the table behind the repository can be reached. A repository
    /// that is not verified need not say.
    open spec fn available(&self) -> bool {
        arbitrary()
    }

    /// Every product, in the order of the table.
    fn find_all(&self) -> (outcome: Result<Vec<Product>, Error>)
        ensures
            self.table().well_formed(),
            self.available() ==> outcome is Ok && outcome->Ok_0.deep_view()
                == self.table().products(),
            !self.available() ==> is_unavailable(outcome),
    ;

    /// The product with the id `id`, or `Error::NotFound` where the table has
    /// none.
    fn find_by_id(&self, id: u32) -> (outcome: Result<Product, Error>)
        ensures
            self.table().well_formed(),
            self.available() && self.table().holds(id as nat) ==> outcome is Ok && outcome->Ok_0@
                == self.table().row(id as nat).product(),
            self.available() && !self.table().holds(id as nat) ==> outcome == Err::<
                Product,
                Error,
            >(Error::NotFound),
            !self.available() ==> is_unavailable(outcome),
    ;

    /// Saves `product` at the time that the repository's clock shows, and
    /// returns it as it is stored.
    ///
    /// Where the table has a row with the id of `product`, that row is
    /// overwritten in place: it keeps the time of its creation, and the time
    /// of its last write becomes the present. Where it has none, `product`
    /// is appended under a new id, which the table assigns, with both times
    /// set to the present. A table that is not available, or that has no
    /// id left for a new row, fails the operation and stays as it was.
    fn save(&mut self, product: Product) -> (outcome: Result<Product, Error>)
        ensures
            old(self).table().well_formed(),
            final(self).table().well_formed(),
            final(self).available() == old(self).available(),
            old(self).available() && (old(self).table().holds(product.id as nat) || old(
                self,
            ).table().has_room()) ==> outcome is Ok && outcome->Ok_0@ == old(
                self,
            ).table().saved_product(product@) && exists|now: Seq<char>|
                final(self).table() == #[trigger] old(self).table().saved(product@, now),
            !(old(self).available() && (old(self).table().holds(product.id as nat) || old(
                self,
            ).table().has_room())) ==> is_unavailable(outcome) && final(self).table() == old(
                self,
            ).table(),
    ;
}

} // verus!
