//! Buying units of a product.

use vstd::prelude::*;
use crate::application::commands::BuyProductCommand;
use crate::application::repositories::ProductRepository;
use crate::error::{is_unavailable, Error};
use crate::model::{lemma_row_of_position, TableModel};

verus! {

/// Sells units of a product out of the repository it was made with.
///
/// The use case holds the repository exclusively from the moment it reads
/// the product until it has written it back, so no other request can come
/// between the check of the stock and the write.
pub struct BuyProductUseCase<'a, R: ProductRepository> {
    pub product_repository: &'a mut R,
}

impl<'a, R: ProductRepository> BuyProductUseCase<'a, R> {
    /// The use case over `product_repository`.
    pub fn new(product_repository: &'a mut R) -> (usecase: Self)
        ensures
            *usecase.product_repository == *old(product_repository),
            *final(usecase.product_repository) == *final(product_repository),
    {
        Self { product_repository }
    }

    /// Sells `command.quantity` units of the product with the id
    /// `product_id`.
    ///
    /// The product is read, the units are taken from it by `Product::sell`,
    /// and it is saved. A product that is not stored gives
    /// `Error::NotFound`, one with fewer units than asked for gives
    /// `Error::InsufficientStock`, and in both cases, as whenever the table
    /// cannot be reached, the table stays as it was.
    pub fn buy(&mut self, product_id: u32, command: BuyProductCommand) -> (outcome: Result<
        (),
        Error,
    >)
        ensures
            *final(final(self).product_repository) == *final(old(self).product_repository),
            old(self).product_repository.table().well_formed(),
            final(self).product_repository.table().well_formed(),
            final(self).product_repository.available() == old(
                self,
            ).product_repository.available(),
            outcome is Ok <==> old(self).product_repository.available() && old(
                self,
            ).product_repository.table().serves(product_id as nat, command.quantity as nat),
            outcome is Ok ==> exists|now: Seq<char>|
                final(self).product_repository.table() == #[trigger] old(
                    self,
                ).product_repository.table().purchased(
                    product_id as nat,
                    command.quantity as nat,
                    now,
                ),
            outcome is Err ==> final(self).product_repository.table() == old(
                self,
            ).product_repository.table(),
            outcome is Err && old(self).product_repository.available() ==> outcome->Err_0
                == refusal(old(self).product_repository.table(), product_id as nat),
            !old(self).product_repository.available() ==> is_unavailable(outcome),
    {
        let ghost table = self.product_repository.table();
        let mut product = match self.product_repository.find_by_id(product_id) {
            Ok(product) => product,
            Err(error) => {
                return Err(error);
            },
        };
        proof {
            lemma_row_of_position(table, product_id as nat);
        }
        match product.sell(command.quantity) {
            Ok(()) => {},
            Err(error) => {
                return Err(error);
            },
        }
        let ghost sold = product@;
        match self.product_repository.save(product) {
            Ok(_) => {
                proof {
                    let now = choose|now: Seq<char>|
                        self.product_repository.table() == #[trigger] table.saved(sold, now);
                    assert(self.product_repository.table() == table.purchased(
                        product_id as nat,
                        command.quantity as nat,
                        now,
                    ));
                }
                Ok(())
            },
            Err(error) => Err(error),
        }
    }
}

/// Why a request for a product is refused by a table that can be reached:
/// the product is not stored, or else it has too few units.
pub open spec fn refusal(table: TableModel, id: nat) -> Error {
    if table.holds(id) {
        Error::InsufficientStock
    } else {
        Error::NotFound
    }
}

} // verus!
