//! The container that wires a repository into the use cases.

use vstd::prelude::*;
use crate::application::buy_product_usecase::BuyProductUseCase;
use crate::application::get_all_products_usecase::GetAllProductsUseCase;
use crate::application::get_product_usecase::GetProductUseCase;
use crate::application::repositories::ProductRepository;
use crate::infrastructure::product_store::ProductStore;
use crate::infrastructure::sqlite_product_repository::SqliteProductRepository;

verus! {

/// Owns the repository and lends it to the use cases it creates.
pub struct Container<R: ProductRepository> {
    /// The repository that every use case of this container works on.
    pub product_repository: R,
}

impl<R: ProductRepository> Container<R> {
    /// A container around `product_repository`.
    pub fn new(product_repository: R) -> (container: Self)
        ensures
            container.product_repository == product_repository,
    {
        Self { product_repository }
    }

    /// A use case that reads one product from this container's repository.
    pub fn create_get_product_usecase(&self) -> (usecase: GetProductUseCase<'_, R>)
        ensures
            *usecase.product_repository == self.product_repository,
    {
        GetProductUseCase::new(&self.product_repository)
    }

    /// A use case that reads every product from this container's repository.
    pub fn create_get_all_products_usecase(&self) -> (usecase: GetAllProductsUseCase<'_, R>)
        ensures
            *usecase.product_repository == self.product_repository,
    {
        GetAllProductsUseCase::new(&self.product_repository)
    }

    /// A use case that sells from this container's repository. It holds the
    /// repository exclusively for as long as it lives, and what it leaves
    /// behind is the repository of this container afterwards.
    pub fn create_buy_product_usecase(&mut self) -> (usecase: BuyProductUseCase<'_, R>)
        ensures
            *usecase.product_repository == old(self).product_repository,
            *final(usecase.product_repository) == final(self).product_repository,
    {
        BuyProductUseCase::new(&mut self.product_repository)
    }
}

/// A container whose repository is the relational one over `store`.
pub fn get_container<S: ProductStore>(store: S) -> (container: Container<
    SqliteProductRepository<S>,
>)
    ensures
        container.product_repository.store == store,
{
    Container::new(SqliteProductRepository::new(store))
}

} // verus!
