//! The three operations that the transport serves.

use vstd::prelude::*;
use crate::application::buy_product_usecase::refusal;
use crate::application::commands::BuyProductCommand;
use crate::application::repositories::ProductRepository;
use crate::di::Container;
use crate::error::{is_unavailable, Error};
use crate::presentation::dto::{BuyProductDto, ProductDto};

verus! {

/// Serves a request to buy units of the product with the id `id`: nothing
/// comes back where the sale went through, the reason where it did not.
pub fn buy_product<R: ProductRepository>(
    container: &mut Container<R>,
    id: u32,
    dto: BuyProductDto,
) -> (outcome: Result<(), Error>)
    ensures
        old(container).product_repository.table().well_formed(),
        final(container).product_repository.table().well_formed(),
        final(container).product_repository.available() == old(
            container,
        ).product_repository.available(),
        outcome is Ok <==> old(container).product_repository.available() && old(
            container,
        ).product_repository.table().serves(id as nat, dto.quantity as nat),
        outcome is Ok ==> exists|now: Seq<char>|
            final(container).product_repository.table() == #[trigger] old(
                container,
            ).product_repository.table().purchased(id as nat, dto.quantity as nat, now),
        outcome is Err ==> final(container).product_repository.table() == old(
            container,
        ).product_repository.table(),
        outcome is Err && old(container).product_repository.available() ==> outcome->Err_0
            == refusal(old(container).product_repository.table(), id as nat),
        !old(container).product_repository.available() ==> is_unavailable(outcome),
{
    let mut buy_product_usecase = container.create_buy_product_usecase();
    let command = BuyProductCommand::from(dto);
    buy_product_usecase.buy(id, command)
}

/// Serves a request for every product.
pub fn get_all_products<R: ProductRepository>(container: &Container<R>) -> (outcome: Result<
    Vec<ProductDto>,
    Error,
>)
    ensures
        container.product_repository.table().well_formed(),
        container.product_repository.available() ==> outcome is Ok && outcome->Ok_0.deep_view()
            == container.product_repository.table().products(),
        !container.product_repository.available() ==> is_unavailable(outcome),
{
    let get_all_products_usecase = container.create_get_all_products_usecase();
    let products = match get_all_products_usecase.get_all() {
        Ok(products) => products,
        Err(error) => {
            return Err(error);
        },
    };
    let mut dtos: Vec<ProductDto> = Vec::new();
    let mut at: usize = 0;
    while at < products.len()
        invariant
            at <= products.len(),
            dtos.len() == at,
            forall|i: int| 0 <= i < at ==> (#[trigger] dtos[i])@ == products[i]@,
        decreases products.len() - at,
    {
        dtos.push(ProductDto::from(products[at].clone()));
        at += 1;
    }
    assert(dtos.deep_view() =~= products.deep_view());
    Ok(dtos)
}

/// Serves a request for the product with the id `id`.
pub fn get_product<R: ProductRepository>(container: &Container<R>, id: u32) -> (outcome: Result<
    ProductDto,
    Error,
>)
    ensures
        container.product_repository.table().well_formed(),
        container.product_repository.available() && container.product_repository.table().holds(
            id as nat,
        ) ==> outcome is Ok && outcome->Ok_0@ == container.product_repository.table().row(
            id as nat,
        ).product(),
        container.product_repository.available() && !container.product_repository.table().holds(
            id as nat,
        ) ==> outcome == Err::<ProductDto, Error>(Error::NotFound),
        !container.product_repository.available() ==> is_unavailable(outcome),
{
    let get_product_usecase = container.create_get_product_usecase();
    match get_product_usecase.get_by_id(id) {
        Ok(product) => Ok(ProductDto::from(product)),
        Err(error) => Err(error),
    }
}

} // verus!
