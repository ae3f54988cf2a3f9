use product_service::application::commands::BuyProductCommand;
use product_service::application::queries::GetProductQuery;
use product_service::application::repositories::ProductRepository;
use product_service::di::{get_container, Container};
use product_service::domain::product::Product;
use product_service::error::Error;
use product_service::infrastructure::in_memory_product_store::InMemoryProductStore;
use product_service::infrastructure::sqlite_product_repository::SqliteProductRepository;
use product_service::presentation::dto::{BuyProductDto, ProductDto};
use product_service::presentation::routes_product::{buy_product, get_all_products, get_product};
use std::sync::{Arc, Mutex};

type Shop = Container<SqliteProductRepository<InMemoryProductStore>>;

fn text(value: &str) -> String {
    String::from(value)
}

fn laptop(quantity: u32) -> ProductDto {
    ProductDto {
        id: 1,
        name: text("Laptop"),
        price: 150000,
        description: text("A fast laptop"),
        quantity,
    }
}

fn shop() -> Shop {
    let mut container = get_container(InMemoryProductStore::new());
    let saved = container
        .product_repository
        .save(Product::new(0, text("Laptop"), 150000, text("A fast laptop"), 10))
        .unwrap();
    assert_eq!(saved.id, 1);
    container
}

#[test]
fn dto_from_query_keeps_every_field() {
    let query = GetProductQuery {
        id: 1,
        name: text("Laptop"),
        price: 150000,
        description: text("A fast laptop"),
        quantity: 10,
    };
    assert_eq!(ProductDto::from(query), laptop(10));
    assert_eq!(laptop(10).clone(), laptop(10));
}

#[test]
fn command_from_dto_keeps_the_quantity() {
    assert_eq!(
        BuyProductCommand::from(BuyProductDto { quantity: 7 }),
        BuyProductCommand { quantity: 7 }
    );
    let command: BuyProductCommand = BuyProductDto { quantity: 0 }.into();
    assert_eq!(command.quantity, 0);
}

#[test]
fn container_lends_its_repository_to_the_use_cases() {
    let mut container = Container::new(SqliteProductRepository::new(InMemoryProductStore::new()));
    container
        .product_repository
        .save(Product::new(0, text("Laptop"), 150000, text("A fast laptop"), 10))
        .unwrap();
    assert_eq!(
        container
            .create_buy_product_usecase()
            .buy(1, BuyProductCommand { quantity: 4 }),
        Ok(())
    );
    let found = container.create_get_product_usecase().get_by_id(1).unwrap();
    assert_eq!(found.quantity, 6);
    let all = container.create_get_all_products_usecase().get_all().unwrap();
    assert_eq!(all.len(), 1);
    assert_eq!(all[0].quantity, 6);
    assert_eq!(
        container.product_repository.find_by_id(1).unwrap().quantity,
        6
    );
}

#[test]
fn seed_then_read_buy_and_list() {
    let mut container = shop();
    assert_eq!(get_product(&container, 1), Ok(laptop(10)));
    assert_eq!(
        buy_product(&mut container, 1, BuyProductDto { quantity: 7 }),
        Ok(())
    );
    assert_eq!(get_product(&container, 1), Ok(laptop(3)));
    assert_eq!(
        buy_product(&mut container, 1, BuyProductDto { quantity: 5 }),
        Err(Error::InsufficientStock)
    );
    assert_eq!(get_product(&container, 1), Ok(laptop(3)));
    assert_eq!(get_all_products(&container), Ok(vec![laptop(3)]));
}

#[test]
fn a_missing_product_is_not_found() {
    let mut container = shop();
    assert_eq!(get_product(&container, 2), Err(Error::NotFound));
    assert_eq!(
        buy_product(&mut container, 2, BuyProductDto { quantity: 1 }),
        Err(Error::NotFound)
    );
    assert_eq!(get_all_products(&container), Ok(vec![laptop(10)]));
}

#[test]
fn an_empty_shop_lists_nothing() {
    let container = get_container(InMemoryProductStore::new());
    assert_eq!(get_all_products(&container), Ok(Vec::new()));
}

#[test]
fn an_unreachable_table_fails_every_operation() {
    let mut container = shop();
    container.product_repository.store.set_available(false);
    let failure = Error::StoreUnavailable(None);
    assert_eq!(get_product(&container, 1), Err(failure.clone()));
    assert_eq!(get_all_products(&container), Err(failure.clone()));
    assert_eq!(
        buy_product(&mut container, 1, BuyProductDto { quantity: 1 }),
        Err(failure.clone())
    );
    assert_eq!(failure.status_code(), 500);
    container.product_repository.store.set_available(true);
    assert_eq!(get_product(&container, 1), Ok(laptop(10)));
}

#[test]
fn fifteen_concurrent_requests_for_one_of_ten_units() {
    let shared = Arc::new(Mutex::new(shop()));
    let runtime = tokio::runtime::Builder::new_multi_thread()
        .worker_threads(4)
        .build()
        .unwrap();
    let mut requests = Vec::new();
    for _ in 0..15 {
        let shared = Arc::clone(&shared);
        requests.push(runtime.spawn_blocking(move || {
            let mut container = shared.lock().unwrap();
            buy_product(&mut container, 1, BuyProductDto { quantity: 1 })
        }));
    }
    let mut served = 0;
    let mut refused = 0;
    for request in requests {
        match runtime.block_on(request).unwrap() {
            Ok(()) => served += 1,
            Err(Error::InsufficientStock) => refused += 1,
            Err(other) => panic!("unexpected failure: {:?}", other),
        }
    }
    assert_eq!(served, 10);
    assert_eq!(refused, 5);
    let container = shared.lock().unwrap();
    assert_eq!(get_product(&container, 1), Ok(laptop(0)));
}
