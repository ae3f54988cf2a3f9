use product_service::application::repositories::ProductRepository;
use product_service::domain::product::Product;
use product_service::error::Error;
use product_service::infrastructure::in_memory_product_store::InMemoryProductStore;
use product_service::infrastructure::product_entity::ProductEntity;
use product_service::infrastructure::product_store::ProductStore;
use product_service::infrastructure::sqlite_product_repository::SqliteProductRepository;

fn text(value: &str) -> String {
    String::from(value)
}

fn product(id: u32, name: &str, quantity: u32) -> Product {
    Product::new(id, text(name), 150000, text("A fast laptop"), quantity)
}

fn repository() -> SqliteProductRepository<InMemoryProductStore> {
    SqliteProductRepository::new(InMemoryProductStore::new())
}

/// A table that cannot be reached and says why.
struct BrokenStore;

impl ProductStore for BrokenStore {
    fn select_all(&self) -> Result<Vec<ProductEntity>, Error> {
        Err(Error::StoreUnavailable(Some(text("disk failure"))))
    }

    fn select_by_id(&self, _id: u32) -> Result<Option<ProductEntity>, Error> {
        Err(Error::StoreUnavailable(Some(text("disk failure"))))
    }

    fn update_by_id(
        &mut self,
        _id: u32,
        _name: &String,
        _price: u32,
        _description: &String,
        _quantity: u32,
        _updated_at: &String,
    ) -> Result<u64, Error> {
        Err(Error::StoreUnavailable(Some(text("disk failure"))))
    }

    fn insert(
        &mut self,
        _name: &String,
        _price: u32,
        _description: &String,
        _quantity: u32,
        _created_at: &String,
        _updated_at: &String,
    ) -> Result<u32, Error> {
        Err(Error::StoreUnavailable(Some(text("disk failure"))))
    }
}

#[test]
fn entity_to_domain_keeps_the_product_columns() {
    let entity = ProductEntity {
        id: 4,
        name: text("Headphones"),
        price: 25000,
        description: text("Noise cancelling"),
        quantity: 30,
        created_at: text("2024-01-01T00:00:00+00:00"),
        updated_at: text("2024-02-01T00:00:00+00:00"),
    };
    let product = SqliteProductRepository::<InMemoryProductStore>::entity_to_domain(entity);
    assert_eq!(
        product,
        Product::new(4, text("Headphones"), 25000, text("Noise cancelling"), 30)
    );
}

#[test]
fn find_by_id_of_a_missing_id_is_not_found() {
    let mut repository = repository();
    assert_eq!(repository.find_by_id(1), Err(Error::NotFound));
    repository.save_at(product(0, "Laptop", 10), text("t1")).unwrap();
    assert_eq!(repository.find_by_id(0), Err(Error::NotFound));
    assert_eq!(repository.find_by_id(2), Err(Error::NotFound));
    assert_eq!(repository.find_by_id(u32::MAX), Err(Error::NotFound));
}

#[test]
fn find_by_id_yields_the_stored_product() {
    let mut repository = repository();
    repository.save_at(product(0, "Laptop", 10), text("t1")).unwrap();
    repository.save_at(product(0, "Phone", 20), text("t2")).unwrap();
    assert_eq!(repository.find_by_id(1), Ok(product(1, "Laptop", 10)));
    assert_eq!(repository.find_by_id(2), Ok(product(2, "Phone", 20)));
}

#[test]
fn find_all_of_an_empty_table_is_empty() {
    let repository = repository();
    assert_eq!(repository.find_all(), Ok(Vec::new()));
}

#[test]
fn find_all_yields_every_product() {
    let mut repository = repository();
    repository.save_at(product(0, "Laptop", 10), text("t1")).unwrap();
    repository.save_at(product(0, "Phone", 20), text("t2")).unwrap();
    repository.save_at(product(0, "Headphones", 30), text("t3")).unwrap();
    assert_eq!(
        repository.find_all(),
        Ok(vec![
            product(1, "Laptop", 10),
            product(2, "Phone", 20),
            product(3, "Headphones", 30),
        ])
    );
}

#[test]
fn save_at_of_a_new_product_assigns_the_next_id_and_both_timestamps() {
    let mut repository = repository();
    let saved = repository.save_at(product(77, "Laptop", 10), text("t1"));
    assert_eq!(saved, Ok(product(1, "Laptop", 10)));
    assert_eq!(
        repository.store.select_by_id(1),
        Ok(Some(ProductEntity {
            id: 1,
            name: text("Laptop"),
            price: 150000,
            description: text("A fast laptop"),
            quantity: 10,
            created_at: text("t1"),
            updated_at: text("t1"),
        }))
    );
    assert_eq!(repository.find_by_id(77), Err(Error::NotFound));
    let second = repository.save_at(product(77, "Phone", 5), text("t2"));
    assert_eq!(second, Ok(product(2, "Phone", 5)));
    assert_eq!(repository.store.select_all().unwrap().len(), 2);
}

#[test]
fn save_at_of_a_stored_product_writes_in_place_and_keeps_the_creation_time() {
    let mut repository = repository();
    repository.save_at(product(0, "Laptop", 10), text("t1")).unwrap();
    repository.save_at(product(0, "Phone", 20), text("t2")).unwrap();
    let changed = Product::new(1, text("Notebook"), 140000, text("Lighter"), 9);
    let saved = repository.save_at(changed.clone(), text("t3"));
    assert_eq!(saved, Ok(changed));
    let rows = repository.store.select_all().unwrap();
    assert_eq!(
        rows,
        vec![
            ProductEntity {
                id: 1,
                name: text("Notebook"),
                price: 140000,
                description: text("Lighter"),
                quantity: 9,
                created_at: text("t1"),
                updated_at: text("t3"),
            },
            ProductEntity {
                id: 2,
                name: text("Phone"),
                price: 150000,
                description: text("A fast laptop"),
                quantity: 20,
                created_at: text("t2"),
                updated_at: text("t2"),
            },
        ]
    );
}

#[test]
fn save_stamps_a_new_row_with_the_present_time() {
    let mut repository = repository();
    let before = chrono::Utc::now();
    let saved = repository.save(product(0, "Laptop", 10)).unwrap();
    let after = chrono::Utc::now();
    assert_eq!(saved, product(1, "Laptop", 10));
    let row = repository.store.select_by_id(1).unwrap().unwrap();
    assert_eq!(row.created_at, row.updated_at);
    let stamp = chrono::DateTime::parse_from_rfc3339(&row.created_at).unwrap();
    assert!(before <= stamp);
    assert!(stamp <= after);
}

#[test]
fn save_refreshes_the_time_of_the_last_write_only() {
    let mut repository = repository();
    repository
        .save_at(product(0, "Laptop", 10), text("2001-01-01T00:00:00+00:00"))
        .unwrap();
    let before = chrono::Utc::now();
    let saved = repository.save(product(1, "Laptop", 4)).unwrap();
    assert_eq!(saved, product(1, "Laptop", 4));
    let row = repository.store.select_by_id(1).unwrap().unwrap();
    assert_eq!(row.created_at, "2001-01-01T00:00:00+00:00");
    assert_ne!(row.updated_at, row.created_at);
    let stamp = chrono::DateTime::parse_from_rfc3339(&row.updated_at).unwrap();
    assert!(before <= stamp);
    assert_eq!(row.quantity, 4);
    assert_eq!(repository.store.select_all().unwrap().len(), 1);
}

#[test]
fn a_repository_over_a_store_that_is_switched_off_fails_and_changes_nothing() {
    let mut repository = repository();
    repository.save_at(product(0, "Laptop", 10), text("t1")).unwrap();
    repository.store.set_available(false);
    assert_eq!(repository.find_all(), Err(Error::StoreUnavailable(None)));
    assert_eq!(repository.find_by_id(1), Err(Error::StoreUnavailable(None)));
    assert_eq!(repository.find_by_id(2), Err(Error::StoreUnavailable(None)));
    assert_eq!(
        repository.save_at(product(1, "Laptop", 3), text("t2")),
        Err(Error::StoreUnavailable(None))
    );
    assert_eq!(
        repository.save(product(0, "Phone", 3)),
        Err(Error::StoreUnavailable(None))
    );
    repository.store.set_available(true);
    assert_eq!(repository.find_all(), Ok(vec![product(1, "Laptop", 10)]));
    assert_eq!(
        repository.store.select_by_id(1).unwrap().unwrap().updated_at,
        "t1"
    );
}

#[test]
fn a_repository_hands_on_what_a_broken_store_reports() {
    let mut repository = SqliteProductRepository::new(BrokenStore);
    let failure = Error::StoreUnavailable(Some(text("disk failure")));
    assert_eq!(repository.find_all(), Err(failure.clone()));
    assert_eq!(repository.find_by_id(1), Err(failure.clone()));
    assert_eq!(repository.save(product(1, "Laptop", 3)), Err(failure.clone()));
    assert_eq!(
        repository.save_at(product(1, "Laptop", 3), text("t1")),
        Err(failure)
    );
}

#[test]
fn save_of_a_new_product_fails_once_no_id_is_left() {
    let mut repository =
        SqliteProductRepository::new(InMemoryProductStore::continuing_after(u32::MAX - 1));
    assert_eq!(
        repository.save_at(product(0, "Laptop", 10), text("t1")),
        Ok(product(u32::MAX, "Laptop", 10))
    );
    assert_eq!(
        repository.save_at(product(0, "Phone", 20), text("t2")),
        Err(Error::StoreUnavailable(None))
    );
    assert_eq!(
        repository.save(product(7, "Phone", 20)),
        Err(Error::StoreUnavailable(None))
    );
    assert_eq!(
        repository.find_all(),
        Ok(vec![product(u32::MAX, "Laptop", 10)])
    );
    assert_eq!(
        repository.save_at(product(u32::MAX, "Laptop", 9), text("t3")),
        Ok(product(u32::MAX, "Laptop", 9))
    );
    let row = repository.store.select_by_id(u32::MAX).unwrap().unwrap();
    assert_eq!(row.created_at, "t1");
    assert_eq!(row.updated_at, "t3");
}
