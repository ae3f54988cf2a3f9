//! The mathematical picture of products and of the table that stores them.

use vstd::prelude::*;

verus! {

/// A product as a mathematical value.
pub struct ProductModel {
    pub id: nat,
    pub name: Seq<char>,
    pub price: nat,
    pub description: Seq<char>,
    pub quantity: nat,
}

impl ProductModel {
    /// Whether `requested` units can be sold from this product.
    pub open spec fn can_sell(self, requested: nat) -> bool {
        requested <= self.quantity
    }

    /// This product after `requested` units have left its stock.
    pub open spec fn sold(self, requested: nat) -> ProductModel
        recommends
            self.can_sell(requested),
    {
        ProductModel { quantity: (self.quantity - requested) as nat, ..self }
    }

    /// This product under another id.
    pub open spec fn with_id(self, id: nat) -> ProductModel {
        ProductModel { id, ..self }
    }
}

/// A row of the product table as a mathematical value: a product together
/// with the two timestamps that the table keeps for it.
pub struct RowModel {
    pub id: nat,
    pub name: Seq<char>,
    pub price: nat,
    pub description: Seq<char>,
    pub quantity: nat,
    pub created_at: Seq<char>,
    pub updated_at: Seq<char>,
}

impl RowModel {
    /// The product that this row stores.
    pub open spec fn product(self) -> ProductModel {
        ProductModel {
            id: self.id,
            name: self.name,
            price: self.price,
            description: self.description,
            quantity: self.quantity,
        }
    }

    /// A row written for the first time under the id `id`, with the two
    /// timestamps it is given.
    pub open spec fn created(
        id: nat,
        product: ProductModel,
        created_at: Seq<char>,
        updated_at: Seq<char>,
    ) -> RowModel {
        RowModel {
            id,
            name: product.name,
            price: product.price,
            description: product.description,
            quantity: product.quantity,
            created_at,
            updated_at,
        }
    }

    /// This row after its product columns have been overwritten at the time
    /// `now`: it keeps its id and the time of its creation.
    pub open spec fn rewritten(self, product: ProductModel, now: Seq<char>) -> RowModel {
        RowModel {
            id: self.id,
            name: product.name,
            price: product.price,
            description: product.description,
            quantity: product.quantity,
            created_at: self.created_at,
            updated_at: now,
        }
    }
}

/// The product table as a mathematical value: its rows in the order in which
/// the table yields them, and the last id that it has handed out.
pub struct TableModel {
    pub rows: Seq<RowModel>,
    pub last_id: nat,
}

impl TableModel {
    /// The table before anything was stored in it.
    pub open spec fn empty() -> TableModel {
        TableModel { rows: Seq::empty(), last_id: 0 }
    }

    /// Ids are positive, no larger than the last one handed out, and no two
    /// rows share one.
    pub open spec fn well_formed(self) -> bool {
        &&& self.last_id <= u32::MAX
        &&& forall|i: int|
            0 <= i < self.rows.len() ==> 1 <= (#[trigger] self.rows[i]).id <= self.last_id
        &&& forall|i: int, j: int|
            0 <= i < j < self.rows.len() ==> (#[trigger] self.rows[i]).id != (
            #[trigger] self.rows[j]).id
    }

    /// Whether a row with the id `id` is stored.
    pub open spec fn holds(self, id: nat) -> bool {
        exists|i: int| 0 <= i < self.rows.len() && (#[trigger] self.rows[i]).id == id
    }

    /// Where the row with the id `id` stands.
    pub open spec fn position(self, id: nat) -> int
        recommends
            self.holds(id),
    {
        choose|i: int| 0 <= i < self.rows.len() && (#[trigger] self.rows[i]).id == id
    }

    /// The row with the id `id`.
    pub open spec fn row(self, id: nat) -> RowModel
        recommends
            self.holds(id),
    {
        self.rows[self.position(id)]
    }

    /// The row with the id `id`, if one is stored.
    pub open spec fn find(self, id: nat) -> Option<RowModel> {
        if self.holds(id) {
            Some(self.row(id))
        } else {
            None
        }
    }

    /// The stored products, in the order of their rows.
    pub open spec fn products(self) -> Seq<ProductModel> {
        Seq::new(self.rows.len(), |i: int| self.rows[i].product())
    }

    /// Whether the table still has an id to hand out.
    pub open spec fn has_room(self) -> bool {
        self.last_id < u32::MAX
    }

    /// The table after the row with the id of `product` has been overwritten
    /// with the columns of `product` at the time `now`. A table without such
    /// a row stays as it is.
    pub open spec fn updated(self, product: ProductModel, now: Seq<char>) -> TableModel {
        if self.holds(product.id) {
            TableModel {
                rows: self.rows.update(
                    self.position(product.id),
                    self.row(product.id).rewritten(product, now),
                ),
                last_id: self.last_id,
            }
        } else {
            self
        }
    }

    /// The table after `product` has been appended under the next id with
    /// the two timestamps; the id that `product` carries is not used.
    pub open spec fn inserted(
        self,
        product: ProductModel,
        created_at: Seq<char>,
        updated_at: Seq<char>,
    ) -> TableModel {
        TableModel {
            rows: self.rows.push(
                RowModel::created(self.last_id + 1, product, created_at, updated_at),
            ),
            last_id: self.last_id + 1,
        }
    }

    /// The table after `product` has been saved at the time `now`: written
    /// over the row with its id where there is one, appended under a new id
    /// where there is none.
    pub open spec fn saved(self, product: ProductModel, now: Seq<char>) -> TableModel {
        if self.holds(product.id) {
            self.updated(product, now)
        } else {
            self.inserted(product, now, now)
        }
    }

    /// The product that `saved` stores for `product`: itself, or itself
    /// under the new id.
    pub open spec fn saved_product(self, product: ProductModel) -> ProductModel {
        if self.holds(product.id) {
            product
        } else {
            product.with_id(self.last_id + 1)
        }
    }

    /// The stock of the product with the id `id`.
    pub open spec fn stock(self, id: nat) -> nat
        recommends
            self.holds(id),
    {
        self.row(id).quantity
    }

    /// Whether a request for `requested` units of the product with the id
    /// `id` is served: the product is stored and has that many units.
    pub open spec fn serves(self, id: nat, requested: nat) -> bool {
        self.holds(id) && requested <= self.stock(id)
    }

    /// The table after `requested` units of the product with the id `id`
    /// have been sold at the time `now`.
    pub open spec fn purchased(self, id: nat, requested: nat, now: Seq<char>) -> TableModel
        recommends
            self.serves(id, requested),
    {
        self.updated(self.row(id).product().sold(requested), now)
    }

    /// The table after a request for `requested` units of the product with
    /// the id `id` has been answered at the time `now`: after the sale where
    /// the request is served, as it was where it is refused.
    pub open spec fn after_request(self, id: nat, requested: nat, now: Seq<char>) -> TableModel {
        if self.serves(id, requested) {
            self.purchased(id, requested, now)
        } else {
            self
        }
    }
}

/// In a well-formed table a row is found where it stands.
pub proof fn lemma_position_of_row(table: TableModel, i: int)
    requires
        table.well_formed(),
        0 <= i < table.rows.len(),
    ensures
        table.holds(table.rows[i].id),
        table.position(table.rows[i].id) == i,
        table.row(table.rows[i].id) == table.rows[i],
{
    let id = table.rows[i].id;
    let j = table.position(id);
    assert(0 <= j < table.rows.len() && table.rows[j].id == id);
    if j < i {
        assert(table.rows[j].id != table.rows[i].id);
    } else if i < j {
        assert(table.rows[i].id != table.rows[j].id);
    }
}

/// A row that is stored stands at its position, within the table.
pub proof fn lemma_row_of_position(table: TableModel, id: nat)
    requires
        table.holds(id),
    ensures
        0 <= table.position(id) < table.rows.len(),
        table.row(id).id == id,
{
}

/// No row carries an id beyond the last one handed out.
pub proof fn lemma_next_id_is_new(table: TableModel)
    requires
        table.well_formed(),
    ensures
        !table.holds(table.last_id + 1),
        !table.holds(0),
{
    if table.holds(table.last_id + 1) {
        let i = table.position(table.last_id + 1);
        assert(table.rows[i].id <= table.last_id);
    }
    if table.holds(0) {
        let i = table.position(0);
        assert(table.rows[i].id >= 1);
    }
}

/// Overwriting a row keeps the table well formed, keeps every id where it
/// stands, and touches no other row.
pub proof fn lemma_updated(table: TableModel, product: ProductModel, now: Seq<char>)
    requires
        table.well_formed(),
    ensures
        table.updated(product, now).well_formed(),
        table.updated(product, now).rows.len() == table.rows.len(),
        table.updated(product, now).last_id == table.last_id,
        forall|id: nat| table.updated(product, now).holds(id) == table.holds(id),
        forall|id: nat| #[trigger]
            table.holds(id) ==> table.updated(product, now).position(id) == table.position(id),
        forall|id: nat|
            table.holds(id) && id != product.id ==> #[trigger] table.updated(product, now).row(id)
                == table.row(id),
        table.holds(product.id) ==> table.updated(product, now).row(product.id) == table.row(
            product.id,
        ).rewritten(product, now),
{
    let after = table.updated(product, now);
    if table.holds(product.id) {
        let p = table.position(product.id);
        assert forall|i: int| 0 <= i < after.rows.len() implies (#[trigger] after.rows[i]).id
            == table.rows[i].id by {}
        assert(after.well_formed()) by {
            assert forall|i: int, j: int| 0 <= i < j < after.rows.len() implies (
            #[trigger] after.rows[i]).id != (#[trigger] after.rows[j]).id by {
                assert(table.rows[i].id != table.rows[j].id);
            }
            assert forall|i: int| 0 <= i < after.rows.len() implies 1 <= (
            #[trigger] after.rows[i]).id <= after.last_id by {
                assert(1 <= table.rows[i].id <= table.last_id);
            }
        }
        assert forall|id: nat| after.holds(id) == table.holds(id) by {
            if table.holds(id) {
                let i = table.position(id);
                assert(after.rows[i].id == id);
            }
            if after.holds(id) {
                let i = after.position(id);
                assert(table.rows[i].id == id);
            }
        }
        assert forall|id: nat| #[trigger] table.holds(id) implies after.position(id)
            == table.position(id) by {
            let i = table.position(id);
            assert(after.rows[i].id == id);
            lemma_position_of_row(after, i);
        }
    }
}

/// Appending a product keeps the table well formed, stores it under the next
/// id at the end, and touches no other row.
pub proof fn lemma_inserted(
    table: TableModel,
    product: ProductModel,
    created_at: Seq<char>,
    updated_at: Seq<char>,
)
    requires
        table.well_formed(),
        table.has_room(),
    ensures
        table.inserted(product, created_at, updated_at).well_formed(),
        !table.holds(table.last_id + 1),
        forall|id: nat|
            table.inserted(product, created_at, updated_at).holds(id) == (table.holds(id) || id
                == table.last_id + 1),
        forall|id: nat| #[trigger]
            table.holds(id) ==> table.inserted(product, created_at, updated_at).row(id)
                == table.row(id),
        table.inserted(product, created_at, updated_at).row(table.last_id + 1)
            == RowModel::created(table.last_id + 1, product, created_at, updated_at),
{
    let after = table.inserted(product, created_at, updated_at);
    let n = table.rows.len() as int;
    lemma_next_id_is_new(table);
    assert forall|i: int| 0 <= i < n implies (#[trigger] after.rows[i]) == table.rows[i] by {}
    assert(after.rows[n] == RowModel::created(table.last_id + 1, product, created_at, updated_at));
    assert(after.well_formed()) by {
        assert forall|i: int| 0 <= i < after.rows.len() implies 1 <= (
        #[trigger] after.rows[i]).id <= after.last_id by {
            if i < n {
                assert(1 <= table.rows[i].id <= table.last_id);
            }
        }
        assert forall|i: int, j: int| 0 <= i < j < after.rows.len() implies (
        #[trigger] after.rows[i]).id != (#[trigger] after.rows[j]).id by {
            if j < n {
                assert(table.rows[i].id != table.rows[j].id);
            } else {
                assert(table.rows[i].id <= table.last_id);
            }
        }
    }
    assert forall|id: nat| after.holds(id) == (table.holds(id) || id == table.last_id + 1) by {
        if table.holds(id) {
            let i = table.position(id);
            assert(after.rows[i].id == id);
        }
        if id == table.last_id + 1 {
            assert(after.rows[n].id == id);
        }
        if after.holds(id) {
            let i = after.position(id);
            if i < n {
                assert(table.rows[i].id == id);
            }
        }
    }
    assert forall|id: nat| #[trigger] table.holds(id) implies after.row(id) == table.row(id) by {
        let i = table.position(id);
        assert(after.rows[i].id == id);
        lemma_position_of_row(after, i);
    }
    lemma_position_of_row(after, n);
}

/// Saving a product whose id the table does not hold, while the table has an
/// id left to hand out, adds exactly one row: it stores the product under a
/// new id, positive and one that no row has had before, with the time of its
/// creation and of its last write both set to `now`, and leaves every other
/// row as it was. A table that has handed out the largest id a `u32` holds
/// has none left, and a save of a new product fails on it.
pub proof fn lemma_save_of_new_product(table: TableModel, product: ProductModel, now: Seq<char>)
    requires
        table.well_formed(),
        !table.holds(product.id),
        table.has_room(),
    ensures
        table.saved(product, now).well_formed(),
        table.saved(product, now).last_id == table.last_id + 1,
        table.saved_product(product) == product.with_id(table.last_id + 1),
        table.saved_product(product).id >= 1,
        !table.holds(table.last_id + 1),
        table.saved(product, now).holds(table.last_id + 1),
        forall|id: nat|
            table.saved(product, now).holds(id) == (table.holds(id) || id == table.last_id + 1),
        table.saved(product, now).row(table.last_id + 1).product() == table.saved_product(
            product,
        ),
        table.saved(product, now).row(table.last_id + 1).created_at == now,
        table.saved(product, now).row(table.last_id + 1).updated_at == now,
        table.saved(product, now).rows.len() == table.rows.len() + 1,
        forall|id: nat| #[trigger]
            table.holds(id) ==> table.saved(product, now).holds(id) && table.saved(
                product,
                now,
            ).row(id) == table.row(id),
{
    lemma_inserted(table, product, now, now);
}

/// Saving a product whose id the table holds writes it over the row with
/// that id where the row stands: the time of the last write becomes `now`,
/// the time of creation stays, and so do every other row and every id.
pub proof fn lemma_save_of_stored_product(table: TableModel, product: ProductModel, now: Seq<char>)
    requires
        table.well_formed(),
        table.holds(product.id),
    ensures
        table.saved(product, now).well_formed(),
        table.saved_product(product) == product,
        table.saved(product, now).last_id == table.last_id,
        table.saved(product, now).rows.len() == table.rows.len(),
        forall|id: nat| table.saved(product, now).holds(id) == table.holds(id),
        table.saved(product, now).position(product.id) == table.position(product.id),
        table.saved(product, now).row(product.id).product() == product,
        table.saved(product, now).row(product.id).created_at == table.row(product.id).created_at,
        table.saved(product, now).row(product.id).updated_at == now,
        forall|id: nat|
            table.holds(id) && id != product.id ==> #[trigger] table.saved(product, now).row(id)
                == table.row(id),
{
    lemma_updated(table, product, now);
    lemma_row_of_position(table, product.id);
}

} // verus!
