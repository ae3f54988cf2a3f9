//! A product table that lives in memory.

use vstd::prelude::*;
use crate::error::Error;
use crate::infrastructure::product_entity::ProductEntity;
use crate::infrastructure::product_store::{columns, ProductStore};
use crate::model::{lemma_inserted, lemma_position_of_row, lemma_updated, TableModel};

verus! {

/// A product table held in a vector, for tests and for programs that need no
/// durable state. It assigns ids as a table with an auto-incremented key
/// does, counting up from 1 and never using an id twice, and it can be
/// switched off to stand for a table that is out of reach.
pub struct InMemoryProductStore {
    rows: Vec<ProductEntity>,
    last_id: u32,
    online: bool,
}

impl InMemoryProductStore {
    /// The rows held and the last id handed out.
    pub closed spec fn contents(&self) -> TableModel {
        TableModel { rows: self.rows.deep_view(), last_id: self.last_id as nat }
    }

    #[verifier::type_invariant]
    spec fn well_formed(&self) -> bool {
        self.contents().well_formed()
    }

    /// An empty table that is available.
    pub fn new() -> (store: Self)
        ensures
            store.table() == TableModel::empty(),
            store.available(),
    {
        let store = InMemoryProductStore { rows: Vec::new(), last_id: 0, online: true };
        assert(store.contents().rows =~= TableModel::empty().rows);
        store
    }

    /// An empty table that is available and has already handed out the ids
    /// up to `last_id`, so that the next row gets the id after it: a table
    /// whose earlier rows are gone.
    pub fn continuing_after(last_id: u32) -> (store: Self)
        ensures
            store.table() == (TableModel { rows: Seq::empty(), last_id: last_id as nat }),
            store.available(),
    {
        let store = InMemoryProductStore { rows: Vec::new(), last_id, online: true };
        assert(store.contents().rows =~= Seq::empty());
        store
    }

    /// Switches the table on or off; its rows stay as they are.
    pub fn set_available(&mut self, available: bool)
        ensures
            final(self).table() == old(self).table(),
            final(self).available() == available,
    {
        proof {
            use_type_invariant(&*self);
        }
        self.online = available;
    }

    /// Whether the table is switched on.
    pub fn is_available(&self) -> (available: bool)
        ensures
            available == self.available(),
    {
        self.online
    }

    /// Where the row with the id `id` stands, if there is one.
    fn locate(&self, id: u32) -> (place: Option<usize>)
        ensures
            match place {
                Some(at) => self.contents().holds(id as nat) && at == self.contents().position(
                    id as nat,
                ) && at < self.rows.len(),
                None => !self.contents().holds(id as nat),
            },
    {
        proof {
            use_type_invariant(self);
        }
        let mut at: usize = 0;
        while at < self.rows.len()
            invariant
                at <= self.rows.len(),
                self.contents().well_formed(),
                forall|i: int| 0 <= i < at ==> (#[trigger] self.contents().rows[i]).id != id,
            decreases self.rows.len() - at,
        {
            if self.rows[at].id == id {
                proof {
                    assert(self.contents().rows[at as int].id == id);
                    lemma_position_of_row(self.contents(), at as int);
                }
                return Some(at);
            }
            assert(self.contents().rows[at as int].id != id);
            at += 1;
        }
        None
    }
}

impl ProductStore for InMemoryProductStore {
    closed spec fn table(&self) -> TableModel {
        self.contents()
    }

    closed spec fn available(&self) -> bool {
        self.online
    }

    fn select_all(&self) -> (outcome: Result<Vec<ProductEntity>, Error>) {
        proof {
            use_type_invariant(self);
        }
        if !self.online {
            return Err(Error::StoreUnavailable(None));
        }
        let rows = self.rows.clone();
        assert(rows.deep_view() =~= self.rows.deep_view());
        Ok(rows)
    }

    fn select_by_id(&self, id: u32) -> (outcome: Result<Option<ProductEntity>, Error>) {
        proof {
            use_type_invariant(self);
        }
        if !self.online {
            return Err(Error::StoreUnavailable(None));
        }
        match self.locate(id) {
            Some(at) => Ok(Some(self.rows[at].clone())),
            None => Ok(None),
        }
    }

    fn update_by_id(
        &mut self,
        id: u32,
        name: &String,
        price: u32,
        description: &String,
        quantity: u32,
        updated_at: &String,
    ) -> (outcome: Result<u64, Error>) {
        proof {
            use_type_invariant(&*self);
        }
        if !self.online {
            return Err(Error::StoreUnavailable(None));
        }
        match self.locate(id) {
            Some(at) => {
                let ghost written = columns(
                    id as nat,
                    name@,
                    price as nat,
                    description@,
                    quantity as nat,
                );
                let ghost before = self.contents();
                let row = ProductEntity {
                    id,
                    name: name.clone(),
                    price,
                    description: description.clone(),
                    quantity,
                    created_at: self.rows[at].created_at.clone(),
                    updated_at: updated_at.clone(),
                };
                let mut rows: Vec<ProductEntity> = Vec::new();
                std::mem::swap(&mut rows, &mut self.rows);
                rows.set(at, row);
                proof {
                    lemma_updated(before, written, updated_at@);
                    assert(rows.deep_view() =~= before.updated(written, updated_at@).rows);
                }
                self.rows = rows;
                Ok(1)
            },
            None => Ok(0),
        }
    }

    fn insert(
        &mut self,
        name: &String,
        price: u32,
        description: &String,
        quantity: u32,
        created_at: &String,
        updated_at: &String,
    ) -> (outcome: Result<u32, Error>) {
        proof {
            use_type_invariant(&*self);
        }
        if !self.online || self.last_id == u32::MAX {
            return Err(Error::StoreUnavailable(None));
        }
        let ghost written = columns(0, name@, price as nat, description@, quantity as nat);
        let ghost before = self.contents();
        let id: u32 = self.last_id + 1;
        let row = ProductEntity {
            id,
            name: name.clone(),
            price,
            description: description.clone(),
            quantity,
            created_at: created_at.clone(),
            updated_at: updated_at.clone(),
        };
        let mut rows: Vec<ProductEntity> = Vec::new();
        std::mem::swap(&mut rows, &mut self.rows);
        rows.push(row);
        proof {
            lemma_inserted(before, written, created_at@, updated_at@);
            assert(rows.deep_view() =~= before.inserted(written, created_at@, updated_at@).rows);
        }
        self.last_id = id;
        self.rows = rows;
        Ok(id)
    }
}

} // verus!
