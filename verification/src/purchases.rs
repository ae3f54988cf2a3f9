//! What a run of purchase requests does to the stock of a product.
//!
//! A use case answers one request at a time and holds the repository
//! exclusively while it does, so requests that arrive together are answered
//! one after another in some order. Whatever that order is, the statements
//! below hold of it.

use vstd::prelude::*;
use crate::model::{lemma_row_of_position, lemma_updated, TableModel};

verus! {

/// The table after the requests `requests` for the product with the id `id`
/// have been answered one after another, the request at `i` for
/// `requests[i]` units at the time `nows[i]`.
pub open spec fn after_requests(
    table: TableModel,
    id: nat,
    requests: Seq<nat>,
    nows: Seq<Seq<char>>,
) -> TableModel
    recommends
        requests.len() == nows.len(),
    decreases requests.len(),
{
    if requests.len() == 0 {
        table
    } else {
        after_requests(table, id, requests.drop_last(), nows.drop_last()).after_request(
            id,
            requests.last(),
            nows.last(),
        )
    }
}

/// How many of the requests are served.
pub open spec fn requests_served(
    table: TableModel,
    id: nat,
    requests: Seq<nat>,
    nows: Seq<Seq<char>>,
) -> nat
    recommends
        requests.len() == nows.len(),
    decreases requests.len(),
{
    if requests.len() == 0 {
        0
    } else {
        let earlier = requests_served(table, id, requests.drop_last(), nows.drop_last());
        let before = after_requests(table, id, requests.drop_last(), nows.drop_last());
        if before.serves(id, requests.last()) {
            earlier + 1
        } else {
            earlier
        }
    }
}

/// How many units the served requests take together.
pub open spec fn units_served(
    table: TableModel,
    id: nat,
    requests: Seq<nat>,
    nows: Seq<Seq<char>>,
) -> nat
    recommends
        requests.len() == nows.len(),
    decreases requests.len(),
{
    if requests.len() == 0 {
        0
    } else {
        let earlier = units_served(table, id, requests.drop_last(), nows.drop_last());
        let before = after_requests(table, id, requests.drop_last(), nows.drop_last());
        if before.serves(id, requests.last()) {
            earlier + requests.last()
        } else {
            earlier
        }
    }
}

/// One answered request: a served one lowers the stock of its product by
/// what it asked for, a refused one changes nothing, and neither touches
/// another product, the ids, or the time at which a row was created.
pub proof fn lemma_after_request(table: TableModel, id: nat, requested: nat, now: Seq<char>)
    requires
        table.well_formed(),
    ensures
        table.after_request(id, requested, now).well_formed(),
        table.after_request(id, requested, now).last_id == table.last_id,
        table.after_request(id, requested, now).rows.len() == table.rows.len(),
        forall|other: nat| table.after_request(id, requested, now).holds(other) == table.holds(other),
        forall|other: nat|
            table.holds(other) && other != id ==> #[trigger] table.after_request(
                id,
                requested,
                now,
            ).row(other) == table.row(other),
        table.serves(id, requested) ==> table.after_request(id, requested, now).row(id)
            == table.row(id).rewritten(table.row(id).product().sold(requested), now),
        table.serves(id, requested) ==> table.after_request(id, requested, now).stock(id)
            == table.stock(id) - requested,
        !table.serves(id, requested) ==> table.after_request(id, requested, now) == table,
{
    if table.serves(id, requested) {
        lemma_row_of_position(table, id);
        lemma_updated(table, table.row(id).product().sold(requested), now);
    }
}

/// Stock is conserved over a run of requests for one product: what is left
/// and what the served requests took add up to what was there, so the stock
/// never falls below zero and no unit is sold twice. The run leaves every
/// other product as it was.
pub proof fn lemma_stock_is_conserved(
    table: TableModel,
    id: nat,
    requests: Seq<nat>,
    nows: Seq<Seq<char>>,
)
    requires
        table.well_formed(),
        table.holds(id),
        requests.len() == nows.len(),
    ensures
        after_requests(table, id, requests, nows).well_formed(),
        after_requests(table, id, requests, nows).holds(id),
        after_requests(table, id, requests, nows).stock(id) + units_served(
            table,
            id,
            requests,
            nows,
        ) == table.stock(id),
        requests_served(table, id, requests, nows) <= requests.len(),
        forall|other: nat|
            after_requests(table, id, requests, nows).holds(other) == table.holds(other),
        forall|other: nat|
            table.holds(other) && other != id ==> #[trigger] after_requests(
                table,
                id,
                requests,
                nows,
            ).row(other) == table.row(other),
    decreases requests.len(),
{
    if requests.len() > 0 {
        lemma_stock_is_conserved(table, id, requests.drop_last(), nows.drop_last());
        let before = after_requests(table, id, requests.drop_last(), nows.drop_last());
        lemma_after_request(before, id, requests.last(), nows.last());
    }
}

/// A run of requests for the same number of units, at least one, serves as
/// many of them as the stock covers and refuses the rest: the served ones
/// fit into the stock, and once one is refused, less than one request's
/// worth is left.
pub proof fn lemma_equal_requests(
    table: TableModel,
    id: nat,
    units: nat,
    requests: Seq<nat>,
    nows: Seq<Seq<char>>,
)
    requires
        table.well_formed(),
        table.holds(id),
        requests.len() == nows.len(),
        units >= 1,
        forall|i: int| 0 <= i < requests.len() ==> requests[i] == units,
    ensures
        units_served(table, id, requests, nows) == requests_served(table, id, requests, nows)
            * units,
        requests_served(table, id, requests, nows) * units <= table.stock(id),
        requests_served(table, id, requests, nows) < requests.len() ==> table.stock(id)
            - requests_served(table, id, requests, nows) * units < units,
    decreases requests.len(),
{
    if requests.len() > 0 {
        let earlier = requests.drop_last();
        lemma_equal_requests(table, id, units, earlier, nows.drop_last());
        lemma_stock_is_conserved(table, id, earlier, nows.drop_last());
        lemma_stock_is_conserved(table, id, requests, nows);
        let served = requests_served(table, id, earlier, nows.drop_last());
        assert((served + 1) * units == served * units + units) by (nonlinear_arith);
    }
}

/// A run of requests for one unit each serves as many as there are units or
/// requests, whichever is fewer, and refuses the rest; what is left is the
/// stock less the requests served. Ten units and fifteen requests give ten
/// sales, five refusals and an empty stock.
pub proof fn lemma_unit_requests(
    table: TableModel,
    id: nat,
    requests: Seq<nat>,
    nows: Seq<Seq<char>>,
)
    requires
        table.well_formed(),
        table.holds(id),
        requests.len() == nows.len(),
        forall|i: int| 0 <= i < requests.len() ==> requests[i] == 1,
    ensures
        requests_served(table, id, requests, nows) == if requests.len() <= table.stock(id) {
            requests.len()
        } else {
            table.stock(id)
        },
        after_requests(table, id, requests, nows).stock(id) == table.stock(id) - requests_served(
            table,
            id,
            requests,
            nows,
        ),
{
    lemma_equal_requests(table, id, 1, requests, nows);
    lemma_stock_is_conserved(table, id, requests, nows);
}

} // verus!
