//! The conditional state-transition surface over orders.
//!
//! An order is created `Pending` and the only write that touches an existing
//! order is `mark_paid_if_pending`, a single guarded transition to `Paid`.
use std::collections::HashMap;
use vstd::prelude::*;

verus! {

broadcast use vstd::std_specs::hash::group_hash_axioms;

/// Currency used when an order is created without one.
pub const DEFAULT_CURRENCY: &'static str = "USDC";

#[derive(PartialEq, Eq, Structural, Clone, Copy, Debug)]
pub enum OrderStatus {
    Pending,
    Paid,
}

/// Position of a status on the one-way path `Pending -> Paid`.
pub open spec fn status_rank(s: OrderStatus) -> nat {
    match s {
        OrderStatus::Pending => 0,
        OrderStatus::Paid => 1,
    }
}

#[derive(Debug)]
pub struct Order {
    pub id: u128,
    pub merchant_address: String,
    pub amount: i64,
    pub currency: String,
    pub status: OrderStatus,
}

/// The same order with its status set to `Paid`.
pub open spec fn paid(o: Order) -> Order {
    Order { status: OrderStatus::Paid, ..o }
}

/// Result of the guarded update "set Paid where id matches and status is Pending":
/// the new contents and the number of rows affected.
pub open spec fn mark_paid_outcome(m: Map<u128, Order>, id: u128) -> (Map<u128, Order>, u64) {
    if m.contains_key(id) && m[id].status == OrderStatus::Pending {
        (m.insert(id, paid(m[id])), 1)
    } else {
        (m, 0)
    }
}

/// Every order of `before` is still in `after` with the same fields, except
/// that its status may have moved forward.
pub open spec fn status_advances(before: Map<u128, Order>, after: Map<u128, Order>) -> bool {
    forall|id: u128|
        #[trigger] before.contains_key(id) ==> {
            &&& after.contains_key(id)
            &&& status_rank(before[id].status) <= status_rank(after[id].status)
            &&& after[id].id == before[id].id
            &&& after[id].merchant_address == before[id].merchant_address
            &&& after[id].amount == before[id].amount
            &&& after[id].currency == before[id].currency
        }
}

/// The currency to record: the one given, or `DEFAULT_CURRENCY`.
pub open spec fn chosen_currency(currency: Option<Seq<char>>) -> Seq<char> {
    match currency {
        Some(c) => c,
        None => seq!['U', 'S', 'D', 'C'],
    }
}

pub fn currency_or_default(currency: Option<String>) -> (r: String)
    ensures
        r@ == chosen_currency(
            match currency {
                Some(c) => Some(c@),
                None => None,
            },
        ),
{
    match currency {
        Some(c) => c,
        None => {
            proof {
                reveal_strlit("USDC");
            }
            DEFAULT_CURRENCY.to_string()
        },
    }
}

/// Applying the paid transition to an order that is already `Paid` changes
/// nothing and affects zero rows, and so does applying it a second time to
/// any order.
pub proof fn law_mark_paid_idempotent(m: Map<u128, Order>, id: u128)
    ensures
        m.contains_key(id) && m[id].status == OrderStatus::Paid ==> mark_paid_outcome(m, id) == (
        m, 0u64),
        ({
            let once = mark_paid_outcome(m, id).0;
            mark_paid_outcome(once, id) == (once, 0u64)
        }),
{
}

/// A reference to an id with no order affects zero rows and changes nothing.
pub proof fn law_unknown_reference_is_noop(m: Map<u128, Order>, id: u128)
    requires
        !m.contains_key(id),
    ensures
        mark_paid_outcome(m, id) == (m, 0u64),
{
}

/// Status only moves forward along a chain of states in which each step is a
/// store operation: once an order is `Paid` it never reads `Pending` again.
pub proof fn law_status_monotonic(states: Seq<Map<u128, Order>>, i: int, j: int, id: u128)
    requires
        forall|k: int| 0 <= k < states.len() - 1 ==> status_advances(#[trigger] states[k], states[k + 1]),
        0 <= i <= j < states.len(),
        states[i].contains_key(id),
    ensures
        states[j].contains_key(id),
        status_rank(states[i][id].status) <= status_rank(states[j][id].status),
        states[i][id].status == OrderStatus::Paid ==> states[j][id].status == OrderStatus::Paid,
    decreases j - i,
{
    if i < j {
        law_status_monotonic(states, i, j - 1, id);
        assert(status_advances(states[j - 1], states[j]));
    }
}

/// Orders keyed by their 128-bit identifier.
pub struct OrderBook {
    orders: HashMap<u128, Order>,
}

impl View for OrderBook {
    type V = Map<u128, Order>;

    closed spec fn view(&self) -> Map<u128, Order> {
        self.orders@
    }
}

impl OrderBook {
    pub fn new() -> (r: OrderBook)
        ensures
            r@ == Map::<u128, Order>::empty(),
    {
        OrderBook { orders: HashMap::new() }
    }

    /// Records a new `Pending` order under `id`; refuses an id already in use.
    pub fn create(
        &mut self,
        id: u128,
        merchant_address: String,
        amount: i64,
        currency: String,
    ) -> (r: bool)
        ensures
            r == !old(self)@.contains_key(id),
            r ==> final(self)@ == old(self)@.insert(
                id,
                Order { id, merchant_address, amount, currency, status: OrderStatus::Pending },
            ),
            !r ==> final(self)@ == old(self)@,
            status_advances(old(self)@, final(self)@),
    {
        if self.orders.contains_key(&id) {
            false
        } else {
            let order = Order { id, merchant_address, amount, currency, status: OrderStatus::Pending };
            self.orders.insert(id, order);
            true
        }
    }

    pub fn get(&self, id: u128) -> (r: Option<&Order>)
        ensures
            match r {
                Some(o) => self@.contains_key(id) && *o == self@[id],
                None => !self@.contains_key(id),
            },
    {
        self.orders.get(&id)
    }

    /// The guarded transition `Pending -> Paid`; returns the rows affected.
    /// Zero rows means the id is unknown or the order is already paid.
    pub fn mark_paid_if_pending(&mut self, id: u128) -> (rows: u64)
        ensures
            (final(self)@, rows) == mark_paid_outcome(old(self)@, id),
            status_advances(old(self)@, final(self)@),
    {
        let pending = match self.orders.get(&id) {
            Some(o) => o.status == OrderStatus::Pending,
            None => false,
        };
        if !pending {
            return 0;
        }
        match self.orders.remove(&id) {
            Some(mut o) => {
                o.status = OrderStatus::Paid;
                self.orders.insert(id, o);
                proof {
                    assert(self.orders@ =~= mark_paid_outcome(old(self)@, id).0);
                }
                1
            },
            None => 0,
        }
    }
}

/// Relies on `uuid::Uuid::new_v4`: a random identifier. Nothing is known of
/// its value, so callers handle one that is already taken.
#[verifier::external_body]
fn random_order_id() -> (r: u128) {
    uuid::Uuid::new_v4().as_u128()
}

/// Creates a `Pending` order under a fresh random id, in the given currency
/// or in `DEFAULT_CURRENCY`. Returns the id, or `None` (and leaves the store
/// as it was) in the unlikely case that the id drawn is already taken; on an
/// empty store it always succeeds.
pub fn create_order(book: &mut OrderBook, merchant_address: String, amount: i64, currency: Option<
    String,
>) -> (r: Option<u128>)
    ensures
        r is None ==> final(book)@ == old(book)@,
        r is None ==> exists|k: u128| old(book)@.contains_key(k),
        r is Some ==> ({
            let id = r->Some_0;
            let o = final(book)@[id];
            &&& !old(book)@.contains_key(id)
            &&& final(book)@ == old(book)@.insert(id, o)
            &&& o.id == id
            &&& o.merchant_address == merchant_address
            &&& o.amount == amount
            &&& o.currency@ == chosen_currency(
                match currency {
                    Some(c) => Some(c@),
                    None => None,
                },
            )
            &&& o.status == OrderStatus::Pending
        }),
        status_advances(old(book)@, final(book)@),
{
    let id = random_order_id();
    let currency = currency_or_default(currency);
    if book.create(id, merchant_address, amount, currency) {
        Some(id)
    } else {
        None
    }
}

} // verus!
