//! An in-memory model of the relational sink: three append-only tables and
//! the three-way join keyed by an order's foreign keys. The drivers' logic
//! is verified against this model; a process talking to a real relational
//! store routes the same calls through its own connection.

use vstd::prelude::*;
use crate::models::{Order, Product, User};

verus! {

/// The one failure a join query can report: no row for the requested key.
#[derive(Clone, Copy, PartialEq, Eq, Structural, Debug)]
pub enum QueryError {
    NotFound,
}

/// The first user whose id matches, scanning from the front.
pub open spec fn lookup_user(s: Seq<User>, id: i32) -> Option<User>
    decreases s.len(),
{
    if s.len() == 0 {
        None
    } else if s[0].id == id {
        Some(s[0])
    } else {
        lookup_user(s.subrange(1, s.len() as int), id)
    }
}

/// The first product whose id matches, scanning from the front.
pub open spec fn lookup_product(s: Seq<Product>, id: i32) -> Option<Product>
    decreases s.len(),
{
    if s.len() == 0 {
        None
    } else if s[0].id == id {
        Some(s[0])
    } else {
        lookup_product(s.subrange(1, s.len() as int), id)
    }
}

/// The first order whose id matches, scanning from the front.
pub open spec fn lookup_order(s: Seq<Order>, id: i32) -> Option<Order>
    decreases s.len(),
{
    if s.len() == 0 {
        None
    } else if s[0].id == id {
        Some(s[0])
    } else {
        lookup_order(s.subrange(1, s.len() as int), id)
    }
}

/// The three-way join: the order with the given id, joined to the user and
/// product its foreign keys reference; nothing when any of the three rows
/// is absent.
pub open spec fn spec_query_joined(
    users: Seq<User>,
    products: Seq<Product>,
    orders: Seq<Order>,
    order_id: i32,
) -> Option<(User, Product, Order)> {
    match lookup_order(orders, order_id) {
        None => None,
        Some(o) => match lookup_user(users, o.user_id) {
            None => None,
            Some(u) => match lookup_product(products, o.product_id) {
                None => None,
                Some(p) => Some((u, p, o)),
            },
        },
    }
}

/// The in-memory relational store: one append-only table per entity kind.
pub struct Database {
    pub users: Vec<User>,
    pub products: Vec<Product>,
    pub orders: Vec<Order>,
}

impl Database {
    /// An empty store.
    pub fn new() -> (db: Database)
        ensures
            db.users@ == Seq::<User>::empty(),
            db.products@ == Seq::<Product>::empty(),
            db.orders@ == Seq::<Order>::empty(),
    {
        Database { users: Vec::new(), products: Vec::new(), orders: Vec::new() }
    }

    /// All-or-nothing multi-row insert of one batch of users, in order.
    pub fn insert_users(&mut self, batch: &[User])
        ensures
            final(self).users@ == old(self).users@ + batch@,
            final(self).products@ == old(self).products@,
            final(self).orders@ == old(self).orders@,
    {
        let n = batch.len();
        let mut i: usize = 0;
        while i < n
            invariant
                i <= n,
                n == batch@.len(),
                self.users@ == old(self).users@ + batch@.subrange(0, i as int),
                self.products@ == old(self).products@,
                self.orders@ == old(self).orders@,
            decreases n - i,
        {
            self.users.push(batch[i].clone());
            proof {
                assert(old(self).users@ + batch@.subrange(0, i as int + 1) =~= old(self).users@
                    + batch@.subrange(0, i as int) + seq![batch@[i as int]]);
            }
            i = i + 1;
        }
        proof {
            assert(batch@.subrange(0, n as int) =~= batch@);
        }
    }

    /// All-or-nothing multi-row insert of one batch of products, in order.
    pub fn insert_products(&mut self, batch: &[Product])
        ensures
            final(self).products@ == old(self).products@ + batch@,
            final(self).users@ == old(self).users@,
            final(self).orders@ == old(self).orders@,
    {
        let n = batch.len();
        let mut i: usize = 0;
        while i < n
            invariant
                i <= n,
                n == batch@.len(),
                self.products@ == old(self).products@ + batch@.subrange(0, i as int),
                self.users@ == old(self).users@,
                self.orders@ == old(self).orders@,
            decreases n - i,
        {
            self.products.push(batch[i].clone());
            proof {
                assert(old(self).products@ + batch@.subrange(0, i as int + 1) =~= old(
                    self,
                ).products@ + batch@.subrange(0, i as int) + seq![batch@[i as int]]);
            }
            i = i + 1;
        }
        proof {
            assert(batch@.subrange(0, n as int) =~= batch@);
        }
    }

    /// All-or-nothing multi-row insert of one batch of orders, in order.
    pub fn insert_orders(&mut self, batch: &[Order])
        ensures
            final(self).orders@ == old(self).orders@ + batch@,
            final(self).users@ == old(self).users@,
            final(self).products@ == old(self).products@,
    {
        let n = batch.len();
        let mut i: usize = 0;
        while i < n
            invariant
                i <= n,
                n == batch@.len(),
                self.orders@ == old(self).orders@ + batch@.subrange(0, i as int),
                self.users@ == old(self).users@,
                self.products@ == old(self).products@,
            decreases n - i,
        {
            self.orders.push(batch[i].clone());
            proof {
                assert(old(self).orders@ + batch@.subrange(0, i as int + 1) =~= old(self).orders@
                    + batch@.subrange(0, i as int) + seq![batch@[i as int]]);
            }
            i = i + 1;
        }
        proof {
            assert(batch@.subrange(0, n as int) =~= batch@);
        }
    }

    /// The first user with the given id, cloned out of the table.
    fn find_user(&self, id: i32) -> (r: Option<User>)
        ensures
            r == lookup_user(self.users@, id),
    {
        let n = self.users.len();
        proof {
            assert(self.users@.subrange(0, n as int) =~= self.users@);
        }
        let mut i: usize = 0;
        while i < n
            invariant
                i <= n,
                n == self.users@.len(),
                lookup_user(self.users@, id) == lookup_user(
                    self.users@.subrange(i as int, n as int),
                    id,
                ),
            decreases n - i,
        {
            if self.users[i].id == id {
                return Some(self.users[i].clone());
            }
            proof {
                assert(self.users@.subrange(i as int, n as int).subrange(
                    1,
                    (n - i) as int,
                ) =~= self.users@.subrange(i as int + 1, n as int));
            }
            i = i + 1;
        }
        None
    }

    /// The first product with the given id, cloned out of the table.
    fn find_product(&self, id: i32) -> (r: Option<Product>)
        ensures
            r == lookup_product(self.products@, id),
    {
        let n = self.products.len();
        proof {
            assert(self.products@.subrange(0, n as int) =~= self.products@);
        }
        let mut i: usize = 0;
        while i < n
            invariant
                i <= n,
                n == self.products@.len(),
                lookup_product(self.products@, id) == lookup_product(
                    self.products@.subrange(i as int, n as int),
                    id,
                ),
            decreases n - i,
        {
            if self.products[i].id == id {
                return Some(self.products[i].clone());
            }
            proof {
                assert(self.products@.subrange(i as int, n as int).subrange(
                    1,
                    (n - i) as int,
                ) =~= self.products@.subrange(i as int + 1, n as int));
            }
            i = i + 1;
        }
        None
    }

    /// The first order with the given id, cloned out of the table.
    fn find_order(&self, id: i32) -> (r: Option<Order>)
        ensures
            r == lookup_order(self.orders@, id),
    {
        let n = self.orders.len();
        proof {
            assert(self.orders@.subrange(0, n as int) =~= self.orders@);
        }
        let mut i: usize = 0;
        while i < n
            invariant
                i <= n,
                n == self.orders@.len(),
                lookup_order(self.orders@, id) == lookup_order(
                    self.orders@.subrange(i as int, n as int),
                    id,
                ),
            decreases n - i,
        {
            if self.orders[i].id == id {
                return Some(self.orders[i].clone());
            }
            proof {
                assert(self.orders@.subrange(i as int, n as int).subrange(
                    1,
                    (n - i) as int,
                ) =~= self.orders@.subrange(i as int + 1, n as int));
            }
            i = i + 1;
        }
        None
    }

    /// The three-way join keyed by the order's foreign keys: returns the
    /// related user, product and order rows, and reports `NotFound` exactly
    /// when the order id is absent or a referenced row is missing.
    pub fn query_joined_data(&self, order_id: i32) -> (r: Result<
        (User, Product, Order),
        QueryError,
    >)
        ensures
            match r {
                Ok(t) => spec_query_joined(self.users@, self.products@, self.orders@, order_id)
                    == Some(t),
                Err(e) => e == QueryError::NotFound && spec_query_joined(
                    self.users@,
                    self.products@,
                    self.orders@,
                    order_id,
                ) is None,
            },
    {
        match self.find_order(order_id) {
            None => Err(QueryError::NotFound),
            Some(o) => match self.find_user(o.user_id) {
                None => Err(QueryError::NotFound),
                Some(u) => match self.find_product(o.product_id) {
                    None => Err(QueryError::NotFound),
                    Some(p) => Ok((u, p, o)),
                },
            },
        }
    }
}

/// Appending a user with a previously absent id makes it the one the lookup
/// finds.
pub proof fn lemma_lookup_user_push(s: Seq<User>, u: User, id: i32)
    requires
        lookup_user(s, id) is None,
        u.id == id,
    ensures
        lookup_user(s.push(u), id) == Some(u),
    decreases s.len(),
{
    if s.len() == 0 {
        assert(s.push(u)[0] == u);
        assert(s.push(u).subrange(1, 1) =~= Seq::<User>::empty());
    } else {
        assert(s.push(u).subrange(1, s.len() as int + 1) =~= s.subrange(
            1,
            s.len() as int,
        ).push(u));
        lemma_lookup_user_push(s.subrange(1, s.len() as int), u, id);
    }
}

/// Appending a product with a previously absent id makes it the one the
/// lookup finds.
pub proof fn lemma_lookup_product_push(s: Seq<Product>, p: Product, id: i32)
    requires
        lookup_product(s, id) is None,
        p.id == id,
    ensures
        lookup_product(s.push(p), id) == Some(p),
    decreases s.len(),
{
    if s.len() == 0 {
        assert(s.push(p)[0] == p);
        assert(s.push(p).subrange(1, 1) =~= Seq::<Product>::empty());
    } else {
        assert(s.push(p).subrange(1, s.len() as int + 1) =~= s.subrange(
            1,
            s.len() as int,
        ).push(p));
        lemma_lookup_product_push(s.subrange(1, s.len() as int), p, id);
    }
}

/// Appending an order with a previously absent id makes it the one the
/// lookup finds.
pub proof fn lemma_lookup_order_push(s: Seq<Order>, o: Order, id: i32)
    requires
        lookup_order(s, id) is None,
        o.id == id,
    ensures
        lookup_order(s.push(o), id) == Some(o),
    decreases s.len(),
{
    if s.len() == 0 {
        assert(s.push(o)[0] == o);
        assert(s.push(o).subrange(1, 1) =~= Seq::<Order>::empty());
    } else {
        assert(s.push(o).subrange(1, s.len() as int + 1) =~= s.subrange(
            1,
            s.len() as int,
        ).push(o));
        lemma_lookup_order_push(s.subrange(1, s.len() as int), o, id);
    }
}

/// A user the lookup already finds stays found, and first, after any append.
pub proof fn lemma_lookup_user_stable(s: Seq<User>, y: User, id: i32)
    requires
        lookup_user(s, id) is Some,
    ensures
        lookup_user(s.push(y), id) == lookup_user(s, id),
    decreases s.len(),
{
    if s.len() > 0 && s[0].id != id {
        assert(s.push(y).subrange(1, s.len() as int + 1) =~= s.subrange(
            1,
            s.len() as int,
        ).push(y));
        lemma_lookup_user_stable(s.subrange(1, s.len() as int), y, id);
    }
}

/// A product the lookup already finds stays found, and first, after any
/// append.
pub proof fn lemma_lookup_product_stable(s: Seq<Product>, y: Product, id: i32)
    requires
        lookup_product(s, id) is Some,
    ensures
        lookup_product(s.push(y), id) == lookup_product(s, id),
    decreases s.len(),
{
    if s.len() > 0 && s[0].id != id {
        assert(s.push(y).subrange(1, s.len() as int + 1) =~= s.subrange(
            1,
            s.len() as int,
        ).push(y));
        lemma_lookup_product_stable(s.subrange(1, s.len() as int), y, id);
    }
}

/// Law: inserting a linked triple whose order id was absent and then
/// querying the join for that id returns the inserted order joined to the
/// first user and product rows carrying its foreign keys: the inserted ones
/// when their ids were fresh, the older rows when they were not — exactly
/// what a real join's first row holds.
pub proof fn lemma_insert_then_query_first_match(
    users: Seq<User>,
    products: Seq<Product>,
    orders: Seq<Order>,
    u: User,
    p: Product,
    o: Order,
)
    requires
        o.user_id == u.id,
        o.product_id == p.id,
        lookup_order(orders, o.id) is None,
    ensures
        spec_query_joined(users.push(u), products.push(p), orders.push(o), o.id) matches Some(t)
            && t.2 == o && t.0 == (match lookup_user(users, u.id) {
            Some(older) => older,
            None => u,
        }) && t.1 == (match lookup_product(products, p.id) {
            Some(older) => older,
            None => p,
        }),
{
    lemma_lookup_order_push(orders, o, o.id);
    match lookup_user(users, u.id) {
        Some(_) => lemma_lookup_user_stable(users, u, u.id),
        None => lemma_lookup_user_push(users, u, u.id),
    }
    match lookup_product(products, p.id) {
        Some(_) => lemma_lookup_product_stable(products, p, p.id),
        None => lemma_lookup_product_push(products, p, p.id),
    }
}

/// Law: inserting a linked triple whose ids were absent and then querying
/// the join for the order's id returns exactly that triple.
pub proof fn lemma_insert_then_query(
    users: Seq<User>,
    products: Seq<Product>,
    orders: Seq<Order>,
    u: User,
    p: Product,
    o: Order,
)
    requires
        o.user_id == u.id,
        o.product_id == p.id,
        lookup_user(users, u.id) is None,
        lookup_product(products, p.id) is None,
        lookup_order(orders, o.id) is None,
    ensures
        spec_query_joined(users.push(u), products.push(p), orders.push(o), o.id) == Some(
            (u, p, o),
        ),
{
    lemma_lookup_order_push(orders, o, o.id);
    lemma_lookup_user_push(users, u, u.id);
    lemma_lookup_product_push(products, p, p.id);
}

} // verus!
