//! The continuous-insertion phase: one generation cycle per tick, a
//! round-trip read through the three-way join, and the classification of
//! the result as a match, a mismatch, or a missing row. The periodic
//! scheduling is the caller's; every decision of a tick is here.

use vstd::prelude::*;
use crate::db::{
    lookup_order, lookup_product, lookup_user, spec_query_joined, Database, QueryError,
};
use crate::generators::generate_triple;
use crate::models::{CalendarDate, Order, Product, User};

verus! {

/// What one tick's verification found. A mismatch or a missing row is
/// surfaced to the operator and does not stop the loop.
#[derive(Clone, Copy, PartialEq, Eq, Structural, Debug)]
pub enum TickOutcome {
    /// The joined row agrees with the inserted triple on every field.
    Match,
    /// The join returned a row that diverges from what was inserted.
    JoinMismatch,
    /// The join found no row for the order's id.
    NotFound,
}

/// Field-by-field agreement of two optional strings, by contents.
pub open spec fn opt_str_match(a: Option<String>, b: Option<String>) -> bool {
    match (a, b) {
        (Some(x), Some(y)) => x@ == y@,
        (None, None) => true,
        _ => false,
    }
}

/// Field-by-field agreement of two users, strings compared by contents.
pub open spec fn user_fields_match(a: User, b: User) -> bool {
    &&& a.id == b.id
    &&& a.username@ == b.username@
    &&& a.email@ == b.email@
    &&& a.password_hash@ == b.password_hash@
    &&& opt_str_match(a.gender, b.gender)
    &&& a.first_name@ == b.first_name@
    &&& a.last_name@ == b.last_name@
    &&& opt_str_match(a.phone, b.phone)
    &&& opt_str_match(a.address, b.address)
    &&& opt_str_match(a.city, b.city)
    &&& opt_str_match(a.country, b.country)
    &&& opt_str_match(a.postal_code, b.postal_code)
    &&& a.birth_date == b.birth_date
    &&& a.registration_date == b.registration_date
    &&& a.last_login == b.last_login
    &&& a.is_active == b.is_active
    &&& a.account_balance == b.account_balance
    &&& a.loyalty_points == b.loyalty_points
    &&& opt_str_match(a.preferences, b.preferences)
    &&& opt_str_match(a.avatar_url, b.avatar_url)
    &&& a.marketing_consent == b.marketing_consent
    &&& a.created_at == b.created_at
}

/// Field-by-field agreement of two products, strings compared by contents.
pub open spec fn product_fields_match(a: Product, b: Product) -> bool {
    &&& a.id == b.id
    &&& a.name@ == b.name@
    &&& opt_str_match(a.description, b.description)
    &&& opt_str_match(a.sku, b.sku)
    &&& a.price == b.price
    &&& a.stock_quantity == b.stock_quantity
    &&& opt_str_match(a.category, b.category)
    &&& opt_str_match(a.brand, b.brand)
    &&& a.weight == b.weight
    &&& opt_str_match(a.dimensions, b.dimensions)
    &&& opt_str_match(a.color, b.color)
    &&& opt_str_match(a.material, b.material)
    &&& opt_str_match(a.manufacturer, b.manufacturer)
    &&& a.supplier_id == b.supplier_id
    &&& a.min_stock_level == b.min_stock_level
    &&& a.max_stock_level == b.max_stock_level
    &&& a.reorder_quantity == b.reorder_quantity
    &&& a.is_active == b.is_active
    &&& a.tax_rate == b.tax_rate
    &&& a.discount_percentage == b.discount_percentage
    &&& a.rating == b.rating
    &&& a.created_at == b.created_at
}

/// Field-by-field agreement of two orders, strings compared by contents.
pub open spec fn order_fields_match(a: Order, b: Order) -> bool {
    &&& a.id == b.id
    &&& a.user_id == b.user_id
    &&& a.product_id == b.product_id
    &&& a.quantity == b.quantity
    &&& a.order_date == b.order_date
    &&& a.status@ == b.status@
    &&& a.shipping_address@ == b.shipping_address@
    &&& a.payment_method@ == b.payment_method@
    &&& a.total_amount == b.total_amount
    &&& a.discount == b.discount
    &&& a.tax == b.tax
    &&& a.created_at == b.created_at
    &&& a.updated_at == b.updated_at
    &&& opt_str_match(a.tracking_number, b.tracking_number)
    &&& a.delivery_date == b.delivery_date
    &&& opt_str_match(a.customer_feedback, b.customer_feedback)
    &&& a.is_gift == b.is_gift
    &&& opt_str_match(a.gift_message, b.gift_message)
    &&& opt_str_match(a.order_source, b.order_source)
    &&& a.currency@ == b.currency@
    &&& opt_str_match(a.order_type, b.order_type)
}

/// Compares two optional strings by contents.
pub fn opt_str_eq(a: &Option<String>, b: &Option<String>) -> (r: bool)
    ensures
        r == opt_str_match(*a, *b),
{
    match (a, b) {
        (Some(x), Some(y)) => x.eq(y),
        (None, None) => true,
        _ => false,
    }
}

/// Compares two optional calendar dates.
pub fn opt_date_eq(a: &Option<CalendarDate>, b: &Option<CalendarDate>) -> (r: bool)
    ensures
        r == (*a == *b),
{
    match (a, b) {
        (Some(x), Some(y)) => x.year == y.year && x.month == y.month && x.day == y.day,
        (None, None) => true,
        _ => false,
    }
}

/// Compares two optional 64-bit signed numbers.
pub fn opt_i64_eq(a: &Option<i64>, b: &Option<i64>) -> (r: bool)
    ensures
        r == (*a == *b),
{
    match (a, b) {
        (Some(x), Some(y)) => *x == *y,
        (None, None) => true,
        _ => false,
    }
}

/// Compares two optional 64-bit unsigned numbers.
pub fn opt_u64_eq(a: &Option<u64>, b: &Option<u64>) -> (r: bool)
    ensures
        r == (*a == *b),
{
    match (a, b) {
        (Some(x), Some(y)) => *x == *y,
        (None, None) => true,
        _ => false,
    }
}

/// Compares two optional 32-bit signed numbers.
pub fn opt_i32_eq(a: &Option<i32>, b: &Option<i32>) -> (r: bool)
    ensures
        r == (*a == *b),
{
    match (a, b) {
        (Some(x), Some(y)) => *x == *y,
        (None, None) => true,
        _ => false,
    }
}

/// Whether two users agree on every field.
pub fn user_matches(a: &User, b: &User) -> (r: bool)
    ensures
        r == user_fields_match(*a, *b),
{
    a.id == b.id && a.username == b.username && a.email == b.email && a.password_hash
        == b.password_hash && opt_str_eq(&a.gender, &b.gender) && a.first_name == b.first_name
        && a.last_name == b.last_name && opt_str_eq(&a.phone, &b.phone) && opt_str_eq(
        &a.address,
        &b.address,
    ) && opt_str_eq(&a.city, &b.city) && opt_str_eq(&a.country, &b.country) && opt_str_eq(
        &a.postal_code,
        &b.postal_code,
    ) && opt_date_eq(&a.birth_date, &b.birth_date) && a.registration_date == b.registration_date
        && opt_i64_eq(&a.last_login, &b.last_login) && a.is_active == b.is_active && opt_u64_eq(
        &a.account_balance,
        &b.account_balance,
    ) && opt_i32_eq(&a.loyalty_points, &b.loyalty_points) && opt_str_eq(
        &a.preferences,
        &b.preferences,
    ) && opt_str_eq(&a.avatar_url, &b.avatar_url) && a.marketing_consent == b.marketing_consent
        && a.created_at == b.created_at
}

/// Whether two products agree on every field.
pub fn product_matches(a: &Product, b: &Product) -> (r: bool)
    ensures
        r == product_fields_match(*a, *b),
{
    a.id == b.id && a.name == b.name && opt_str_eq(&a.description, &b.description) && opt_str_eq(
        &a.sku,
        &b.sku,
    ) && a.price == b.price && a.stock_quantity == b.stock_quantity && opt_str_eq(
        &a.category,
        &b.category,
    ) && opt_str_eq(&a.brand, &b.brand) && opt_u64_eq(&a.weight, &b.weight) && opt_str_eq(
        &a.dimensions,
        &b.dimensions,
    ) && opt_str_eq(&a.color, &b.color) && opt_str_eq(&a.material, &b.material) && opt_str_eq(
        &a.manufacturer,
        &b.manufacturer,
    ) && opt_i32_eq(&a.supplier_id, &b.supplier_id) && opt_i32_eq(
        &a.min_stock_level,
        &b.min_stock_level,
    ) && opt_i32_eq(&a.max_stock_level, &b.max_stock_level) && opt_i32_eq(
        &a.reorder_quantity,
        &b.reorder_quantity,
    ) && a.is_active == b.is_active && opt_u64_eq(&a.tax_rate, &b.tax_rate) && opt_u64_eq(
        &a.discount_percentage,
        &b.discount_percentage,
    ) && opt_u64_eq(&a.rating, &b.rating) && a.created_at == b.created_at
}

/// Whether two orders agree on every field.
pub fn order_matches(a: &Order, b: &Order) -> (r: bool)
    ensures
        r == order_fields_match(*a, *b),
{
    a.id == b.id && a.user_id == b.user_id && a.product_id == b.product_id && a.quantity
        == b.quantity && a.order_date == b.order_date && a.status == b.status && a.shipping_address
        == b.shipping_address && a.payment_method == b.payment_method && a.total_amount
        == b.total_amount && a.discount == b.discount && a.tax == b.tax && a.created_at
        == b.created_at && a.updated_at == b.updated_at && opt_str_eq(
        &a.tracking_number,
        &b.tracking_number,
    ) && opt_i64_eq(&a.delivery_date, &b.delivery_date) && opt_str_eq(
        &a.customer_feedback,
        &b.customer_feedback,
    ) && a.is_gift == b.is_gift && opt_str_eq(&a.gift_message, &b.gift_message) && opt_str_eq(
        &a.order_source,
        &b.order_source,
    ) && a.currency == b.currency && opt_str_eq(&a.order_type, &b.order_type)
}

/// Classifies the result of a tick's join query against the triple that the
/// tick inserted: a missing row is `NotFound`, a row that diverges on any
/// field is `JoinMismatch`, full agreement is `Match`.
pub fn check_round_trip(
    u: &User,
    p: &Product,
    o: &Order,
    got: &Result<(User, Product, Order), QueryError>,
) -> (outcome: TickOutcome)
    ensures
        (outcome == TickOutcome::Match) <==> (got matches Ok(t) && user_fields_match(t.0, *u)
            && product_fields_match(t.1, *p) && order_fields_match(t.2, *o)),
        (outcome == TickOutcome::NotFound) <==> (got is Err),
        (outcome == TickOutcome::JoinMismatch) <==> (got matches Ok(t) && !(user_fields_match(
            t.0,
            *u,
        ) && product_fields_match(t.1, *p) && order_fields_match(t.2, *o))),
{
    match got {
        Err(_) => TickOutcome::NotFound,
        Ok((ru, rp, ro)) => {
            if user_matches(ru, u) && product_matches(rp, p) && order_matches(ro, o) {
                TickOutcome::Match
            } else {
                TickOutcome::JoinMismatch
            }
        },
    }
}

/// One tick's report: the inserted triple and what the round trip found.
pub struct TickReport {
    pub user: User,
    pub product: Product,
    pub order: Order,
    pub outcome: TickOutcome,
}

/// Performs one continuous-phase cycle against the store: generates one
/// linked triple, inserts each entity individually, reads the triple back
/// through the join, and classifies the result. The outcome is exactly what
/// the store's join warrants: `NotFound` when the join finds no row,
/// `Match` when the joined row agrees with the inserted triple on every
/// field, `JoinMismatch` otherwise; in particular, whenever the three drawn
/// ids were absent from the store, the round trip is a `Match`.
pub fn continuous_tick(db: &mut Database) -> (r: TickReport)
    ensures
        final(db).users@ == old(db).users@.push(r.user),
        final(db).products@ == old(db).products@.push(r.product),
        final(db).orders@ == old(db).orders@.push(r.order),
        r.order.user_id == r.user.id,
        r.order.product_id == r.product.id,
        match spec_query_joined(
            final(db).users@,
            final(db).products@,
            final(db).orders@,
            r.order.id,
        ) {
            None => r.outcome == TickOutcome::NotFound,
            Some(t) => r.outcome == (if user_fields_match(t.0, r.user) && product_fields_match(
                t.1,
                r.product,
            ) && order_fields_match(t.2, r.order) {
                TickOutcome::Match
            } else {
                TickOutcome::JoinMismatch
            }),
        },
        (lookup_user(old(db).users@, r.user.id) is None && lookup_product(
            old(db).products@,
            r.product.id,
        ) is None && lookup_order(old(db).orders@, r.order.id) is None) ==> r.outcome
            == TickOutcome::Match,
{
    let (user, product, order) = generate_triple();

    let user_row = vec![user.clone()];
    let product_row = vec![product.clone()];
    let order_row = vec![order.clone()];
    db.insert_users(user_row.as_slice());
    db.insert_products(product_row.as_slice());
    db.insert_orders(order_row.as_slice());
    proof {
        assert(old(db).users@ + user_row@ =~= old(db).users@.push(user));
        assert(old(db).products@ + product_row@ =~= old(db).products@.push(product));
        assert(old(db).orders@ + order_row@ =~= old(db).orders@.push(order));
    }

    let got = db.query_joined_data(order.id);
    proof {
        if lookup_user(old(db).users@, user.id) is None && lookup_product(
            old(db).products@,
            product.id,
        ) is None && lookup_order(old(db).orders@, order.id) is None {
            crate::db::lemma_insert_then_query(
                old(db).users@,
                old(db).products@,
                old(db).orders@,
                user,
                product,
                order,
            );
        }
    }
    let outcome = check_round_trip(&user, &product, &order, &got);

    TickReport { user, product, order, outcome }
}

} // verus!
