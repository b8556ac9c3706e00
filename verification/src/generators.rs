//! Entity generators: one fully-populated synthetic value per call. Each
//! draw of entropy happens behind the trusted wrappers in `entropy`; the
//! `generated_*` predicates pin every field that does not depend on the
//! draw, and pin the range or shape of every field that does.

use vstd::prelude::*;
use crate::entropy;
use crate::models::{CalendarDate, Order, Product, User};
use crate::models::{order_wf, product_wf, user_wf};
use crate::text::{is_dimensions_label, is_street_address, is_tracking_code};

verus! {

/// Everything a generated user satisfies: well-formed, identifier in range,
/// every optional profile field populated, every numeric draw in its range,
/// and the fixed fields at their fixed values.
pub open spec fn generated_user(u: User) -> bool {
    &&& user_wf(u)
    &&& 1 <= u.id < 1000000
    &&& u.password_hash@ == "dummy_hash"@
    &&& u.gender matches Some(g) && (g@ == "Male"@ || g@ == "Female"@ || g@ == "Other"@)
    &&& u.first_name@.len() > 0
    &&& u.last_name@.len() > 0
    &&& u.phone is Some
    &&& u.address is Some
    &&& u.city is Some
    &&& u.country is Some
    &&& u.postal_code is Some
    &&& u.birth_date matches Some(d) && 1970 <= d.year < 2000 && 1 <= d.month < 13 && 1 <= d.day
        < 29
    &&& u.account_balance matches Some(b) && b < 1000000
    &&& u.loyalty_points matches Some(p) && 0 <= p < 1000
    &&& u.preferences matches Some(s) && s@ == "{\"theme\": \"dark\"}"@
    &&& u.avatar_url matches Some(s) && s@ == "https://example.com/avatar.png"@
    &&& u.is_active
    &&& u.registration_date == u.created_at
}

/// Everything a generated product satisfies: well-formed, identifier and
/// every numeric draw in range, every optional field populated, and the
/// fixed fields at their fixed values.
pub open spec fn generated_product(p: Product) -> bool {
    &&& product_wf(p)
    &&& 1 <= p.id < 1000000
    &&& 1000 <= p.price < 100000
    &&& 0 <= p.stock_quantity < 1000
    &&& p.description is Some
    &&& p.sku is Some
    &&& p.category is Some
    &&& p.brand is Some
    &&& p.weight matches Some(w) && w < 10000
    &&& p.dimensions matches Some(s) && is_dimensions_label(s@)
    &&& p.color matches Some(s) && s@ == "black"@
    &&& p.material matches Some(s) && s@ == "plastic"@
    &&& p.manufacturer is Some
    &&& p.supplier_id matches Some(s) && 1 <= s < 100
    &&& p.min_stock_level matches Some(s) && 1 <= s < 50
    &&& p.max_stock_level matches Some(s) && 100 <= s < 200
    &&& p.reorder_quantity matches Some(q) && 1 <= q < 100
    &&& p.tax_rate == Some(0u64)
    &&& p.discount_percentage == Some(0u64)
    &&& p.rating matches Some(r) && r <= 500
    &&& p.is_active
}

/// Everything a generated order satisfies: well-formed, its references are
/// exactly the given user and product identifiers, every draw in its range
/// or of its shape, and the delivery date between one and nine days after
/// the order date, saturating only at the very end of the timestamp range.
pub open spec fn generated_order(o: Order, user_id: i32, product_id: i32) -> bool {
    &&& order_wf(o)
    &&& o.user_id == user_id
    &&& o.product_id == product_id
    &&& 1 <= o.id < 1000000
    &&& 1 <= o.quantity < 10
    &&& o.status@ == "completed"@ || o.status@ == "pending"@
    &&& is_street_address(o.shipping_address@)
    &&& o.payment_method@ == "credit_card"@ || o.payment_method@ == "paypal"@
    &&& 1000 <= o.total_amount < 50000
    &&& o.discount < 5000
    &&& o.tax < 2000
    &&& o.currency@ == "USD"@
    &&& o.tracking_number matches Some(s) && is_tracking_code(s@)
    &&& o.delivery_date matches Some(d) && o.order_date <= d && d <= o.order_date + 9 * 86400 && (
    o.order_date + 86400 <= i64::MAX ==> o.order_date + 86400 <= d)
    &&& o.customer_feedback matches Some(s) ==> s@ == "Great service!"@
    &&& o.gift_message matches Some(s) ==> s@ == "Happy Birthday!"@
    &&& o.order_source matches Some(s) && (s@ == "website"@ || s@ == "mobile_app"@)
    &&& o.order_type matches Some(s) && (s@ == "regular"@ || s@ == "express"@)
    &&& o.order_date == o.created_at
    &&& o.updated_at == o.created_at
}

/// Generates one synthetic user. Identity, profile and account-state fields
/// are populated in one pass.
pub fn generate_user() -> (u: User)
    ensures
        generated_user(u),
{
    let username = entropy::fake_username();
    let email = entropy::fake_free_email();
    let password_hash = "dummy_hash".to_owned();

    let mut user = User::new(username, email, password_hash);

    user.id = entropy::rand_range_i32(1, 1000000);
    let gender_pick = entropy::rand_range_u64(0, 3);
    user.gender = Some(
        if gender_pick == 0 {
            "Male".to_owned()
        } else if gender_pick == 1 {
            "Female".to_owned()
        } else {
            "Other".to_owned()
        },
    );
    user.first_name = entropy::fake_person_name();
    user.last_name = entropy::fake_person_name();
    user.phone = Some(entropy::fake_phone_number());
    user.address = Some(entropy::fake_secondary_address());
    user.city = Some(entropy::fake_city_name());
    user.country = Some(entropy::fake_country_name());
    user.postal_code = Some(entropy::fake_zip_code());
    let birth_year = entropy::rand_range_i32(1970, 2000);
    let birth_month = entropy::rand_range_i32(1, 13);
    let birth_day = entropy::rand_range_i32(1, 29);
    user.birth_date = Some(
        CalendarDate { year: birth_year as u16, month: birth_month as u8, day: birth_day as u8 },
    );
    user.marketing_consent = entropy::rand_ratio(1, 2);
    user.account_balance = Some(entropy::rand_range_u64(0, 1000000));
    user.loyalty_points = Some(entropy::rand_range_i32(0, 1000));
    user.preferences = Some("{\"theme\": \"dark\"}".to_owned());
    user.avatar_url = Some("https://example.com/avatar.png".to_owned());

    user
}

/// Generates one synthetic product. The price lands in 10.00 to 999.99
/// units held as cents; every stock-related count is non-negative.
pub fn generate_product_data() -> (p: Product)
    ensures
        generated_product(p),
{
    let name = entropy::fake_company_name();
    let price = entropy::rand_range_u64(1000, 100000);
    let stock_quantity = entropy::rand_range_i32(0, 1000);

    let mut product = Product::new(name, price, stock_quantity);

    product.id = entropy::rand_range_i32(1, 1000000);
    product.description = Some(entropy::fake_paragraph(1, 3));
    product.sku = Some(entropy::fake_isbn());
    product.category = Some(entropy::fake_state_name());
    product.brand = Some(entropy::fake_company_name());
    product.weight = Some(entropy::rand_range_u64(0, 10000));
    let dim_l = entropy::rand_range_u64(10, 100);
    let dim_w = entropy::rand_range_u64(10, 100);
    let dim_h = entropy::rand_range_u64(10, 100);
    let dim_label = entropy::dimensions_label(dim_l, dim_w, dim_h);
    proof {
        assert(is_dimensions_label(dim_label@)) by {
            assert(10 <= dim_l < 100 && 10 <= dim_w < 100 && 10 <= dim_h < 100
                && dim_label@ == crate::text::decimal_digits(dim_l) + "x"@
                + crate::text::decimal_digits(dim_w) + "x"@ + crate::text::decimal_digits(dim_h));
        }
    }
    product.dimensions = Some(dim_label);
    product.color = Some("black".to_owned());
    product.material = Some("plastic".to_owned());
    product.manufacturer = Some(entropy::fake_company_name());
    product.supplier_id = Some(entropy::rand_range_i32(1, 100));
    product.min_stock_level = Some(entropy::rand_range_i32(1, 50));
    product.max_stock_level = Some(entropy::rand_range_i32(100, 200));
    product.reorder_quantity = Some(entropy::rand_range_i32(1, 100));
    product.tax_rate = Some(0);
    product.discount_percentage = Some(0);
    product.rating = Some(entropy::rand_range_u64(0, 501));

    product
}

/// Generates one synthetic order referencing the given user and product.
/// The references are taken as given, so referential validity holds by
/// construction.
pub fn generate_order(user_id: i32, product_id: i32) -> (o: Order)
    ensures
        generated_order(o, user_id, product_id),
{
    let status = if entropy::rand_ratio(4, 5) {
        "completed".to_owned()
    } else {
        "pending".to_owned()
    };
    let payment_method = if entropy::rand_ratio(1, 2) {
        "credit_card".to_owned()
    } else {
        "paypal".to_owned()
    };
    let building = entropy::rand_range_u64(1, 1000);
    let street = entropy::rand_range_u64(1, 100);
    let shipping_address = entropy::street_address(building, street);
    proof {
        assert(is_street_address(shipping_address@)) by {
            assert(1 <= building < 1000 && 1 <= street < 100 && shipping_address@
                == crate::text::decimal_digits(building) + " "@ + crate::text::decimal_digits(
                street,
            ) + " St."@);
        }
    }
    let quantity = entropy::rand_range_i32(1, 10);
    let total_amount = entropy::rand_range_u64(1000, 50000);

    let mut order = Order::new(
        user_id,
        product_id,
        quantity,
        status,
        shipping_address,
        payment_method,
        total_amount,
    );

    order.id = entropy::rand_range_i32(1, 1000000);
    order.discount = entropy::rand_range_u64(0, 5000);
    order.tax = entropy::rand_range_u64(0, 2000);
    let code = entropy::rand_range_u64(1000, 9999);
    let tracking = entropy::tracking_code(code);
    proof {
        assert(is_tracking_code(tracking@)) by {
            assert(1000 <= code < 9999 && tracking@ == "TRACK-"@ + crate::text::decimal_digits(
                code,
            ));
        }
    }
    order.tracking_number = Some(tracking);
    let delivery_days: i64 = entropy::rand_range_i32(1, 10) as i64;
    order.delivery_date = Some(saturating_add_days(order.created_at, delivery_days));
    order.customer_feedback = if entropy::rand_ratio(3, 10) {
        Some("Great service!".to_owned())
    } else {
        None
    };
    order.is_gift = entropy::rand_ratio(1, 5);
    order.gift_message = if entropy::rand_ratio(1, 5) {
        Some("Happy Birthday!".to_owned())
    } else {
        None
    };
    order.order_source = Some(
        if entropy::rand_ratio(1, 2) {
            "website".to_owned()
        } else {
            "mobile_app".to_owned()
        },
    );
    order.order_type = Some(
        if entropy::rand_ratio(1, 2) {
            "regular".to_owned()
        } else {
            "express".to_owned()
        },
    );

    order
}

/// Adds a number of days, as seconds, to a timestamp, saturating at the
/// ends of the i64 range instead of overflowing.
pub fn saturating_add_days(timestamp: i64, days: i64) -> (r: i64)
    requires
        0 <= days <= 1000000,
    ensures
        timestamp + days * 86400 <= i64::MAX ==> r == timestamp + days * 86400,
        timestamp + days * 86400 > i64::MAX ==> r == i64::MAX,
{
    let seconds: i64 = days * 86400;
    if timestamp > i64::MAX - seconds {
        i64::MAX
    } else {
        timestamp + seconds
    }
}

/// Generates one linked triple: a user, a product, and an order whose
/// references are exactly their identifiers, so every generated order
/// refers to the user and product generated in the same cycle. Each entity
/// carries its generator's full guarantee.
pub fn generate_triple() -> (t: (User, Product, Order))
    ensures
        generated_user(t.0),
        generated_product(t.1),
        generated_order(t.2, t.0.id, t.1.id),
        t.2.user_id == t.0.id,
        t.2.product_id == t.1.id,
{
    let user = generate_user();
    let product = generate_product_data();
    let order = generate_order(user.id, product.id);
    (user, product, order)
}

} // verus!
