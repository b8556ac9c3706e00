use datagen_pipeline::generators::{generate_order, generate_product_data, generate_triple, generate_user};
use datagen_pipeline::models::{Order, Product, User};

fn assert_user_valid(u: &User) {
    assert!(1 <= u.id && u.id < 1_000_000);
    let gender = u.gender.as_deref().expect("gender populated");
    assert!(["Male", "Female", "Other"].contains(&gender));
    assert!(!u.first_name.is_empty());
    assert!(!u.last_name.is_empty());
    assert_eq!(u.password_hash, "dummy_hash");
    assert_eq!(u.preferences.as_deref(), Some("{\"theme\": \"dark\"}"));
    assert_eq!(u.avatar_url.as_deref(), Some("https://example.com/avatar.png"));
    let d = u.birth_date.expect("birth date populated");
    assert!(1970 <= d.year && d.year < 2000);
    assert!(1 <= d.month && d.month < 13);
    assert!(1 <= d.day && d.day < 29);
    let balance = u.account_balance.expect("balance populated");
    assert!(balance < 1_000_000);
    let points = u.loyalty_points.expect("points populated");
    assert!((0..1000).contains(&points));
    assert!(u.is_active);
    assert_eq!(u.registration_date, u.created_at);
}

fn assert_product_valid(p: &Product) {
    assert!(1 <= p.id && p.id < 1_000_000);
    assert!(1000 <= p.price && p.price < 100_000);
    assert!((0..1000).contains(&p.stock_quantity));
    assert!((1..100).contains(&p.supplier_id.expect("supplier populated")));
    assert!((1..50).contains(&p.min_stock_level.expect("min stock populated")));
    assert!((100..200).contains(&p.max_stock_level.expect("max stock populated")));
    assert!((1..100).contains(&p.reorder_quantity.expect("reorder populated")));
    let dims = p.dimensions.as_deref().expect("dimensions populated");
    let sides: Vec<u64> = dims.split('x').map(|part| part.parse().expect("numeric side")).collect();
    assert_eq!(sides.len(), 3);
    for side in sides {
        assert!((10..100).contains(&side));
    }
    assert_eq!(p.tax_rate, Some(0));
    assert_eq!(p.discount_percentage, Some(0));
    assert!(p.rating.expect("rating populated") <= 500);
    assert!(p.weight.expect("weight populated") < 10_000);
    assert!(p.is_active);
}

fn assert_order_valid(o: &Order) {
    assert!(1 <= o.id && o.id < 1_000_000);
    assert!((1..10).contains(&o.quantity));
    assert!(o.status == "completed" || o.status == "pending");
    assert!(o.payment_method == "credit_card" || o.payment_method == "paypal");
    assert!(1000 <= o.total_amount && o.total_amount < 50_000);
    assert!(o.discount < 5_000);
    assert!(o.tax < 2_000);
    assert_eq!(o.currency, "USD");
    let tracking = o.tracking_number.as_deref().expect("tracking populated");
    let suffix = tracking.strip_prefix("TRACK-").expect("fixed prefix");
    let code: u64 = suffix.parse().expect("numeric tracking code");
    assert!((1000..9999).contains(&code));
    let street = o.shipping_address.strip_suffix(" St.").expect("street suffix");
    let numbers: Vec<u64> =
        street.split(' ').map(|part| part.parse().expect("numeric address part")).collect();
    assert_eq!(numbers.len(), 2);
    assert!((1..1000).contains(&numbers[0]));
    assert!((1..100).contains(&numbers[1]));
    let delivery = o.delivery_date.expect("delivery date populated");
    assert!(o.order_date < delivery);
    assert!(delivery <= o.order_date + 9 * 86400);
    let source = o.order_source.as_deref().expect("order source populated");
    assert!(["website", "mobile_app"].contains(&source));
    let kind = o.order_type.as_deref().expect("order type populated");
    assert!(["regular", "express"].contains(&kind));
    if let Some(feedback) = o.customer_feedback.as_deref() {
        assert_eq!(feedback, "Great service!");
    }
    assert_eq!(o.order_date, o.created_at);
    assert_eq!(o.updated_at, o.created_at);
}

#[test]
fn order_references_the_cycles_user_and_product() {
    for _ in 0..50 {
        let (user, product, order) = generate_triple();
        assert_eq!(order.user_id, user.id);
        assert_eq!(order.product_id, product.id);
    }
}

#[test]
fn generated_numeric_fields_are_non_negative_and_in_range() {
    for _ in 0..50 {
        let user = generate_user();
        assert_user_valid(&user);
        let product = generate_product_data();
        assert_product_valid(&product);
        let order = generate_order(user.id, product.id);
        assert_order_valid(&order);
        assert!(product.stock_quantity >= 0);
        assert!(order.quantity >= 0);
    }
}

#[test]
fn rerun_is_structurally_valid_without_byte_identity() {
    // Two runs with the same configuration: each must be structurally valid
    // on its own; nothing is asserted about the runs producing identical
    // values, since generation is randomized.
    let first: Vec<(User, Product, Order)> = (0..20).map(|_| generate_triple()).collect();
    let second: Vec<(User, Product, Order)> = (0..20).map(|_| generate_triple()).collect();
    for (u, p, o) in first.iter().chain(second.iter()) {
        assert_user_valid(u);
        assert_product_valid(p);
        assert_order_valid(o);
        assert_eq!(o.user_id, u.id);
        assert_eq!(o.product_id, p.id);
    }
}
