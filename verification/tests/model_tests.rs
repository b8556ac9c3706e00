use datagen_pipeline::continuous::{order_matches, product_matches, user_matches};
use datagen_pipeline::csv_layout::{order_header, product_header, user_header};
use datagen_pipeline::generators::generate_triple;
use datagen_pipeline::models::{Order, Product, User};
use datagen_pipeline::{BATCH_SIZE, TARGET_SIZE};

#[test]
fn user_new_populates_identity_and_defaults() {
    let u = User::new(
        "alice".to_string(),
        "alice@example.com".to_string(),
        "dummy_hash".to_string(),
    );
    assert_eq!(u.id, 0);
    assert_eq!(u.username, "alice");
    assert_eq!(u.email, "alice@example.com");
    assert_eq!(u.password_hash, "dummy_hash");
    assert!(u.gender.is_none());
    assert!(u.first_name.is_empty());
    assert!(u.last_name.is_empty());
    assert!(u.birth_date.is_none());
    assert!(u.is_active);
    assert!(!u.marketing_consent);
    assert!(u.account_balance.is_none());
    assert_eq!(u.registration_date, u.created_at);
}

#[test]
fn product_new_populates_commerce_fields_and_defaults() {
    let p = Product::new("Widget".to_string(), 19_99, 42);
    assert_eq!(p.id, 0);
    assert_eq!(p.name, "Widget");
    assert_eq!(p.price, 19_99);
    assert_eq!(p.stock_quantity, 42);
    assert!(p.description.is_none());
    assert!(p.sku.is_none());
    assert!(p.is_active);
    assert!(p.tax_rate.is_none());
    assert!(p.rating.is_none());
}

#[test]
fn order_new_populates_transactional_fields_and_defaults() {
    let o = Order::new(
        7,
        9,
        2,
        "completed".to_string(),
        "12 34 St.".to_string(),
        "paypal".to_string(),
        123_45,
    );
    assert_eq!(o.id, 0);
    assert_eq!(o.user_id, 7);
    assert_eq!(o.product_id, 9);
    assert_eq!(o.quantity, 2);
    assert_eq!(o.status, "completed");
    assert_eq!(o.total_amount, 123_45);
    assert_eq!(o.discount, 0);
    assert_eq!(o.tax, 0);
    assert_eq!(o.currency, "USD");
    assert!(!o.is_gift);
    assert!(o.tracking_number.is_none());
    assert_eq!(o.order_date, o.created_at);
    assert_eq!(o.updated_at, o.created_at);
}

#[test]
fn clones_agree_on_every_field() {
    let (user, product, order) = generate_triple();
    assert!(user_matches(&user.clone(), &user));
    assert!(product_matches(&product.clone(), &product));
    assert!(order_matches(&order.clone(), &order));
}

#[test]
fn defaults_match_the_configured_pipeline() {
    assert_eq!(BATCH_SIZE, 1000);
    assert_eq!(TARGET_SIZE, 50 * 1024 * 1024 * 1024);
}

#[test]
fn csv_headers_follow_the_canonical_column_order() {
    assert_eq!(
        user_header(),
        vec![
            "id", "username", "email", "password_hash", "gender", "first_name", "last_name",
            "phone", "address", "city", "country", "postal_code", "birth_date",
            "registration_date", "last_login", "is_active", "account_balance", "loyalty_points",
            "preferences", "avatar_url", "marketing_consent", "created_at",
        ]
    );
    assert_eq!(
        product_header(),
        vec![
            "id", "name", "description", "sku", "price", "stock_quantity", "category", "brand",
            "weight", "dimensions", "color", "material", "manufacturer", "supplier_id",
            "min_stock_level", "max_stock_level", "reorder_quantity", "is_active", "tax_rate",
            "discount_percentage", "rating", "created_at",
        ]
    );
    assert_eq!(
        order_header(),
        vec![
            "id", "user_id", "product_id", "quantity", "order_date", "status",
            "shipping_address", "payment_method", "total_amount", "discount", "tax", "created_at",
            "updated_at", "tracking_number", "delivery_date", "customer_feedback", "is_gift",
            "gift_message", "order_source", "currency", "order_type",
        ]
    );
}
