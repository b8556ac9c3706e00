use datagen_pipeline::continuous::{
    check_round_trip, continuous_tick, order_matches, product_matches, user_matches, TickOutcome,
};
use datagen_pipeline::db::{Database, QueryError};
use datagen_pipeline::generators::generate_triple;

#[test]
fn insert_then_query_returns_the_inserted_triple() {
    let mut db = Database::new();
    let (user, product, order) = generate_triple();
    db.insert_users(&[user.clone()]);
    db.insert_products(&[product.clone()]);
    db.insert_orders(&[order.clone()]);

    let (qu, qp, qo) = db.query_joined_data(order.id).expect("joined row present");
    assert!(user_matches(&qu, &user));
    assert!(product_matches(&qp, &product));
    assert!(order_matches(&qo, &order));
}

#[test]
fn query_for_missing_order_id_yields_not_found() {
    let db = Database::new();
    assert!(matches!(db.query_joined_data(42), Err(QueryError::NotFound)));

    let mut db = Database::new();
    let (user, product, order) = generate_triple();
    db.insert_users(&[user]);
    db.insert_products(&[product]);
    db.insert_orders(&[order]);
    // Generated ids are at least 1, so id 0 is never present.
    assert!(matches!(db.query_joined_data(0), Err(QueryError::NotFound)));
}

#[test]
fn single_tick_round_trip_matches_what_was_inserted() {
    let mut db = Database::new();
    // The store is empty, so the drawn ids are certainly fresh and the
    // tick's own round-trip verification must report a match.
    let report = continuous_tick(&mut db);
    assert_eq!(report.outcome, TickOutcome::Match);
    assert_eq!(report.order.user_id, report.user.id);
    assert_eq!(report.order.product_id, report.product.id);
    assert_eq!(db.users.len(), 1);
    assert_eq!(db.products.len(), 1);
    assert_eq!(db.orders.len(), 1);
}

#[test]
fn check_round_trip_classifies_each_outcome() {
    let (user, product, order) = generate_triple();

    let ok = Ok((user.clone(), product.clone(), order.clone()));
    assert_eq!(check_round_trip(&user, &product, &order, &ok), TickOutcome::Match);

    let missing: Result<_, QueryError> = Err(QueryError::NotFound);
    assert_eq!(check_round_trip(&user, &product, &order, &missing), TickOutcome::NotFound);

    let mut diverged = order.clone();
    diverged.total_amount += 1;
    let wrong = Ok((user.clone(), product.clone(), diverged));
    assert_eq!(check_round_trip(&user, &product, &order, &wrong), TickOutcome::JoinMismatch);
}

#[test]
fn join_returns_the_first_row_for_a_duplicated_id() {
    let mut db = Database::new();
    let (mut older_user, product, mut order) = generate_triple();
    older_user.id = 7;
    order.id = 5;
    order.user_id = 7;
    order.product_id = product.id;
    let mut newer_user = older_user.clone();
    newer_user.username = "someone_else".to_string();

    db.insert_users(&[older_user.clone(), newer_user.clone()]);
    db.insert_products(&[product.clone()]);
    db.insert_orders(&[order.clone()]);

    let (qu, qp, qo) = db.query_joined_data(5).expect("joined row present");
    // Both users carry id 7; the join's first row holds the older one.
    assert!(user_matches(&qu, &older_user));
    assert!(!user_matches(&qu, &newer_user));
    assert!(product_matches(&qp, &product));
    assert!(order_matches(&qo, &order));
}

#[test]
fn batch_inserts_append_in_order() {
    let mut db = Database::new();
    let (u1, p1, o1) = generate_triple();
    let (u2, p2, o2) = generate_triple();
    db.insert_users(&[u1.clone(), u2.clone()]);
    db.insert_products(&[p1.clone(), p2.clone()]);
    db.insert_orders(&[o1.clone(), o2.clone()]);
    assert_eq!(db.users.len(), 2);
    assert_eq!(db.products.len(), 2);
    assert_eq!(db.orders.len(), 2);
    assert!(user_matches(&db.users[0], &u1));
    assert!(user_matches(&db.users[1], &u2));
    assert!(order_matches(&db.orders[1], &o2));
    assert!(product_matches(&db.products[1], &p2));
}
