//! The canonical column order of the three file sinks: one header row per
//! entity kind, fixed for the life of a run. The file I/O that writes these
//! rows lives outside the library; the order itself is contract here.

use vstd::prelude::*;

verus! {

/// The user sink's header row, in canonical order.
pub fn user_header() -> (h: Vec<&'static str>)
    ensures
        h@.len() == 22,
        h@[0]@ == "id"@,
        h@[1]@ == "username"@,
        h@[2]@ == "email"@,
        h@[3]@ == "password_hash"@,
        h@[4]@ == "gender"@,
        h@[5]@ == "first_name"@,
        h@[6]@ == "last_name"@,
        h@[7]@ == "phone"@,
        h@[8]@ == "address"@,
        h@[9]@ == "city"@,
        h@[10]@ == "country"@,
        h@[11]@ == "postal_code"@,
        h@[12]@ == "birth_date"@,
        h@[13]@ == "registration_date"@,
        h@[14]@ == "last_login"@,
        h@[15]@ == "is_active"@,
        h@[16]@ == "account_balance"@,
        h@[17]@ == "loyalty_points"@,
        h@[18]@ == "preferences"@,
        h@[19]@ == "avatar_url"@,
        h@[20]@ == "marketing_consent"@,
        h@[21]@ == "created_at"@,
{
    let h: Vec<&'static str> = vec![
        "id",
        "username",
        "email",
        "password_hash",
        "gender",
        "first_name",
        "last_name",
        "phone",
        "address",
        "city",
        "country",
        "postal_code",
        "birth_date",
        "registration_date",
        "last_login",
        "is_active",
        "account_balance",
        "loyalty_points",
        "preferences",
        "avatar_url",
        "marketing_consent",
        "created_at",
    ];
    h
}

/// The product sink's header row, in canonical order.
pub fn product_header() -> (h: Vec<&'static str>)
    ensures
        h@.len() == 22,
        h@[0]@ == "id"@,
        h@[1]@ == "name"@,
        h@[2]@ == "description"@,
        h@[3]@ == "sku"@,
        h@[4]@ == "price"@,
        h@[5]@ == "stock_quantity"@,
        h@[6]@ == "category"@,
        h@[7]@ == "brand"@,
        h@[8]@ == "weight"@,
        h@[9]@ == "dimensions"@,
        h@[10]@ == "color"@,
        h@[11]@ == "material"@,
        h@[12]@ == "manufacturer"@,
        h@[13]@ == "supplier_id"@,
        h@[14]@ == "min_stock_level"@,
        h@[15]@ == "max_stock_level"@,
        h@[16]@ == "reorder_quantity"@,
        h@[17]@ == "is_active"@,
        h@[18]@ == "tax_rate"@,
        h@[19]@ == "discount_percentage"@,
        h@[20]@ == "rating"@,
        h@[21]@ == "created_at"@,
{
    let h: Vec<&'static str> = vec![
        "id",
        "name",
        "description",
        "sku",
        "price",
        "stock_quantity",
        "category",
        "brand",
        "weight",
        "dimensions",
        "color",
        "material",
        "manufacturer",
        "supplier_id",
        "min_stock_level",
        "max_stock_level",
        "reorder_quantity",
        "is_active",
        "tax_rate",
        "discount_percentage",
        "rating",
        "created_at",
    ];
    h
}

/// The order sink's header row, in canonical order.
pub fn order_header() -> (h: Vec<&'static str>)
    ensures
        h@.len() == 21,
        h@[0]@ == "id"@,
        h@[1]@ == "user_id"@,
        h@[2]@ == "product_id"@,
        h@[3]@ == "quantity"@,
        h@[4]@ == "order_date"@,
        h@[5]@ == "status"@,
        h@[6]@ == "shipping_address"@,
        h@[7]@ == "payment_method"@,
        h@[8]@ == "total_amount"@,
        h@[9]@ == "discount"@,
        h@[10]@ == "tax"@,
        h@[11]@ == "created_at"@,
        h@[12]@ == "updated_at"@,
        h@[13]@ == "tracking_number"@,
        h@[14]@ == "delivery_date"@,
        h@[15]@ == "customer_feedback"@,
        h@[16]@ == "is_gift"@,
        h@[17]@ == "gift_message"@,
        h@[18]@ == "order_source"@,
        h@[19]@ == "currency"@,
        h@[20]@ == "order_type"@,
{
    let h: Vec<&'static str> = vec![
        "id",
        "user_id",
        "product_id",
        "quantity",
        "order_date",
        "status",
        "shipping_address",
        "payment_method",
        "total_amount",
        "discount",
        "tax",
        "created_at",
        "updated_at",
        "tracking_number",
        "delivery_date",
        "customer_feedback",
        "is_gift",
        "gift_message",
        "order_source",
        "currency",
        "order_type",
    ];
    h
}

} // verus!
