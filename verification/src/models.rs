//! The three entity kinds and their invariants. Times are whole seconds
//! since the Unix epoch; monetary amounts are integer cents, weights are
//! hundredths of a unit, ratings and percentages are hundredths of a point,
//! so that every numeric field is exact.

use vstd::prelude::*;
use crate::entropy;

verus! {

/// A calendar date held as plain year, month and day numbers.
#[derive(Clone, Copy, PartialEq, Eq, Structural, Debug)]
pub struct CalendarDate {
    pub year: u16,
    pub month: u8,
    pub day: u8,
}

impl CalendarDate {
    /// A plausible calendar date: month and day in their calendar ranges.
    pub open spec fn wf(self) -> bool {
        &&& 1 <= self.month <= 12
        &&& 1 <= self.day <= 31
    }
}

/// A synthetic account holder.
#[derive(Debug)]
pub struct User {
    pub id: i32,
    pub username: String,
    pub email: String,
    pub password_hash: String,
    pub gender: Option<String>,
    pub first_name: String,
    pub last_name: String,
    pub phone: Option<String>,
    pub address: Option<String>,
    pub city: Option<String>,
    pub country: Option<String>,
    pub postal_code: Option<String>,
    pub birth_date: Option<CalendarDate>,
    pub registration_date: i64,
    pub last_login: Option<i64>,
    pub is_active: bool,
    pub account_balance: Option<u64>,
    pub loyalty_points: Option<i32>,
    pub preferences: Option<String>,
    pub avatar_url: Option<String>,
    pub marketing_consent: bool,
    pub created_at: i64,
}

/// The User invariant: declared-non-negative numbers are non-negative and
/// an optional birth date is a plausible calendar date.
pub open spec fn user_wf(u: User) -> bool {
    &&& match u.loyalty_points {
        Some(p) => p >= 0,
        None => true,
    }
    &&& match u.birth_date {
        Some(d) => d.wf(),
        None => true,
    }
}

impl User {
    /// Builds a user from its identity fields alone; every other field takes
    /// its default, and the registration and creation timestamps are the same
    /// single draw of the clock.
    pub fn new(username: String, email: String, password_hash: String) -> (u: User)
        ensures
            u.id == 0,
            u.username@ == username@,
            u.email@ == email@,
            u.password_hash@ == password_hash@,
            u.gender is None,
            u.first_name@.len() == 0,
            u.last_name@.len() == 0,
            u.phone is None,
            u.address is None,
            u.city is None,
            u.country is None,
            u.postal_code is None,
            u.birth_date is None,
            u.registration_date == u.created_at,
            u.last_login is None,
            u.is_active,
            u.account_balance is None,
            u.loyalty_points is None,
            u.preferences is None,
            u.avatar_url is None,
            !u.marketing_consent,
            user_wf(u),
    {
        let now = entropy::now_timestamp();
        User {
            id: 0,
            username,
            email,
            password_hash,
            gender: None,
            first_name: String::new(),
            last_name: String::new(),
            phone: None,
            address: None,
            city: None,
            country: None,
            postal_code: None,
            birth_date: None,
            registration_date: now,
            last_login: None,
            is_active: true,
            account_balance: None,
            loyalty_points: None,
            preferences: None,
            avatar_url: None,
            marketing_consent: false,
            created_at: now,
        }
    }
}

impl Clone for User {
    fn clone(&self) -> (res: Self)
        ensures
            res == *self,
    {
        User {
            id: self.id,
            username: self.username.clone(),
            email: self.email.clone(),
            password_hash: self.password_hash.clone(),
            gender: clone_opt_string(&self.gender),
            first_name: self.first_name.clone(),
            last_name: self.last_name.clone(),
            phone: clone_opt_string(&self.phone),
            address: clone_opt_string(&self.address),
            city: clone_opt_string(&self.city),
            country: clone_opt_string(&self.country),
            postal_code: clone_opt_string(&self.postal_code),
            birth_date: self.birth_date,
            registration_date: self.registration_date,
            last_login: self.last_login,
            is_active: self.is_active,
            account_balance: self.account_balance,
            loyalty_points: self.loyalty_points,
            preferences: clone_opt_string(&self.preferences),
            avatar_url: clone_opt_string(&self.avatar_url),
            marketing_consent: self.marketing_consent,
            created_at: self.created_at,
        }
    }
}

/// Clones an optional string, keeping its value.
pub fn clone_opt_string(s: &Option<String>) -> (res: Option<String>)
    ensures
        res == *s,
{
    match s {
        Some(v) => Some(v.clone()),
        None => None,
    }
}

/// A synthetic catalogue item. `price` is integer cents, `weight` hundredths
/// of a weight unit, `tax_rate`, `discount_percentage` and `rating`
/// hundredths of a point.
#[derive(Debug)]
pub struct Product {
    pub id: i32,
    pub name: String,
    pub description: Option<String>,
    pub sku: Option<String>,
    pub price: u64,
    pub stock_quantity: i32,
    pub category: Option<String>,
    pub brand: Option<String>,
    pub weight: Option<u64>,
    pub dimensions: Option<String>,
    pub color: Option<String>,
    pub material: Option<String>,
    pub manufacturer: Option<String>,
    pub supplier_id: Option<i32>,
    pub min_stock_level: Option<i32>,
    pub max_stock_level: Option<i32>,
    pub reorder_quantity: Option<i32>,
    pub is_active: bool,
    pub tax_rate: Option<u64>,
    pub discount_percentage: Option<u64>,
    pub rating: Option<u64>,
    pub created_at: i64,
}

/// The Product invariant: the stock count and every optional stock-related
/// count are non-negative. The price is non-negative by type.
pub open spec fn product_wf(p: Product) -> bool {
    &&& p.stock_quantity >= 0
    &&& match p.supplier_id {
        Some(s) => s >= 0,
        None => true,
    }
    &&& match p.min_stock_level {
        Some(s) => s >= 0,
        None => true,
    }
    &&& match p.max_stock_level {
        Some(s) => s >= 0,
        None => true,
    }
    &&& match p.reorder_quantity {
        Some(s) => s >= 0,
        None => true,
    }
}

impl Product {
    /// Builds a product from its name, price in cents and stock count; every
    /// other field takes its default and the creation timestamp is drawn once.
    pub fn new(name: String, price: u64, stock_quantity: i32) -> (p: Product)
        requires
            stock_quantity >= 0,
        ensures
            p.id == 0,
            p.name@ == name@,
            p.description is None,
            p.sku is None,
            p.price == price,
            p.stock_quantity == stock_quantity,
            p.category is None,
            p.brand is None,
            p.weight is None,
            p.dimensions is None,
            p.color is None,
            p.material is None,
            p.manufacturer is None,
            p.supplier_id is None,
            p.min_stock_level is None,
            p.max_stock_level is None,
            p.reorder_quantity is None,
            p.is_active,
            p.tax_rate is None,
            p.discount_percentage is None,
            p.rating is None,
            product_wf(p),
    {
        let now = entropy::now_timestamp();
        Product {
            id: 0,
            name,
            description: None,
            sku: None,
            price,
            stock_quantity,
            category: None,
            brand: None,
            weight: None,
            dimensions: None,
            color: None,
            material: None,
            manufacturer: None,
            supplier_id: None,
            min_stock_level: None,
            max_stock_level: None,
            reorder_quantity: None,
            is_active: true,
            tax_rate: None,
            discount_percentage: None,
            rating: None,
            created_at: now,
        }
    }
}

impl Clone for Product {
    fn clone(&self) -> (res: Self)
        ensures
            res == *self,
    {
        Product {
            id: self.id,
            name: self.name.clone(),
            description: clone_opt_string(&self.description),
            sku: clone_opt_string(&self.sku),
            price: self.price,
            stock_quantity: self.stock_quantity,
            category: clone_opt_string(&self.category),
            brand: clone_opt_string(&self.brand),
            weight: self.weight,
            dimensions: clone_opt_string(&self.dimensions),
            color: clone_opt_string(&self.color),
            material: clone_opt_string(&self.material),
            manufacturer: clone_opt_string(&self.manufacturer),
            supplier_id: self.supplier_id,
            min_stock_level: self.min_stock_level,
            max_stock_level: self.max_stock_level,
            reorder_quantity: self.reorder_quantity,
            is_active: self.is_active,
            tax_rate: self.tax_rate,
            discount_percentage: self.discount_percentage,
            rating: self.rating,
            created_at: self.created_at,
        }
    }
}

/// A synthetic purchase tying a user to a product. `total_amount`,
/// `discount` and `tax` are integer cents.
#[derive(Debug)]
pub struct Order {
    pub id: i32,
    pub user_id: i32,
    pub product_id: i32,
    pub quantity: i32,
    pub order_date: i64,
    pub status: String,
    pub shipping_address: String,
    pub payment_method: String,
    pub total_amount: u64,
    pub discount: u64,
    pub tax: u64,
    pub created_at: i64,
    pub updated_at: i64,
    pub tracking_number: Option<String>,
    pub delivery_date: Option<i64>,
    pub customer_feedback: Option<String>,
    pub is_gift: bool,
    pub gift_message: Option<String>,
    pub order_source: Option<String>,
    pub currency: String,
    pub order_type: Option<String>,
}

/// The Order invariant: the quantity is non-negative. The monetary fields
/// are non-negative by type.
pub open spec fn order_wf(o: Order) -> bool {
    o.quantity >= 0
}

impl Order {
    /// Builds an order from its transactional fields; the identifier is left
    /// to the store, the discount and tax start at zero, the currency is USD,
    /// and the order, creation and update timestamps are the same single draw
    /// of the clock.
    pub fn new(
        user_id: i32,
        product_id: i32,
        quantity: i32,
        status: String,
        shipping_address: String,
        payment_method: String,
        total_amount: u64,
    ) -> (o: Order)
        requires
            quantity >= 0,
        ensures
            o.id == 0,
            o.user_id == user_id,
            o.product_id == product_id,
            o.quantity == quantity,
            o.order_date == o.created_at,
            o.updated_at == o.created_at,
            o.status@ == status@,
            o.shipping_address@ == shipping_address@,
            o.payment_method@ == payment_method@,
            o.total_amount == total_amount,
            o.discount == 0,
            o.tax == 0,
            o.tracking_number is None,
            o.delivery_date is None,
            o.customer_feedback is None,
            !o.is_gift,
            o.gift_message is None,
            o.order_source is None,
            o.currency@ == "USD"@,
            o.order_type is None,
            order_wf(o),
    {
        let now = entropy::now_timestamp();
        Order {
            id: 0,
            user_id,
            product_id,
            quantity,
            order_date: now,
            status,
            shipping_address,
            payment_method,
            total_amount,
            discount: 0,
            tax: 0,
            created_at: now,
            updated_at: now,
            tracking_number: None,
            delivery_date: None,
            customer_feedback: None,
            is_gift: false,
            gift_message: None,
            order_source: None,
            currency: "USD".to_owned(),
            order_type: None,
        }
    }
}

impl Clone for Order {
    fn clone(&self) -> (res: Self)
        ensures
            res == *self,
    {
        Order {
            id: self.id,
            user_id: self.user_id,
            product_id: self.product_id,
            quantity: self.quantity,
            order_date: self.order_date,
            status: self.status.clone(),
            shipping_address: self.shipping_address.clone(),
            payment_method: self.payment_method.clone(),
            total_amount: self.total_amount,
            discount: self.discount,
            tax: self.tax,
            created_at: self.created_at,
            updated_at: self.updated_at,
            tracking_number: clone_opt_string(&self.tracking_number),
            delivery_date: self.delivery_date,
            customer_feedback: clone_opt_string(&self.customer_feedback),
            is_gift: self.is_gift,
            gift_message: clone_opt_string(&self.gift_message),
            order_source: clone_opt_string(&self.order_source),
            currency: self.currency.clone(),
            order_type: clone_opt_string(&self.order_type),
        }
    }
}

} // verus!
