//! The order resource: how it is stored, how it is answered, and the
//! requests that create and change it.
use vstd::prelude::*;

verus! {

/// Where an order stands.
#[derive(Debug, Clone, Copy, PartialEq, Eq)]
pub enum OrderStatus {
    Uncommented,
    Commented,
    CommentRevealed,
    Reimbursed,
}

/// An order as the database keeps it.
#[derive(Debug, PartialEq)]
pub struct OrderEntity {
    pub id: String,
    pub user_id: String,
    pub order_number: String,
    pub product_name: String,
    pub order_date: String,
    pub product_image: String,
    pub price: String,
    pub status: OrderStatus,
    pub note: Option<String>,
    pub updated_at: Option<String>,
    pub created_at: Option<String>,
    pub deleted_at: Option<String>,
}

/// An order as the API answers it.
#[derive(Debug, PartialEq)]
pub struct Order {
    pub id: String,
    pub user_id: String,
    pub order_number: String,
    pub product_name: String,
    pub order_date: String,
    pub product_image: String,
    pub price: String,
    pub status: OrderStatus,
    pub note: Option<String>,
    pub updated_at: Option<String>,
    pub created_at: Option<String>,
    pub deleted_at: Option<String>,
}

/// A request to create an order; the owner comes from the session.
#[derive(Debug, PartialEq)]
pub struct CreateOrderRequest {
    pub id: String,
    pub order_number: String,
    pub product_name: String,
    pub order_date: String,
    pub product_image: String,
    pub price: String,
    pub status: OrderStatus,
    pub note: Option<String>,
    pub updated_at: Option<String>,
    pub created_at: Option<String>,
    pub deleted_at: Option<String>,
}

/// A request to change some fields of an order.
#[derive(Debug, PartialEq)]
pub struct UpdateOrderRequest {
    pub status: Option<OrderStatus>,
    pub note: Option<String>,
    pub updated_at: Option<String>,
    pub deleted_at: Option<String>,
}

/// The answer for a stored order: the same fields.
pub open spec fn order_of(e: OrderEntity) -> Order {
    Order {
        id: e.id,
        user_id: e.user_id,
        order_number: e.order_number,
        product_name: e.product_name,
        order_date: e.order_date,
        product_image: e.product_image,
        price: e.price,
        status: e.status,
        note: e.note,
        updated_at: e.updated_at,
        created_at: e.created_at,
        deleted_at: e.deleted_at,
    }
}

impl From<OrderEntity> for Order {
    fn from(e: OrderEntity) -> (r: Order) {
        Order {
            id: e.id,
            user_id: e.user_id,
            order_number: e.order_number,
            product_name: e.product_name,
            order_date: e.order_date,
            product_image: e.product_image,
            price: e.price,
            status: e.status,
            note: e.note,
            updated_at: e.updated_at,
            created_at: e.created_at,
            deleted_at: e.deleted_at,
        }
    }
}

impl vstd::std_specs::convert::FromSpecImpl<OrderEntity> for Order {
    open spec fn obeys_from_spec() -> bool {
        true
    }

    open spec fn from_spec(e: OrderEntity) -> Order {
        order_of(e)
    }
}

impl CreateOrderRequest {
    /// The stored order for this request, owned by `user_id`.
    pub fn into_entity(self, user_id: String) -> (r: OrderEntity)
        ensures
            r == (OrderEntity {
                id: self.id,
                user_id,
                order_number: self.order_number,
                product_name: self.product_name,
                order_date: self.order_date,
                product_image: self.product_image,
                price: self.price,
                status: self.status,
                note: self.note,
                updated_at: self.updated_at,
                created_at: self.created_at,
                deleted_at: self.deleted_at,
            }),
    {
        OrderEntity {
            id: self.id,
            user_id,
            order_number: self.order_number,
            product_name: self.product_name,
            order_date: self.order_date,
            product_image: self.product_image,
            price: self.price,
            status: self.status,
            note: self.note,
            updated_at: self.updated_at,
            created_at: self.created_at,
            deleted_at: self.deleted_at,
        }
    }
}

} // verus!
