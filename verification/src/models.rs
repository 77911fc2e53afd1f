//! Failure kinds and enumerated attributes of the surrounding commerce
//! domain. The stores behind them are external collaborators; the core
//! keeps only the flat enumerations their callers match on.

use vstd::prelude::*;

verus! {

/// Failure kinds of the category store.
#[derive(Clone, Copy, Debug, PartialEq, Eq, Structural)]
pub enum CategoryError {
    InternalError,
    NotFound,
    InvalidData,
    CategoryAlreadyExist,
}

/// How a discount reduces an amount.
#[derive(Clone, Copy, Debug, PartialEq, Eq, Structural)]
pub enum DiscountType {
    Percentage,
    FixedAmount,
}

/// Failure kinds of the discount store and rules.
#[derive(Clone, Copy, Debug, PartialEq, Eq, Structural)]
pub enum DiscountError {
    NotFound,
    InvalidData,
    DatabaseError,
    Expired,
    InactiveDiscount,
    UsageLimitReached,
    MinPurchaseNotMet,
}

/// Lifecycle state of an order.
#[derive(Clone, Copy, Debug, PartialEq, Eq, Structural)]
pub enum OrderStatus {
    Pending,
    Processing,
    Shipped,
    Delivered,
    Cancelled,
    Error,
}

impl OrderStatus {
    /// Parse the stored string form of an order status, strictly.
    pub fn from_stored(value: &String) -> (r: Result<OrderStatus, ()>)
        ensures
            r == OrderStatus::from_stored_spec(value@),
    {
        if *value == String::from_str("Pending") {
            Ok(OrderStatus::Pending)
        } else if *value == String::from_str("Processing") {
            Ok(OrderStatus::Processing)
        } else if *value == String::from_str("Shipped") {
            Ok(OrderStatus::Shipped)
        } else if *value == String::from_str("Delivered") {
            Ok(OrderStatus::Delivered)
        } else if *value == String::from_str("Cancelled") {
            Ok(OrderStatus::Cancelled)
        } else if *value == String::from_str("Error") {
            Ok(OrderStatus::Error)
        } else {
            Err(())
        }
    }

    pub open spec fn from_stored_spec(value: Seq<char>) -> Result<OrderStatus, ()> {
        if value == "Pending"@ {
            Ok(OrderStatus::Pending)
        } else if value == "Processing"@ {
            Ok(OrderStatus::Processing)
        } else if value == "Shipped"@ {
            Ok(OrderStatus::Shipped)
        } else if value == "Delivered"@ {
            Ok(OrderStatus::Delivered)
        } else if value == "Cancelled"@ {
            Ok(OrderStatus::Cancelled)
        } else if value == "Error"@ {
            Ok(OrderStatus::Error)
        } else {
            Err(())
        }
    }

    /// The stored string form of this status.
    pub fn as_stored(&self) -> (r: &'static str)
        ensures
            r@ == self.as_stored_spec(),
    {
        match self {
            OrderStatus::Pending => "Pending",
            OrderStatus::Processing => "Processing",
            OrderStatus::Shipped => "Shipped",
            OrderStatus::Delivered => "Delivered",
            OrderStatus::Cancelled => "Cancelled",
            OrderStatus::Error => "Error",
        }
    }

    pub open spec fn as_stored_spec(&self) -> Seq<char> {
        match self {
            OrderStatus::Pending => "Pending"@,
            OrderStatus::Processing => "Processing"@,
            OrderStatus::Shipped => "Shipped"@,
            OrderStatus::Delivered => "Delivered"@,
            OrderStatus::Cancelled => "Cancelled"@,
            OrderStatus::Error => "Error"@,
        }
    }
}

/// Failure kinds of the order store.
#[derive(Clone, Copy, Debug, PartialEq, Eq, Structural)]
pub enum OrderError {
    NotFound,
    InvalidData,
    DatabaseError,
    Conflict,
    InvalidStatusTransition,
}

/// Failure kinds of the product store.
#[derive(Clone, Copy, Debug, PartialEq, Eq, Structural)]
pub enum ProductError {
    InternalError,
    NotFound,
    InvalidData,
    InvalidCategory,
    PermissionDenied,
}

/// Failure kinds of the product-category association store.
#[derive(Clone, Copy, Debug, PartialEq, Eq, Structural)]
pub enum ProductCategoryError {
    NotFound,
    InvalidData,
    DatabaseError,
    Conflict,
    ProductNotFound,
    CategoryNotFound,
}

/// Failure kinds of the cart store.
#[derive(Clone, Copy, Debug, PartialEq, Eq, Structural)]
pub enum CartError {
    NotFound,
    InvalidData,
    DatabaseError,
    Conflict,
    InvalidQuantity,
}

} // verus!
