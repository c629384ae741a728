//! Shop management: creating and editing items.
use vstd::prelude::*;

use super::errors::{is_validation_failure, validation_failed, AdminError};

verus! {

pub struct CreateShopItemRequest {
    pub category: String,
    pub name: String,
    pub description: Option<String>,
    pub image_url: String,
    pub price_coins: i64,
    pub is_limited_edition: bool,
    pub available_from: Option<String>,
    pub available_until: Option<String>,
}

/// Fields left `None` keep their value.
pub struct UpdateShopItemRequest {
    pub name: Option<String>,
    pub description: Option<String>,
    pub price_coins: Option<i64>,
    pub is_active: Option<bool>,
    pub available_from: Option<String>,
    pub available_until: Option<String>,
}

pub struct ShopItemPopularityRow {
    pub id: String,
    pub name: String,
    pub category: String,
    pub purchase_count: i64,
}

pub open spec fn is_shop_category(c: Seq<char>) -> bool {
    c == "board"@ || c == "piece_set"@ || c == "avatar"@ || c == "banner"@ || c == "gift"@
}

/// A new item needs a known category and a price of zero or more coins.
pub fn validate_new_item(req: &CreateShopItemRequest) -> (r: Result<(), AdminError>)
    ensures
        !is_shop_category(req.category@) ==> is_validation_failure(r, "Invalid category."@),
        is_shop_category(req.category@) && req.price_coins < 0 ==> is_validation_failure(
            r,
            "Price cannot be negative."@,
        ),
        is_shop_category(req.category@) && req.price_coins >= 0 ==> r is Ok,
{
    let c = req.category.as_str();
    if !(c.eq("board") || c.eq("piece_set") || c.eq("avatar") || c.eq("banner") || c.eq("gift")) {
        return Err(validation_failed("Invalid category."));
    }
    if req.price_coins < 0 {
        return Err(validation_failed("Price cannot be negative."));
    }
    Ok(())
}

} // verus!
