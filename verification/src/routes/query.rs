//! What the listings read from their query strings: the order, the column
//! to sort by, and the page.

use vstd::prelude::*;
use vstd::string::*;
use crate::text::same_text;

verus! {

/// The direction of a listing.
#[derive(Clone, Copy, PartialEq, Eq, Debug, Structural)]
pub enum Order {
    Asc,
    Desc,
}

/// The content of an optional text.
pub open spec fn asked(text: Option<&str>) -> Option<Seq<char>> {
    match text {
        Some(t) => Some(t@),
        None => None,
    }
}

/// Whether a parameter was given and reads as `word`.
pub open spec fn says(text: Option<Seq<char>>, word: Seq<char>) -> bool {
    text == Some(word)
}

/// Whether a parameter was given and reads as `word`.
pub fn reads_as(text: Option<&str>, word: &str) -> (same: bool)
    ensures
        same == says(asked(text), word@),
{
    match text {
        Some(t) => same_text(t, word),
        None => false,
    }
}

/// The direction that a listing was asked for: descending where `order` is
/// `desc`, ascending otherwise.
pub fn sort_order(order: Option<&str>) -> (direction: Order)
    ensures
        direction == (if says(asked(order), "desc"@) {
            Order::Desc
        } else {
            Order::Asc
        }),
{
    if reads_as(order, "desc") {
        Order::Desc
    } else {
        Order::Asc
    }
}

/// The rows of a page: how many, and how many before them.
#[derive(Clone, Copy, PartialEq, Eq, Debug, Structural)]
pub struct Window {
    pub limit: u64,
    pub offset: u64,
}

/// The number of the page that is shown where none is asked for.
pub const FIRST_PAGE: u64 = 1;

/// The size of a page where none is asked for.
pub const PAGE_SIZE: u64 = 10;

/// The page that was asked for.
pub open spec fn page_of(page: Option<u64>) -> u64 {
    match page {
        Some(p) => p,
        None => FIRST_PAGE,
    }
}

/// The page size that was asked for.
pub open spec fn size_of(page_size: Option<u64>) -> u64 {
    match page_size {
        Some(s) => s,
        None => PAGE_SIZE,
    }
}

/// The rows of the page that was asked for. Pages are counted from 1; there
/// is no page 0, and no page whose first row cannot be numbered.
pub open spec fn window_of(page: Option<u64>, page_size: Option<u64>) -> Option<Window> {
    let p = page_of(page);
    let s = size_of(page_size);
    if p >= 1 && (p - 1) * s <= u64::MAX {
        Some(Window { limit: s, offset: ((p - 1) * s) as u64 })
    } else {
        None
    }
}

/// The rows of the page that was asked for, or `None` where there is no
/// such page.
pub fn page_window(page: Option<u64>, page_size: Option<u64>) -> (window: Option<Window>)
    ensures
        window == window_of(page, page_size),
{
    let p: u64 = match page {
        Some(p) => p,
        None => FIRST_PAGE,
    };
    let s: u64 = match page_size {
        Some(s) => s,
        None => PAGE_SIZE,
    };
    if p < 1 {
        return None;
    }
    match (p - 1).checked_mul(s) {
        Some(offset) => Some(Window { limit: s, offset }),
        None => None,
    }
}

/// A column by which users are listed.
#[derive(Clone, Copy, PartialEq, Eq, Debug, Structural)]
pub enum UserColumn {
    Id,
    Username,
    Role,
}

/// The column by which users are listed: `username` or `role` where asked
/// for, the identifier otherwise.
pub fn user_column(sort_by: Option<&str>) -> (column: UserColumn)
    ensures
        column == (if says(asked(sort_by), "username"@) {
            UserColumn::Username
        } else if says(asked(sort_by), "role"@) {
            UserColumn::Role
        } else {
            UserColumn::Id
        }),
{
    if reads_as(sort_by, "username") {
        UserColumn::Username
    } else if reads_as(sort_by, "role") {
        UserColumn::Role
    } else {
        UserColumn::Id
    }
}

/// A column by which categories are listed.
#[derive(Clone, Copy, PartialEq, Eq, Debug, Structural)]
pub enum CategoryColumn {
    Id,
    Name,
    ImageId,
    IsAvailable,
    IsFeatured,
}

/// The column by which categories are listed for an administrator: the one
/// asked for by name, the identifier otherwise.
pub fn category_column(sort_by: Option<&str>) -> (column: CategoryColumn)
    ensures
        column == (if says(asked(sort_by), "name"@) {
            CategoryColumn::Name
        } else if says(asked(sort_by), "image_id"@) {
            CategoryColumn::ImageId
        } else if says(asked(sort_by), "is_available"@) {
            CategoryColumn::IsAvailable
        } else if says(asked(sort_by), "is_featured"@) {
            CategoryColumn::IsFeatured
        } else {
            CategoryColumn::Id
        }),
{
    if reads_as(sort_by, "name") {
        CategoryColumn::Name
    } else if reads_as(sort_by, "image_id") {
        CategoryColumn::ImageId
    } else if reads_as(sort_by, "is_available") {
        CategoryColumn::IsAvailable
    } else if reads_as(sort_by, "is_featured") {
        CategoryColumn::IsFeatured
    } else {
        CategoryColumn::Id
    }
}

/// A column by which products are listed.
#[derive(Clone, Copy, PartialEq, Eq, Debug, Structural)]
pub enum ProductColumn {
    Id,
    Name,
    Price,
    IsAvailable,
    IsFeatured,
    ImageId,
    CategoryId,
}

/// The column by which the public lists products: `price` or `is_available`
/// where asked for, the name otherwise.
pub fn product_column(sort_by: Option<&str>) -> (column: ProductColumn)
    ensures
        column == (if says(asked(sort_by), "price"@) {
            ProductColumn::Price
        } else if says(asked(sort_by), "is_available"@) {
            ProductColumn::IsAvailable
        } else {
            ProductColumn::Name
        }),
{
    if reads_as(sort_by, "price") {
        ProductColumn::Price
    } else if reads_as(sort_by, "is_available") {
        ProductColumn::IsAvailable
    } else {
        ProductColumn::Name
    }
}

/// The column by which an administrator lists products: the one asked for
/// by name, the identifier otherwise.
pub fn admin_product_column(sort_by: Option<&str>) -> (column: ProductColumn)
    ensures
        column == (if says(asked(sort_by), "price"@) {
            ProductColumn::Price
        } else if says(asked(sort_by), "is_available"@) {
            ProductColumn::IsAvailable
        } else if says(asked(sort_by), "is_featured"@) {
            ProductColumn::IsFeatured
        } else if says(asked(sort_by), "name"@) {
            ProductColumn::Name
        } else if says(asked(sort_by), "image_id"@) {
            ProductColumn::ImageId
        } else if says(asked(sort_by), "category_id"@) {
            ProductColumn::CategoryId
        } else {
            ProductColumn::Id
        }),
{
    if reads_as(sort_by, "price") {
        ProductColumn::Price
    } else if reads_as(sort_by, "is_available") {
        ProductColumn::IsAvailable
    } else if reads_as(sort_by, "is_featured") {
        ProductColumn::IsFeatured
    } else if reads_as(sort_by, "name") {
        ProductColumn::Name
    } else if reads_as(sort_by, "image_id") {
        ProductColumn::ImageId
    } else if reads_as(sort_by, "category_id") {
        ProductColumn::CategoryId
    } else {
        ProductColumn::Id
    }
}

/// A column by which the entries of a cart are listed.
#[derive(Clone, Copy, PartialEq, Eq, Debug, Structural)]
pub enum CartColumn {
    Quantity,
    Price,
    IsAvailable,
    Name,
}

/// The column by which a user's cart is listed: `quantity`, `price` or
/// `availability` where asked for, the product's name otherwise.
pub fn cart_column(sort_by: Option<&str>) -> (column: CartColumn)
    ensures
        column == (if says(asked(sort_by), "quantity"@) {
            CartColumn::Quantity
        } else if says(asked(sort_by), "price"@) {
            CartColumn::Price
        } else if says(asked(sort_by), "availability"@) {
            CartColumn::IsAvailable
        } else {
            CartColumn::Name
        }),
{
    if reads_as(sort_by, "quantity") {
        CartColumn::Quantity
    } else if reads_as(sort_by, "price") {
        CartColumn::Price
    } else if reads_as(sort_by, "availability") {
        CartColumn::IsAvailable
    } else {
        CartColumn::Name
    }
}

} // verus!
