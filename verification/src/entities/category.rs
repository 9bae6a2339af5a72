//! Categories of products.

use vstd::prelude::*;

verus! {

/// A category as the store holds it.
#[derive(Debug)]
pub struct Model {
    pub id: i32,
    pub name: String,
    pub image_id: Option<i32>,
    pub is_featured: bool,
    pub is_available: bool,
}

/// The mathematical content of a category record.
pub struct ModelView {
    pub id: i32,
    pub name: Seq<char>,
    pub image_id: Option<i32>,
    pub is_featured: bool,
    pub is_available: bool,
}

impl View for Model {
    type V = ModelView;

    open spec fn view(&self) -> ModelView {
        ModelView {
            id: self.id,
            name: self.name@,
            image_id: self.image_id,
            is_featured: self.is_featured,
            is_available: self.is_available,
        }
    }
}

} // verus!
