use vstd::prelude::*;

verus! {

/// A category of goods on a restaurant's menu.
#[derive(Debug, Clone, PartialEq, Eq)]
pub struct GoodsType {
    pub id: i32,
    pub name: String,
    pub restaurant_id: i32,
}

/// A category of goods that a restaurant creates or renames.
#[derive(Debug, Clone, PartialEq, Eq)]
pub struct NewGoodsType {
    pub name: String,
    pub restaurant_id: i32,
}

impl NewGoodsType {
    /// The category as it is stored for restaurant `restaurant_id`: the name
    /// as given, the owner set to the restaurant that is logged in.
    pub fn owned_by(self, restaurant_id: i32) -> (res: NewGoodsType)
        ensures
            res.name == self.name,
            res.restaurant_id == restaurant_id,
    {
        NewGoodsType { restaurant_id, ..self }
    }
}

/// The fields of goods that a restaurant creates, apart from the price.
#[derive(Debug, Clone, PartialEq, Eq)]
pub struct NewGoodsFields {
    pub restaurant_id: i32,
    pub goods_type_id: i32,
    pub state: bool,
    pub img: String,
    pub name: String,
    pub info: String,
    pub count: i32,
}

impl NewGoodsFields {
    /// The goods as they are stored for restaurant `restaurant_id`: every
    /// field as given, the owner set to the restaurant that is logged in.
    pub fn owned_by(self, restaurant_id: i32) -> (res: NewGoodsFields)
        ensures
            res == (NewGoodsFields { restaurant_id, ..self }),
    {
        NewGoodsFields { restaurant_id, ..self }
    }
}

} // verus!
