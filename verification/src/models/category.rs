//! Category records.

use vstd::prelude::*;

verus! {

use crate::models::user::User;
use crate::utils::snowflake::Snowflake;

/// A forum category.
pub struct Category {
    /// The ID of the category.
    pub id: Snowflake,
    /// The owner of the category.
    pub owner: User,
    /// Title of the category.
    pub title: String,
    /// Description of the category.
    pub description: String,
    /// Whether the category is locked.
    pub locked: bool,
}

impl Category {
    /// Create a new [`Category`] record.
    pub fn new(id: Snowflake, owner: User, title: &str, description: &str, locked: bool) -> (c:
        Category)
        ensures
            c.id == id,
            c.owner == owner,
            c.title@ == title@,
            c.description@ == description@,
            c.locked == locked,
    {
        Category {
            id,
            owner,
            locked,
            title: title.to_owned(),
            description: description.to_owned(),
        }
    }
}

impl Clone for Category {
    fn clone(&self) -> (res: Self)
        ensures
            res == *self,
    {
        Category {
            id: self.id,
            owner: self.owner.clone(),
            title: self.title.clone(),
            description: self.description.clone(),
            locked: self.locked,
        }
    }
}

} // verus!
