//! Request payloads of the REST surface.

use vstd::prelude::*;

verus! {

use crate::utils::snowflake::Snowflake;

/// Payload of a registration request.
pub struct RegisterPayload {
    pub username: String,
    pub password: String,
    pub display_name: String,
}

/// Payload creating a category.
pub struct CreateCategoryPayload {
    pub title: String,
    pub description: String,
    pub is_locked: bool,
}

/// Payload modifying a category.
pub struct ModifyCategoryPayload {
    pub title: Option<String>,
    pub description: Option<String>,
    pub is_locked: Option<bool>,
}

/// Payload creating a thread with its original message.
pub struct CreateThreadPayload {
    pub title: String,
    pub content: String,
    pub is_nsfw: bool,
}

/// Payload creating a message.
pub struct CreateMessagePayload {
    pub content: String,
    pub referenced_message_id: Option<Snowflake>,
}

/// Payload modifying a message.
pub struct ModifyMessagePayload {
    pub content: String,
}

/// Payload of a login request.
pub struct LoginPayload {
    pub username: String,
    pub password: String,
}

/// Payload of a logout request.
pub struct LogoutPayload {
    pub token: String,
}

} // verus!
