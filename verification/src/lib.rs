//! Request logic of a restaurant ordering service: pagination of listings,
//! session outcomes of the login handlers, restaurant password digests,
//! the WeChat code-to-session login flow and the shape of new orders.
pub mod pagination;
pub mod wx;
pub mod wx_user;
pub mod session;
pub mod restaurant;
pub mod user;
pub mod order;
pub mod catalog;
