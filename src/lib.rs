//! A post that moves through an editorial lifecycle (draft, in review,
//! published), and a small builder for pizzas.

pub mod post;
pub mod builder;

pub use builder::{Pizza, PizzaBuilder};
pub use post::{Draft, InReview, Post, PostState, Published, State};
