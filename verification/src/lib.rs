//! Invoice lookup and payment-intent preparation for a small payment gateway.
//!
//! The crate holds the rules of the gateway: how an invoicing provider's
//! response becomes an [`wave::Invoice`], how an amount due is read from its
//! decimal text, how the card fee is added, which request is sent to the
//! payment processor, and how every failure maps to one HTTP-facing shape.
//! Network transport is left to the caller.

pub mod decimal;
pub mod http;
pub mod stripe;
pub mod wave;
