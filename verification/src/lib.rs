//! The events that the prompt marketplace contract publishes, as plain values.
//!
//! Each event is built by a verified constructor on [`Events`]; publishing the
//! event to a Soroban environment happens where the `#[contractevent]` encoding
//! is available.

pub mod events;

pub use events::{
    Events, FeeUpdated, FeeWalletUpdated, ListingExtended, PromptCreated, PromptPriceUpdated,
    PromptPurchased, PromptSaleStatusUpdated, PromptTipped,
};
