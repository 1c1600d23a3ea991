use vstd::prelude::*;

verus! {

/// A Soroban address, carried through the events as an opaque value.
#[verifier::external_type_specification]
#[verifier::external_body]
pub struct ExAddress(soroban_sdk::Address);

/// A new prompt was listed by `creator` at `price_stroops`.
/// Its topic is the prompt id.
pub struct PromptCreated {
    pub prompt_id: u128,
    pub creator: soroban_sdk::Address,
    pub price_stroops: i128,
}

/// The creator opened or closed a prompt for sale.
/// Its topic is the prompt id.
pub struct PromptSaleStatusUpdated {
    pub prompt_id: u128,
    pub active: bool,
}

/// The creator changed the price of a prompt.
/// Its topic is the prompt id.
pub struct PromptPriceUpdated {
    pub prompt_id: u128,
    pub price_stroops: i128,
}

/// A buyer bought a prompt, possibly through a referrer.
/// Its topic is the prompt id.
pub struct PromptPurchased {
    pub prompt_id: u128,
    pub buyer: soroban_sdk::Address,
    pub creator: soroban_sdk::Address,
    pub price_stroops: i128,
    pub referrer: Option<soroban_sdk::Address>,
}

/// A buyer paid more than the base price; the surplus is the tip.
/// Its topic is the prompt id.
pub struct PromptTipped {
    pub prompt_id: u128,
    pub buyer: soroban_sdk::Address,
    pub creator: soroban_sdk::Address,
    pub base_price_stroops: i128,
    pub tip_amount_stroops: i128,
}

/// The creator extended a listing's lifetime.
/// Its topic is the prompt id.
pub struct ListingExtended {
    pub prompt_id: u128,
    pub creator: soroban_sdk::Address,
    pub new_expires_at: Option<u64>,
    pub extension_days: u64,
    pub fee_paid: i128,
}

/// The marketplace fee changed. Its topic is the new fee.
pub struct FeeUpdated {
    pub new_fee_percentage: u32,
}

/// The wallet that collects fees changed. Its topic is the new wallet.
pub struct FeeWalletUpdated {
    pub new_fee_wallet: soroban_sdk::Address,
}

/// Builds each event of the marketplace from the values that it reports.
pub struct Events;

impl Events {
    /// The event announcing a new listing.
    pub fn prompt_created(prompt_id: u128, creator: soroban_sdk::Address, price_stroops: i128) -> (ev: PromptCreated)
        ensures
            ev.prompt_id == prompt_id,
            ev.creator == creator,
            ev.price_stroops == price_stroops,
    {
        PromptCreated { prompt_id, creator, price_stroops }
    }

    /// The event announcing that a prompt was opened or closed for sale.
    pub fn prompt_sale_status_updated(prompt_id: u128, active: bool) -> (ev: PromptSaleStatusUpdated)
        ensures
            ev.prompt_id == prompt_id,
            ev.active == active,
    {
        PromptSaleStatusUpdated { prompt_id, active }
    }

    /// The event announcing a new price.
    pub fn prompt_price_updated(prompt_id: u128, price_stroops: i128) -> (ev: PromptPriceUpdated)
        ensures
            ev.prompt_id == prompt_id,
            ev.price_stroops == price_stroops,
    {
        PromptPriceUpdated { prompt_id, price_stroops }
    }

    /// The event announcing a purchase, with its referrer if there was one.
    pub fn prompt_purchased(
        prompt_id: u128,
        buyer: soroban_sdk::Address,
        creator: soroban_sdk::Address,
        price_stroops: i128,
        referrer: Option<soroban_sdk::Address>,
    ) -> (ev: PromptPurchased)
        ensures
            ev.prompt_id == prompt_id,
            ev.buyer == buyer,
            ev.creator == creator,
            ev.price_stroops == price_stroops,
            ev.referrer == referrer,
    {
        PromptPurchased { prompt_id, buyer, creator, price_stroops, referrer }
    }

    /// The event announcing a tip: the base price and the amount paid above it.
    pub fn prompt_tipped(
        prompt_id: u128,
        buyer: soroban_sdk::Address,
        creator: soroban_sdk::Address,
        base_price_stroops: i128,
        tip_amount_stroops: i128,
    ) -> (ev: PromptTipped)
        ensures
            ev.prompt_id == prompt_id,
            ev.buyer == buyer,
            ev.creator == creator,
            ev.base_price_stroops == base_price_stroops,
            ev.tip_amount_stroops == tip_amount_stroops,
    {
        PromptTipped { prompt_id, buyer, creator, base_price_stroops, tip_amount_stroops }
    }

    /// The event announcing an extended listing and the fee paid for it.
    pub fn listing_extended(
        prompt_id: u128,
        creator: soroban_sdk::Address,
        new_expires_at: Option<u64>,
        extension_days: u64,
        fee_paid: i128,
    ) -> (ev: ListingExtended)
        ensures
            ev.prompt_id == prompt_id,
            ev.creator == creator,
            ev.new_expires_at == new_expires_at,
            ev.extension_days == extension_days,
            ev.fee_paid == fee_paid,
    {
        ListingExtended { prompt_id, creator, new_expires_at, extension_days, fee_paid }
    }

    /// The event announcing a new marketplace fee.
    pub fn fee_updated(new_fee_percentage: u32) -> (ev: FeeUpdated)
        ensures
            ev.new_fee_percentage == new_fee_percentage,
    {
        FeeUpdated { new_fee_percentage }
    }

    /// The event announcing a new fee wallet.
    pub fn fee_wallet_updated(new_fee_wallet: soroban_sdk::Address) -> (ev: FeeWalletUpdated)
        ensures
            ev.new_fee_wallet == new_fee_wallet,
    {
        FeeWalletUpdated { new_fee_wallet }
    }
}

} // verus!
