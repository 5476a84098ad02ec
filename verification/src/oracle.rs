//! Layout of the external price-feed account the hosting environment reads
//! oracle prices from.  The ledger core itself never looks inside these
//! values; they are carried for the caller's benefit, and whatever loads
//! them from raw account bytes lives outside the verified library.

use vstd::prelude::*;

verus! {

/// A 32-byte account key.
#[derive(Copy, Clone, Debug)]
pub struct AccKey {
    /// The raw key bytes.
    pub val: [u8; 32],
}

/// Trading status of a price feed.
#[derive(Copy, Clone, Debug, PartialEq, Eq, Structural)]
pub enum PriceStatus {
    /// The feed's state is not known.
    Unknown,
    /// The feed is live and aggregating.
    Trading,
    /// Trading in the product is halted.
    Halted,
    /// The product is in an auction phase.
    Auction,
}

/// Corporate action attached to a price, if any.
#[derive(Copy, Clone, Debug, PartialEq, Eq, Structural)]
pub enum CorpAction {
    /// No corporate action.
    NoCorpAct,
}

/// One price observation with its confidence band.
#[derive(Copy, Clone, Debug)]
pub struct PriceInfo {
    /// The observed price.
    pub price: i64,
    /// Confidence interval around the price.
    pub conf: u64,
    /// Status of the feed when the observation was made.
    pub status: PriceStatus,
    /// Corporate action in effect, if any.
    pub corp_act: CorpAction,
    /// Slot the observation was published in.
    pub pub_slot: u64,
}

/// One publisher's contribution to an aggregate price.
#[derive(Copy, Clone, Debug)]
#[allow(dead_code)]
pub struct PriceComp {
    publisher: AccKey,
    agg: PriceInfo,
    latest: PriceInfo,
}

/// What kind of value a price account carries.
#[derive(Copy, Clone, Debug, PartialEq, Eq, Structural)]
pub enum PriceType {
    /// The account's type is not known.
    Unknown,
    /// A plain price.
    Price,
    /// A time-weighted average price.
    TWAP,
    /// A volatility figure.
    Volatility,
}

/// A whole price account: aggregate price, its provenance and the
/// per-publisher components.
#[derive(Copy, Clone, Debug)]
pub struct Price {
    /// Magic number identifying the account format.
    pub magic: u32,
    /// Program version.
    pub ver: u32,
    /// Account type.
    pub atype: u32,
    /// Price account size.
    pub size: u32,
    /// Price or calculation type.
    pub ptype: PriceType,
    /// Price exponent.
    pub expo: i32,
    /// Number of component prices.
    pub num: u32,
    /// Padding.
    pub unused: u32,
    /// Currently accumulating price slot.
    pub curr_slot: u64,
    /// Valid slot-time of the aggregate price.
    pub valid_slot: u64,
    /// Time-weighted average price.
    pub twap: i64,
    /// Annualized price volatility.
    pub avol: u64,
    /// Space for future derived values.
    pub drv0: i64,
    /// Space for future derived values.
    pub drv1: i64,
    /// Space for future derived values.
    pub drv2: i64,
    /// Space for future derived values.
    pub drv3: i64,
    /// Space for future derived values.
    pub drv4: i64,
    /// Space for future derived values.
    pub drv5: i64,
    /// Product account key.
    pub prod: AccKey,
    /// Next price account in the linked list.
    pub next: AccKey,
    /// Quoter who computed the last aggregate price.
    pub agg_pub: AccKey,
    /// Aggregate price info.
    pub agg: PriceInfo,
    /// Price components, one per quoter.
    pub comp: [PriceComp; 32],
}

} // verus!
