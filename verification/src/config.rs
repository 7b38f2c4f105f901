//! What the user chooses before a swap: the price feed to read, the
//! direction to trade in, and how the direction maps onto a swap.

use crate::address::Address;
use crate::amount::Amount;
use crate::path::SwapVariant;
use crate::text::{same_text, trim, trimmed};
use vstd::prelude::*;

verus! {

/// A price feed: its display name, the environment variable that holds its
/// contract address, and the number of decimals of its answers.
#[derive(Clone, Copy, Debug, PartialEq, Eq)]
pub struct PriceFeed {
    pub name: &'static str,
    pub env_var: &'static str,
    pub decimals: u32,
}

impl PriceFeed {
    /// Whether this is the LINK/ETH feed.
    pub open spec fn is_link_eth(&self) -> bool {
        &&& self.name@ == "LINK/ETH"@
        &&& self.env_var@ == "LINK_ETH_PRICE_FEED"@
        &&& self.decimals == 18
    }

    /// Whether this is the ETH/USD feed.
    pub open spec fn is_eth_usd(&self) -> bool {
        &&& self.name@ == "ETH/USD"@
        &&& self.env_var@ == "ETH_USD_PRICE_FEED"@
        &&& self.decimals == 8
    }

    /// The LINK/ETH feed, whose answers have 18 decimals.
    pub fn link_eth() -> (feed: PriceFeed)
        ensures
            feed.is_link_eth(),
    {
        PriceFeed { name: "LINK/ETH", env_var: "LINK_ETH_PRICE_FEED", decimals: 18 }
    }

    /// The ETH/USD feed, whose answers have 8 decimals.
    pub fn eth_usd() -> (feed: PriceFeed)
        ensures
            feed.is_eth_usd(),
    {
        PriceFeed { name: "ETH/USD", env_var: "ETH_USD_PRICE_FEED", decimals: 8 }
    }
}

/// Whether `feed` is the feed that `choice` selects: `1` selects LINK/ETH,
/// `2` selects ETH/USD, and nothing else selects a feed.
pub open spec fn feed_chosen(choice: Seq<char>, feed: Option<PriceFeed>) -> bool {
    if choice == "1"@ {
        feed matches Some(f) && f.is_link_eth()
    } else if choice == "2"@ {
        feed matches Some(f) && f.is_eth_usd()
    } else {
        feed is None
    }
}

/// The feed that a choice selects, or `None` for a choice that is neither
/// `1` nor `2`.
pub fn feed_for_choice(choice: &str) -> (feed: Option<PriceFeed>)
    ensures
        feed_chosen(choice@, feed),
{
    if same_text(choice, "1") {
        Some(PriceFeed::link_eth())
    } else if same_text(choice, "2") {
        Some(PriceFeed::eth_usd())
    } else {
        None
    }
}

/// The feed that a line of input selects, once the whitespace around it is
/// trimmed away.
pub fn feed_for_line(line: &str) -> (feed: Option<PriceFeed>)
    ensures
        feed_chosen(trimmed(line@), feed),
{
    feed_for_choice(trim(line))
}

/// The direction of a swap between ether and the LINK token.
#[derive(Clone, Copy, Debug, PartialEq, Eq, Hash)]
pub enum SwapDirection {
    LinkToEth,
    EthToLink,
}

/// A direction as read from the user, and whether the input named one or
/// the default was taken.
#[derive(Clone, Copy, Debug, PartialEq, Eq)]
pub struct DirectionChoice {
    pub direction: SwapDirection,
    pub recognized: bool,
}

/// The direction that `choice` selects: `1` sells ether, `2` sells LINK, and
/// anything else falls back to selling ether and is marked as unrecognized.
pub open spec fn direction_chosen(choice: Seq<char>) -> DirectionChoice {
    if choice == "1"@ {
        DirectionChoice { direction: SwapDirection::EthToLink, recognized: true }
    } else if choice == "2"@ {
        DirectionChoice { direction: SwapDirection::LinkToEth, recognized: true }
    } else {
        DirectionChoice { direction: SwapDirection::EthToLink, recognized: false }
    }
}

/// The direction that a choice selects.
pub fn direction_for_choice(choice: &str) -> (r: DirectionChoice)
    ensures
        r == direction_chosen(choice@),
{
    if same_text(choice, "1") {
        DirectionChoice { direction: SwapDirection::EthToLink, recognized: true }
    } else if same_text(choice, "2") {
        DirectionChoice { direction: SwapDirection::LinkToEth, recognized: true }
    } else {
        DirectionChoice { direction: SwapDirection::EthToLink, recognized: false }
    }
}

/// The direction that a line of input selects, once the whitespace around
/// it is trimmed away.
pub fn direction_for_line(line: &str) -> (r: DirectionChoice)
    ensures
        r == direction_chosen(trimmed(line@)),
{
    direction_for_choice(trim(line))
}

/// What the user settled on for one swap.
#[derive(Clone, Copy, Debug, PartialEq, Eq)]
pub struct SwapSettings {
    /// How much is sold, in the smallest unit of the asset sold.
    pub amount_in: Amount,
    pub swap_direction: SwapDirection,
    /// The tolerated slippage in basis points.
    pub slippage: Amount,
}

/// The two sides of a swap as the executor takes them.
#[derive(Clone, Copy, Debug, PartialEq, Eq)]
pub struct SwapLegs {
    pub token_in: Address,
    pub token_out: Address,
    pub is_eth_input: bool,
    pub is_eth_output: bool,
}

impl SwapLegs {
    /// The variant of the swap.
    pub open spec fn variant(&self) -> SwapVariant {
        SwapVariant::spec_from_flags(self.is_eth_input, self.is_eth_output)
    }

    /// Whether the router must be approved to spend the token sold before
    /// the swap: always, unless ether is sold.
    pub fn needs_approval(&self) -> (r: bool)
        ensures
            r == !self.is_eth_input,
            r == !(self.variant() is NativeToToken),
    {
        !self.is_eth_input
    }
}

impl SwapDirection {
    /// The sides of a swap in this direction, where `link_token` is the LINK
    /// token. The zero address stands on the side of ether.
    pub open spec fn spec_legs(&self, link_token: Address) -> SwapLegs {
        match self {
            SwapDirection::LinkToEth => SwapLegs {
                token_in: link_token,
                token_out: Address::zero(),
                is_eth_input: false,
                is_eth_output: true,
            },
            SwapDirection::EthToLink => SwapLegs {
                token_in: Address::zero(),
                token_out: link_token,
                is_eth_input: true,
                is_eth_output: false,
            },
        }
    }

    /// The sides of a swap in this direction: selling LINK buys ether, and
    /// selling ether buys LINK.
    #[verifier::when_used_as_spec(spec_legs)]
    pub fn legs(&self, link_token: Address) -> (legs: SwapLegs)
        ensures
            legs == self.spec_legs(link_token),
            *self is EthToLink <==> legs.variant() is NativeToToken,
            *self is LinkToEth <==> legs.variant() is TokenToNative,
    {
        let native = Address::zero();
        match self {
            SwapDirection::LinkToEth => SwapLegs {
                token_in: link_token,
                token_out: native,
                is_eth_input: false,
                is_eth_output: true,
            },
            SwapDirection::EthToLink => SwapLegs {
                token_in: native,
                token_out: link_token,
                is_eth_input: true,
                is_eth_output: false,
            },
        }
    }
}

} // verus!
