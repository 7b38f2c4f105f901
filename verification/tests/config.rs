use price_and_swap_bot::address::Address;
use price_and_swap_bot::config::{
    direction_for_choice, direction_for_line, feed_for_choice, feed_for_line, DirectionChoice,
    PriceFeed, SwapDirection, SwapLegs,
};
use price_and_swap_bot::text::same_text;

#[test]
fn link_eth_feed() {
    let feed = PriceFeed::link_eth();
    assert_eq!(feed.name, "LINK/ETH");
    assert_eq!(feed.env_var, "LINK_ETH_PRICE_FEED");
    assert_eq!(feed.decimals, 18);
}

#[test]
fn eth_usd_feed() {
    let feed = PriceFeed::eth_usd();
    assert_eq!(feed.name, "ETH/USD");
    assert_eq!(feed.env_var, "ETH_USD_PRICE_FEED");
    assert_eq!(feed.decimals, 8);
}

#[test]
fn feed_choices() {
    assert_eq!(feed_for_choice("1"), Some(PriceFeed::link_eth()));
    assert_eq!(feed_for_choice("2"), Some(PriceFeed::eth_usd()));
    assert_eq!(feed_for_choice("3"), None);
    assert_eq!(feed_for_choice(""), None);
    assert_eq!(feed_for_choice("11"), None);
    assert_eq!(feed_for_choice(" 1"), None);
}

#[test]
fn feed_lines_are_trimmed() {
    assert_eq!(feed_for_line("1\n"), Some(PriceFeed::link_eth()));
    assert_eq!(feed_for_line("  2 \r\n"), Some(PriceFeed::eth_usd()));
    assert_eq!(feed_for_line("\t1"), Some(PriceFeed::link_eth()));
    assert_eq!(feed_for_line("1 2\n"), None);
    assert_eq!(feed_for_line("\n"), None);
}

#[test]
fn direction_choices() {
    let eth_to_link = DirectionChoice { direction: SwapDirection::EthToLink, recognized: true };
    let link_to_eth = DirectionChoice { direction: SwapDirection::LinkToEth, recognized: true };
    let fallback = DirectionChoice { direction: SwapDirection::EthToLink, recognized: false };
    assert_eq!(direction_for_choice("1"), eth_to_link);
    assert_eq!(direction_for_choice("2"), link_to_eth);
    assert_eq!(direction_for_choice("x"), fallback);
    assert_eq!(direction_for_choice(""), fallback);
    assert_eq!(direction_for_choice("2 "), fallback);
}

#[test]
fn direction_lines_are_trimmed() {
    let link_to_eth = DirectionChoice { direction: SwapDirection::LinkToEth, recognized: true };
    let fallback = DirectionChoice { direction: SwapDirection::EthToLink, recognized: false };
    assert_eq!(direction_for_line(" 2\n"), link_to_eth);
    assert_eq!(direction_for_line("two\n"), fallback);
}

#[test]
fn legs_of_each_direction() {
    let link = Address { bytes: [0x77; 20] };
    let selling_link = SwapDirection::LinkToEth.legs(link);
    assert_eq!(
        selling_link,
        SwapLegs {
            token_in: link,
            token_out: Address::zero(),
            is_eth_input: false,
            is_eth_output: true,
        }
    );
    assert!(selling_link.needs_approval());
    let selling_ether = SwapDirection::EthToLink.legs(link);
    assert_eq!(
        selling_ether,
        SwapLegs {
            token_in: Address::zero(),
            token_out: link,
            is_eth_input: true,
            is_eth_output: false,
        }
    );
    assert!(!selling_ether.needs_approval());
}

#[test]
fn texts_compare_by_characters() {
    assert!(same_text("", ""));
    assert!(same_text("LINK/ETH", "LINK/ETH"));
    assert!(!same_text("LINK/ETH", "LINK/ETh"));
    assert!(!same_text("1", "11"));
    assert!(!same_text("11", "1"));
    assert!(same_text("é→", "é→"));
    assert!(!same_text("é", "e"));
}
