use miner_toolbar::async_result::{AsyncResult, FetchError};
use miner_toolbar::metrics::{
    abbreviate_hash, circulating_supply, claimable_rewards, hash_display, one_token,
    power_of_ten, reward_rate, total_supply_display, TokenAmount, TOKEN_DECIMALS,
};
use miner_toolbar::snapshot::{Proof, TokenSupply, Treasury};

const DASH: &str = "\u{2013}";

fn as_float(amount: TokenAmount) -> f64 {
    (amount.raw as f64) / 10f64.powf(TOKEN_DECIMALS as f64)
}

#[test]
fn one_token_is_ten_to_the_decimals() {
    assert_eq!(TOKEN_DECIMALS, 9);
    assert_eq!(one_token(), 1_000_000_000);
    assert_eq!(power_of_ten(0), 1);
    assert_eq!(power_of_ten(19), 10_000_000_000_000_000_000);
}

#[test]
fn reward_rate_of_five_tokens_is_five() {
    let treasury = AsyncResult::Ready(Treasury {
        total_claimed_rewards: 0,
        reward_rate: 5 * one_token(),
    });
    let rate = reward_rate(&treasury);
    assert_eq!(rate.raw, 5_000_000_000);
    assert_eq!(rate.whole(), 5);
    assert_eq!(rate.fraction(), 0);
    assert_eq!(as_float(rate), 5.0);
}

#[test]
fn amount_splits_into_whole_and_fraction() {
    let amount = TokenAmount::from_raw(12_345_678_901);
    assert_eq!(amount.whole(), 12);
    assert_eq!(amount.fraction(), 345_678_901);
    let largest = TokenAmount::from_raw(u64::MAX);
    assert_eq!(largest.whole(), 18_446_744_073);
    assert_eq!(largest.fraction(), 709_551_615);
    assert_eq!(TokenAmount::zero().whole(), 0);
    assert_eq!(TokenAmount::zero().fraction(), 0);
}

#[test]
fn metrics_default_to_zero_without_a_snapshot() {
    let failed: AsyncResult<Treasury> = AsyncResult::Error(FetchError::Network);
    assert_eq!(reward_rate(&failed).raw, 0);
    assert_eq!(circulating_supply(&failed).raw, 0);
    assert_eq!(as_float(circulating_supply(&failed)), 0.0);
    let loading: AsyncResult<Treasury> = AsyncResult::Loading;
    assert_eq!(reward_rate(&loading).raw, 0);
    assert_eq!(circulating_supply(&loading).raw, 0);
    let no_proof: AsyncResult<Proof> = AsyncResult::Error(FetchError::Decode);
    assert_eq!(claimable_rewards(&no_proof).raw, 0);
    assert_eq!(as_float(claimable_rewards(&no_proof)), 0.0);
    assert_eq!(claimable_rewards(&AsyncResult::Loading).raw, 0);
}

#[test]
fn metrics_read_their_own_field() {
    let treasury = AsyncResult::Ready(Treasury {
        total_claimed_rewards: 7_500_000_000,
        reward_rate: 1_000,
    });
    assert_eq!(reward_rate(&treasury).raw, 1_000);
    assert_eq!(circulating_supply(&treasury).raw, 7_500_000_000);
    assert_eq!(as_float(circulating_supply(&treasury)), 7.5);
    let slot = AsyncResult::Ready(Proof { hash: [1u8; 32], claimable_rewards: 250_000_000 });
    assert_eq!(claimable_rewards(&slot).raw, 250_000_000);
    assert_eq!(as_float(claimable_rewards(&slot)), 0.25);
}

#[test]
fn reward_rate_recovers_after_a_failed_fetch() {
    let failed: AsyncResult<Treasury> =
        AsyncResult::from_fetch(Err(FetchError::Network));
    assert_eq!(as_float(reward_rate(&failed)), 0.0);
    let fetched = AsyncResult::from_fetch(Ok(Treasury {
        total_claimed_rewards: 3,
        reward_rate: 2_500_000_000,
    }));
    assert_eq!(as_float(reward_rate(&fetched)), 2.5);
}

#[test]
fn empty_hash_text_gives_the_placeholder() {
    assert_eq!(abbreviate_hash(""), DASH);
}

#[test]
fn twenty_characters_give_the_first_sixteen() {
    assert_eq!(abbreviate_hash("0123456789abcdefghij"), "0123456789abcdef");
}

#[test]
fn sixteen_characters_are_not_long_enough() {
    assert_eq!(abbreviate_hash("0123456789abcdef"), DASH);
    assert_eq!(abbreviate_hash("0123456789abcdefg"), "0123456789abcdef");
    assert_eq!(abbreviate_hash(DASH), DASH);
}

#[test]
fn abbreviation_counts_characters_not_bytes() {
    let wide = "\u{e9}".repeat(17);
    assert_eq!(abbreviate_hash(&wide), "\u{e9}".repeat(16));
    let short = "\u{e9}".repeat(9);
    assert_eq!(abbreviate_hash(&short), DASH);
}

#[test]
fn hash_display_abbreviates_the_base58_text() {
    let zeros = AsyncResult::Ready(Proof { hash: [0u8; 32], claimable_rewards: 0 });
    assert_eq!(hash_display(&zeros), "1111111111111111");
    let ones = AsyncResult::Ready(Proof { hash: [255u8; 32], claimable_rewards: 0 });
    assert_eq!(hash_display(&ones), "JEKNVnkbo3jma5nR");
}

#[test]
fn hash_display_without_a_snapshot_is_the_placeholder() {
    assert_eq!(hash_display(&AsyncResult::Loading), DASH);
    assert_eq!(hash_display(&AsyncResult::Error(FetchError::Network)), DASH);
}

#[test]
fn total_supply_display_has_three_forms() {
    assert_eq!(total_supply_display(&AsyncResult::Loading), "-");
    assert_eq!(total_supply_display(&AsyncResult::Error(FetchError::Decode)), "Err");
    let supply = AsyncResult::Ready(TokenSupply { ui_amount: Some(String::from("1234.5")) });
    assert_eq!(total_supply_display(&supply), "1234.5");
}
