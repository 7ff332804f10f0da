//! User-facing metrics derived from the latest snapshots.
//!
//! Every derivation is a function of the snapshots it is given and of the
//! token's decimal exponent; none keeps state.

use crate::async_result::{AsyncResult, FetchError};
use crate::snapshot::{Proof, TokenSupply, Treasury};
use vstd::prelude::*;

verus! {

/// Decimal places of the token: one token is `10^TOKEN_DECIMALS` raw units.
pub const TOKEN_DECIMALS: u8 = 9;

/// Number of characters of a proof hash that the toolbar shows.
pub const HASH_DISPLAY_CHARS: usize = 16;

/// Ten to the power `n`.
pub open spec fn pow10(n: nat) -> nat
    decreases n,
{
    if n == 0 {
        1
    } else {
        10 * pow10((n - 1) as nat)
    }
}

/// Raw units in one token.
pub open spec fn raw_per_token() -> nat {
    pow10(TOKEN_DECIMALS as nat)
}

pub proof fn lemma_pow10_monotonic(a: nat, b: nat)
    requires
        a <= b,
    ensures
        pow10(a) <= pow10(b),
    decreases b,
{
    if a < b {
        lemma_pow10_monotonic(a, (b - 1) as nat);
    }
}

/// One token is a thousand million raw units.
pub proof fn lemma_raw_per_token()
    ensures
        raw_per_token() == 1_000_000_000,
{
    reveal_with_fuel(pow10, 10);
}

/// The token's decimal exponent, as the `ore` crate defines it.
///
/// Reads the constant `ore::TOKEN_DECIMALS`; the contract claims its value, 9.
#[verifier::external_body]
fn token_decimals() -> (d: u8)
    ensures
        d == TOKEN_DECIMALS,
{
    ore::TOKEN_DECIMALS
}

/// Ten to the power `exp`, for the exponents whose power fits in 64 bits.
pub fn power_of_ten(exp: u8) -> (p: u64)
    requires
        exp <= 19,
    ensures
        p == pow10(exp as nat),
{
    let mut p: u64 = 1;
    let mut i: u8 = 0;
    while i < exp
        invariant
            i <= exp <= 19,
            p == pow10(i as nat),
        decreases exp - i,
    {
        proof {
            lemma_pow10_monotonic(i as nat, 18);
            assert(pow10(18) == 1_000_000_000_000_000_000) by {
                reveal_with_fuel(pow10, 19);
            }
        }
        p = p * 10;
        i += 1;
    }
    p
}

/// Raw units in one token.
pub fn one_token() -> (units: u64)
    ensures
        units == raw_per_token(),
        units == 1_000_000_000,
{
    proof {
        lemma_raw_per_token();
    }
    power_of_ten(token_decimals())
}

/// An amount of tokens, held exactly in raw units.
///
/// Its value in tokens is `raw / 10^TOKEN_DECIMALS`: `whole` tokens and
/// `fraction` raw units beyond them.
#[derive(Clone, Copy, Debug, PartialEq, Eq)]
pub struct TokenAmount {
    pub raw: u64,
}

impl TokenAmount {
    /// The whole tokens in the amount.
    pub open spec fn whole_part(self) -> nat {
        self.raw as nat / raw_per_token()
    }

    /// The raw units beyond the whole tokens.
    pub open spec fn fraction_part(self) -> nat {
        self.raw as nat % raw_per_token()
    }

    pub fn from_raw(raw: u64) -> (amount: Self)
        ensures
            amount.raw == raw,
    {
        TokenAmount { raw }
    }

    pub fn zero() -> (amount: Self)
        ensures
            amount.raw == 0,
    {
        TokenAmount { raw: 0 }
    }

    pub fn whole(&self) -> (w: u64)
        ensures
            w == self.whole_part(),
    {
        self.raw / one_token()
    }

    pub fn fraction(&self) -> (f: u64)
        ensures
            f == self.fraction_part(),
            f < raw_per_token(),
    {
        self.raw % one_token()
    }
}

/// The two parts of an amount make up its raw units, and the fraction is
/// less than one token.
pub proof fn law_amount_has_two_parts(amount: TokenAmount)
    ensures
        amount.whole_part() * raw_per_token() + amount.fraction_part() == amount.raw,
        amount.fraction_part() < raw_per_token(),
{
    lemma_raw_per_token();
}

/// The reward rate: the treasury's, and zero while there is no treasury snapshot.
pub open spec fn reward_rate_of(treasury: AsyncResult<Treasury>) -> TokenAmount {
    match treasury {
        AsyncResult::Ready(t) => TokenAmount { raw: t.reward_rate },
        _ => TokenAmount { raw: 0 },
    }
}

/// The circulating supply: all rewards ever claimed, and zero while there is
/// no treasury snapshot.
pub open spec fn circulating_supply_of(treasury: AsyncResult<Treasury>) -> TokenAmount {
    match treasury {
        AsyncResult::Ready(t) => TokenAmount { raw: t.total_claimed_rewards },
        _ => TokenAmount { raw: 0 },
    }
}

/// The miner's claimable rewards, and zero while there is no proof snapshot.
pub open spec fn claimable_rewards_of(slot: AsyncResult<Proof>) -> TokenAmount {
    match slot {
        AsyncResult::Ready(p) => TokenAmount { raw: p.claimable_rewards },
        _ => TokenAmount { raw: 0 },
    }
}

/// The treasury's metrics are its raw integers over `10^TOKEN_DECIMALS` and
/// nothing else: two snapshots with the same integer give the same metric.
pub proof fn law_treasury_metrics_scale_raw_units(a: Treasury, b: Treasury)
    ensures
        reward_rate_of(AsyncResult::Ready(a)).whole_part() * 1_000_000_000 + reward_rate_of(
            AsyncResult::Ready(a),
        ).fraction_part() == a.reward_rate,
        circulating_supply_of(AsyncResult::Ready(a)).whole_part() * 1_000_000_000
            + circulating_supply_of(AsyncResult::Ready(a)).fraction_part()
            == a.total_claimed_rewards,
        reward_rate_of(AsyncResult::Ready(a)).fraction_part() < 1_000_000_000,
        circulating_supply_of(AsyncResult::Ready(a)).fraction_part() < 1_000_000_000,
        a.reward_rate == b.reward_rate ==> reward_rate_of(AsyncResult::Ready(a))
            == reward_rate_of(AsyncResult::Ready(b)),
        a.total_claimed_rewards == b.total_claimed_rewards ==> circulating_supply_of(
            AsyncResult::Ready(a),
        ) == circulating_supply_of(AsyncResult::Ready(b)),
{
    lemma_raw_per_token();
}

/// A whole number of tokens in raw units shows as that number and no fraction.
pub proof fn law_whole_tokens_scale_exactly(tokens: nat)
    requires
        tokens * 1_000_000_000 <= u64::MAX,
    ensures
        (TokenAmount { raw: (tokens * 1_000_000_000) as u64 }).whole_part() == tokens,
        (TokenAmount { raw: (tokens * 1_000_000_000) as u64 }).fraction_part() == 0,
{
    lemma_raw_per_token();
}

/// Without a snapshot every metric is zero, whatever the cause.
pub proof fn law_metrics_default_to_zero(cause: FetchError)
    ensures
        reward_rate_of(AsyncResult::Error(cause)).raw == 0,
        circulating_supply_of(AsyncResult::Error(cause)).raw == 0,
        claimable_rewards_of(AsyncResult::Error(cause)).raw == 0,
        reward_rate_of(AsyncResult::Loading).raw == 0,
        circulating_supply_of(AsyncResult::Loading).raw == 0,
        claimable_rewards_of(AsyncResult::Loading).raw == 0,
        (TokenAmount { raw: 0 }).whole_part() == 0,
        (TokenAmount { raw: 0 }).fraction_part() == 0,
{
    lemma_raw_per_token();
}

pub fn reward_rate(treasury: &AsyncResult<Treasury>) -> (amount: TokenAmount)
    ensures
        amount == reward_rate_of(*treasury),
{
    match treasury {
        AsyncResult::Ready(t) => TokenAmount::from_raw(t.reward_rate),
        _ => TokenAmount::zero(),
    }
}

pub fn circulating_supply(treasury: &AsyncResult<Treasury>) -> (amount: TokenAmount)
    ensures
        amount == circulating_supply_of(*treasury),
{
    match treasury {
        AsyncResult::Ready(t) => TokenAmount::from_raw(t.total_claimed_rewards),
        _ => TokenAmount::zero(),
    }
}

pub fn claimable_rewards(slot: &AsyncResult<Proof>) -> (amount: TokenAmount)
    ensures
        amount == claimable_rewards_of(*slot),
{
    match slot {
        AsyncResult::Ready(p) => TokenAmount::from_raw(p.claimable_rewards),
        _ => TokenAmount::zero(),
    }
}

/// What the toolbar shows in place of a hash that it cannot show: an en dash.
pub open spec fn hash_placeholder() -> Seq<char> {
    seq!['\u{2013}']
}

/// The text form of a proof hash.
///
/// It is what `ore::state::Hash` writes when it is displayed: the base-58
/// encoding of the 32 bytes.
pub uninterp spec fn hash_text(bytes: Seq<u8>) -> Seq<char>;

/// Displays a proof hash through `ore::state::Hash`, whose `Display` writes the
/// hash's bytes in base 58; the contract only names that text.
#[verifier::external_body]
fn hash_to_string(hash: &[u8; 32]) -> (text: String)
    ensures
        text@ == hash_text(hash@),
{
    ore::state::Hash(*hash).to_string()
}

/// The abbreviation of a hash's text: its first 16 characters where it has
/// more than 16, the placeholder otherwise.
pub open spec fn abbreviated(text: Seq<char>) -> Seq<char> {
    if text.len() > HASH_DISPLAY_CHARS {
        text.subrange(0, HASH_DISPLAY_CHARS as int)
    } else {
        hash_placeholder()
    }
}

/// The text that stands for the hash of a proof slot: the hash's text form
/// where there is a snapshot, the placeholder where there is none.
pub open spec fn hash_source(slot: AsyncResult<Proof>) -> Seq<char> {
    match slot {
        AsyncResult::Ready(p) => hash_text(p.hash@),
        _ => hash_placeholder(),
    }
}

/// The placeholder as an owned string.
pub fn placeholder_string() -> (text: String)
    ensures
        text@ == hash_placeholder(),
{
    let dash = "\u{2013}";
    proof {
        reveal_strlit("\u{2013}");
        assert(dash@ =~= hash_placeholder());
    }
    dash.to_owned()
}

/// Abbreviates the text form of a hash for display.
///
/// Text of 16 characters or fewer, the empty text included, gives the
/// placeholder.
pub fn abbreviate_hash(text: &str) -> (shown: String)
    ensures
        shown@ == abbreviated(text@),
{
    if text.unicode_len() > HASH_DISPLAY_CHARS {
        text.substring_char(0, HASH_DISPLAY_CHARS).to_owned()
    } else {
        placeholder_string()
    }
}

/// The abbreviated hash of the current proof snapshot.
pub fn hash_display(slot: &AsyncResult<Proof>) -> (shown: String)
    ensures
        shown@ == abbreviated(hash_source(*slot)),
{
    match slot {
        AsyncResult::Ready(p) => {
            let text = hash_to_string(&p.hash);
            abbreviate_hash(text.as_str())
        },
        _ => {
            let text = placeholder_string();
            abbreviate_hash(text.as_str())
        },
    }
}

/// What the toolbar shows for the total supply: a hyphen while the supply is
/// loading, its decimal text once it is there, `Err` when the fetch failed.
pub open spec fn total_supply_text(supply: AsyncResult<TokenSupply>) -> Seq<char> {
    match supply {
        AsyncResult::Loading => seq!['-'],
        AsyncResult::Ready(s) => s.ui_amount->0@,
        AsyncResult::Error(_) => seq!['E', 'r', 'r'],
    }
}

/// Whether the supply can be shown: a snapshot that is there carries an amount.
pub open spec fn supply_displayable(supply: AsyncResult<TokenSupply>) -> bool {
    supply matches AsyncResult::Ready(s) ==> s.ui_amount is Some
}

pub fn total_supply_display(supply: &AsyncResult<TokenSupply>) -> (shown: String)
    requires
        supply_displayable(*supply),
    ensures
        shown@ == total_supply_text(*supply),
{
    match supply {
        AsyncResult::Loading => {
            let text = "-";
            proof {
                reveal_strlit("-");
                assert(text@ =~= seq!['-']);
            }
            text.to_owned()
        },
        AsyncResult::Ready(s) => s.ui_amount.as_ref().unwrap().clone(),
        AsyncResult::Error(_) => {
            let text = "Err";
            proof {
                reveal_strlit("Err");
                assert(text@ =~= seq!['E', 'r', 'r']);
            }
            text.to_owned()
        },
    }
}

/// The snapshots that the active toolbar is drawn from.
#[derive(Clone, Debug, PartialEq, Eq)]
pub struct MinerToolbarActiveProps {
    pub treasury: AsyncResult<Treasury>,
    pub proof: AsyncResult<Proof>,
    pub ore_supply: AsyncResult<TokenSupply>,
}

/// What the active toolbar shows of its snapshots.
#[derive(Clone, Debug, PartialEq, Eq)]
pub struct ToolbarMetrics {
    pub hash: String,
    pub claimable_rewards: TokenAmount,
    pub circulating_supply: TokenAmount,
    pub total_supply: String,
    pub reward_rate: TokenAmount,
}

/// Whether `metrics` is what the three slots give.
pub open spec fn metrics_match(
    metrics: ToolbarMetrics,
    treasury: AsyncResult<Treasury>,
    proof_slot: AsyncResult<Proof>,
    supply: AsyncResult<TokenSupply>,
) -> bool {
    &&& metrics.hash@ == abbreviated(hash_source(proof_slot))
    &&& metrics.claimable_rewards == claimable_rewards_of(proof_slot)
    &&& metrics.circulating_supply == circulating_supply_of(treasury)
    &&& metrics.total_supply@ == total_supply_text(supply)
    &&& metrics.reward_rate == reward_rate_of(treasury)
}

/// Derives every metric of the toolbar from the three slots, each from its
/// own slot alone.
pub fn derive_metrics(
    treasury: &AsyncResult<Treasury>,
    proof_slot: &AsyncResult<Proof>,
    supply: &AsyncResult<TokenSupply>,
) -> (metrics: ToolbarMetrics)
    requires
        supply_displayable(*supply),
    ensures
        metrics_match(metrics, *treasury, *proof_slot, *supply),
{
    ToolbarMetrics {
        hash: hash_display(proof_slot),
        claimable_rewards: claimable_rewards(proof_slot),
        circulating_supply: circulating_supply(treasury),
        total_supply: total_supply_display(supply),
        reward_rate: reward_rate(treasury),
    }
}

impl MinerToolbarActiveProps {
    /// What the toolbar shows for these snapshots.
    pub fn metrics(&self) -> (metrics: ToolbarMetrics)
        requires
            supply_displayable(self.ore_supply),
        ensures
            metrics_match(metrics, self.treasury, self.proof, self.ore_supply),
    {
        derive_metrics(&self.treasury, &self.proof, &self.ore_supply)
    }
}

} // verus!
