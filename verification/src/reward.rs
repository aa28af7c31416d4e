//! Rewards that a mystery box can hand out, and the winning-rate entries
//! with which the contract is set up.
use vstd::prelude::*;

verus! {

/// Basis points that make up 100%: the winning rates of a set-up must
/// add up to exactly this.
pub const MAX_PERCENTAGE: u64 = 10_000;

/// The kinds of reward the mystery-box contract knows, in the contract's
/// order. `NoReward` is the contract's empty reward (a box that gives
/// nothing).
#[derive(Clone, Copy, PartialEq, Eq, Structural, Debug)]
pub enum RewardType {
    NoReward,
    ExperiencePoints,
    MysteryBox,
    SFT,
    PercentValue,
    FixedValue,
    CustomReward,
}

/// The token a reward is paid in: EGLD, or an ESDT named by its identifier.
#[derive(Clone, Debug, PartialEq, Eq)]
pub enum RewardToken {
    Egld,
    Esdt(String),
}

/// A reward token as a value.
pub enum RewardTokenView {
    Egld,
    Esdt(Seq<char>),
}

impl View for RewardToken {
    type V = RewardTokenView;

    open spec fn view(&self) -> RewardTokenView {
        match self {
            RewardToken::Egld => RewardTokenView::Egld,
            RewardToken::Esdt(id) => RewardTokenView::Esdt(id@),
        }
    }
}

impl RewardToken {
    /// The ESDT with the given identifier.
    pub fn esdt(identifier: &str) -> (res: RewardToken)
        ensures
            res@ == RewardTokenView::Esdt(identifier@),
    {
        RewardToken::Esdt(identifier.to_owned())
    }

    /// Whether the token is an ESDT (and not EGLD).
    pub fn is_esdt(&self) -> (res: bool)
        ensures
            res == (self@ is Esdt),
    {
        match self {
            RewardToken::Egld => false,
            RewardToken::Esdt(_) => true,
        }
    }
}

/// One entry of a set-up: the reward, its token, its value, a description,
/// the chance to win it in basis points, and the number of epochs before it
/// can be won again.
#[derive(Clone, Debug, PartialEq, Eq)]
pub struct WinningRate {
    pub reward_type: RewardType,
    pub token: RewardToken,
    pub value: u128,
    pub description: String,
    pub percentage: u64,
    pub cooldown_epochs: u64,
}

/// A winning-rate entry as a value.
pub struct WinningRateView {
    pub reward_type: RewardType,
    pub token: RewardTokenView,
    pub value: u128,
    pub description: Seq<char>,
    pub percentage: u64,
    pub cooldown_epochs: u64,
}

impl View for WinningRate {
    type V = WinningRateView;

    open spec fn view(&self) -> WinningRateView {
        WinningRateView {
            reward_type: self.reward_type,
            token: self.token@,
            value: self.value,
            description: self.description@,
            percentage: self.percentage,
            cooldown_epochs: self.cooldown_epochs,
        }
    }
}

/// The values of a list of winning-rate entries.
pub open spec fn rates_view(rates: Seq<WinningRate>) -> Seq<WinningRateView> {
    rates.map_values(|r: WinningRate| r@)
}

/// The chances of all entries added up, in basis points.
pub open spec fn total_percentage(rates: Seq<WinningRateView>) -> int
    decreases rates.len(),
{
    if rates.len() == 0 {
        0
    } else {
        total_percentage(rates.drop_last()) + rates.last().percentage
    }
}

impl WinningRate {
    /// An entry from its six parts.
    pub fn new(
        reward_type: RewardType,
        token: RewardToken,
        value: u128,
        description: &str,
        percentage: u64,
        cooldown_epochs: u64,
    ) -> (res: WinningRate)
        ensures
            res@ == (WinningRateView {
                reward_type,
                token: token@,
                value,
                description: description@,
                percentage,
                cooldown_epochs,
            }),
    {
        WinningRate {
            reward_type,
            token,
            value,
            description: description.to_owned(),
            percentage,
            cooldown_epochs,
        }
    }
}

/// Whether one winning-rate entry keeps the contract's rule for its kind
/// of reward: experience points and fixed values are positive, an SFT is
/// paid in an ESDT, a percentage lies in (0, 100%], a custom reward has a
/// description, and a mystery-box reward is paid in the mystery-box token
/// `mystery_box_token`.
pub open spec fn follows_reward_rule(rate: WinningRateView, mystery_box_token: Seq<char>) -> bool {
    match rate.reward_type {
        RewardType::NoReward => true,
        RewardType::ExperiencePoints => rate.value > 0,
        RewardType::MysteryBox => rate.token == RewardTokenView::Esdt(mystery_box_token),
        RewardType::SFT => rate.token is Esdt,
        RewardType::PercentValue => 0 < rate.value <= MAX_PERCENTAGE,
        RewardType::FixedValue => rate.value > 0,
        RewardType::CustomReward => rate.description.len() > 0,
    }
}

/// Whether every entry of a list keeps the rule for its kind of reward.
pub open spec fn all_follow_reward_rules(rates: Seq<WinningRateView>, mystery_box_token: Seq<char>) -> bool {
    forall|i: int| 0 <= i < rates.len() ==> follows_reward_rule(#[trigger] rates[i], mystery_box_token)
}

} // verus!
