//! The interactor's transactions and queries against the mystery-box
//! contract, planned from the accounts it signs with and its saved state.
use vstd::prelude::*;

use crate::address::{AddressBytes, Bech32Address, bech32_encoding};
use crate::reward::{
    RewardToken, RewardTokenView, RewardType, WinningRate, WinningRateView, rates_view,
};
use crate::state::State;
use crate::transaction::{
    Arg, ArgView, ContractCode, EsdtPayment, EsdtPaymentView, Endpoint, Expect, ExpectView,
    Payment, PaymentView, Query, QueryView, Target, Transaction, TransactionView, args_view,
};

verus! {

/// The token the mystery-box contract is deployed with.
pub const TOKEN_IDENTIFIER: &'static str = "TTO-281def";

/// A second token, used for the rewards of most set-ups.
pub const TOKEN_IDENTIFIER2: &'static str = "TST-c0986b";

/// A token identifier that is not a valid ESDT identifier.
pub const INVALID_TOKEN_ID: &'static str = "xyz";

/// The nonce used when paying with a mystery box.
pub const TOKEN_NONCE: u64 = 1;

/// The mystery-box token.
pub const MB_TOKEN_IDENTIFIER: &'static str = "TTO-959e6e";

/// A token that is not the mystery box, offered as a mystery-box reward.
pub const MB_TOKEN_IDENTIFIER_FAIL: &'static str = "TTO-5c8209-02";

/// A token that is not the mystery box, offered as payment.
pub const WRONG: &'static str = "TTO-5c8209";

/// The file in which the state is kept between runs.
pub const STATE_FILE: &'static str = "state.toml";

/// The EGLD paid to issue a token: 0.05 EGLD, in its smallest unit.
pub const ISSUE_COST: u128 = 50_000_000_000_000_000;

/// Gas for set-ups, creation, and admin changes.
pub const SETUP_GAS: u64 = 30_000_000;

/// Gas for deployments and token issuing.
pub const DEPLOY_GAS: u64 = 70_000_000;

/// Gas for a deployment that is expected to fail, and for most openings.
pub const OPEN_GAS: u64 = 50_000_000;

/// A transaction value from its parts.
pub open spec fn tx_view(
    from: AddressBytes,
    target: Target,
    gas: Option<u64>,
    args: Seq<ArgView>,
    payment: PaymentView,
    expect: ExpectView,
) -> TransactionView {
    TransactionView { from, target, gas, args, payment, expect }
}

/// A set-up of the contract at `to` with the winning rates `rates`.
pub open spec fn setup_view(
    from: AddressBytes,
    to: AddressBytes,
    rates: Seq<WinningRateView>,
    expect: ExpectView,
) -> TransactionView {
    tx_view(
        from,
        Target::Call(to, Endpoint::SetupMysteryBox),
        Some(SETUP_GAS),
        seq![ArgView::WinningRates(rates)],
        PaymentView::NoPayment,
        expect,
    )
}

/// An opening of a mystery box at `to`, paid with the given token.
pub open spec fn open_view(
    from: AddressBytes,
    to: AddressBytes,
    gas: u64,
    token_id: Seq<char>,
    nonce: u64,
    amount: u128,
    expect: ExpectView,
) -> TransactionView {
    tx_view(
        from,
        Target::Call(to, Endpoint::OpenMysteryBox),
        Some(gas),
        seq![],
        PaymentView::Esdt(EsdtPaymentView { token_id, nonce, amount }),
        expect,
    )
}

/// A winning-rate entry value from its parts.
pub open spec fn rate(
    reward_type: RewardType,
    token: RewardTokenView,
    value: u128,
    description: Seq<char>,
    percentage: u64,
    cooldown_epochs: u64,
) -> WinningRateView {
    WinningRateView { reward_type, token, value, description, percentage, cooldown_epochs }
}

/// Winning rates: nothing, always.
pub open spec fn rates_reward_none() -> Seq<WinningRateView> {
    seq![rate(RewardType::NoReward, RewardTokenView::Esdt(TOKEN_IDENTIFIER2@), 0, "None"@, 10_000, 0)]
}

/// Winning rates: five SFTs or nothing, even odds.
pub open spec fn rates_sft_none_50_50() -> Seq<WinningRateView> {
    seq![
        rate(RewardType::SFT, RewardTokenView::Esdt(TOKEN_IDENTIFIER2@), 5, "SFT"@, 5_000, 0),
        rate(RewardType::NoReward, RewardTokenView::Esdt(TOKEN_IDENTIFIER2@), 0, "None"@, 5_000, 0),
    ]
}

/// Winning rates: two mystery-box SFTs, always.
pub open spec fn rates_sft3() -> Seq<WinningRateView> {
    seq![rate(RewardType::SFT, RewardTokenView::Esdt(MB_TOKEN_IDENTIFIER@), 2, "SFT"@, 10_000, 0)]
}

/// Winning rates: two SFTs (40%) or a fixed value of five (60%).
pub open spec fn rates_sft_fixed_value_50_50() -> Seq<WinningRateView> {
    seq![
        rate(RewardType::SFT, RewardTokenView::Esdt(TOKEN_IDENTIFIER2@), 2, "SFT"@, 4_000, 0),
        rate(RewardType::FixedValue, RewardTokenView::Esdt(TOKEN_IDENTIFIER2@), 5, "FixedValue"@, 6_000, 0),
    ]
}

/// Winning rates: a fixed value (30%, one epoch cooldown) or a custom
/// reward (70%, two epochs cooldown).
pub open spec fn rates_setup1() -> Seq<WinningRateView> {
    seq![
        rate(RewardType::FixedValue, RewardTokenView::Esdt(TOKEN_IDENTIFIER2@), 5, "FixedValue"@, 3_000, 1),
        rate(RewardType::CustomReward, RewardTokenView::Esdt(TOKEN_IDENTIFIER2@), 5, "CustomText"@, 7_000, 2),
    ]
}

/// Winning rates whose chances add up to 90% only.
pub open spec fn rates_fail_percentage() -> Seq<WinningRateView> {
    seq![
        rate(RewardType::FixedValue, RewardTokenView::Esdt(TOKEN_IDENTIFIER@), 5, "FixedValue"@, 2_000, 1),
        rate(RewardType::CustomReward, RewardTokenView::Esdt(TOKEN_IDENTIFIER@), 5, "CustomText"@, 7_000, 2),
    ]
}

/// Winning rates: one experience point, always.
pub open spec fn rates_one_reward() -> Seq<WinningRateView> {
    seq![rate(RewardType::ExperiencePoints, RewardTokenView::Esdt(TOKEN_IDENTIFIER@), 1, "ExperiencePoints"@, 10_000, 2)]
}

/// Winning rates: a hundred mystery boxes, always.
pub open spec fn rates_reward_mystery_box() -> Seq<WinningRateView> {
    seq![rate(RewardType::MysteryBox, RewardTokenView::Esdt(TOKEN_IDENTIFIER@), 100, "MysteryBox"@, 10_000, 0)]
}

/// Winning rates: a mystery box in a token that is not the mystery box.
pub open spec fn rates_reward_mystery_box_fail() -> Seq<WinningRateView> {
    seq![rate(RewardType::MysteryBox, RewardTokenView::Esdt(MB_TOKEN_IDENTIFIER_FAIL@), 1, "MysteryBox"@, 10_000, 0)]
}

/// Winning rates: zero experience points.
pub open spec fn rates_experience_points_fail() -> Seq<WinningRateView> {
    seq![rate(RewardType::ExperiencePoints, RewardTokenView::Esdt(MB_TOKEN_IDENTIFIER@), 0, "ExperiencePoints"@, 10_000, 0)]
}

/// Winning rates: an SFT paid in EGLD.
pub open spec fn rates_sft_fail() -> Seq<WinningRateView> {
    seq![rate(RewardType::SFT, RewardTokenView::Egld, 1, "SFT"@, 10_000, 0)]
}

/// Winning rates: a percentage of zero.
pub open spec fn rates_percent_value_fail() -> Seq<WinningRateView> {
    seq![rate(RewardType::PercentValue, RewardTokenView::Egld, 0, "Percent"@, 10_000, 0)]
}

/// Winning rates: a fixed value of zero.
pub open spec fn rates_fixed_value_fail() -> Seq<WinningRateView> {
    seq![rate(RewardType::FixedValue, RewardTokenView::Egld, 0, "FixedValue"@, 10_000, 0)]
}

/// Winning rates: a custom reward without a description.
pub open spec fn rates_custom_reward_fail() -> Seq<WinningRateView> {
    seq![rate(RewardType::CustomReward, RewardTokenView::Egld, 0, ""@, 10_000, 0)]
}

/// The accounts the interactor signs with, and its saved state.
#[derive(Clone, Debug, PartialEq, Eq)]
pub struct ContractInteract {
    pub wallet_address: AddressBytes,
    pub user1_address: AddressBytes,
    pub user2_address: AddressBytes,
    pub state: State,
}

impl ContractInteract {
    /// The address of the deployed contract.
    pub open spec fn contract(&self) -> AddressBytes {
        self.state.contract_address->0.address
    }

    /// Whether a contract has been deployed (or loaded from the saved state).
    pub open spec fn has_contract(&self) -> bool {
        self.state.contract_address is Some
    }

    /// The interactor with the admin wallet, the two user wallets, and the
    /// state it starts from.
    pub fn new(
        wallet_address: AddressBytes,
        user1_address: AddressBytes,
        user2_address: AddressBytes,
        state: State,
    ) -> (res: ContractInteract)
        ensures
            res.wallet_address == wallet_address,
            res.user1_address == user1_address,
            res.user2_address == user2_address,
            res.state == state,
    {
        ContractInteract { wallet_address, user1_address, user2_address, state }
    }

    /// The address of the deployed contract, read from the state.
    fn contract_address(&self) -> (res: AddressBytes)
        requires
            self.has_contract(),
        ensures
            res == self.contract(),
    {
        self.state.current_address().to_address()
    }

    /// A transaction from its parts.
    fn transaction(
        from: AddressBytes,
        target: Target,
        gas: Option<u64>,
        args: Vec<Arg>,
        payment: Payment,
        expect: Expect,
    ) -> (res: Transaction)
        ensures
            res@ == tx_view(from, target, gas, args_view(args@), payment@, expect@),
    {
        Transaction { from, target, gas, args, payment, expect }
    }

    /// A set-up of the deployed contract, signed by the admin wallet.
    fn setup_with(&self, rates: Vec<WinningRate>, expect: Expect) -> (res: Transaction)
        requires
            self.has_contract(),
        ensures
            res@ == setup_view(self.wallet_address, self.contract(), rates_view(rates@), expect@),
    {
        let to = self.contract_address();
        let args = vec![Arg::WinningRates(rates)];
        proof {
            assert(args_view(args@) =~= seq![ArgView::WinningRates(rates_view(rates@))]);
        }
        Self::transaction(
            self.wallet_address,
            Target::Call(to, Endpoint::SetupMysteryBox),
            Some(SETUP_GAS),
            args,
            Payment::NoPayment,
            expect,
        )
    }

    /// An opening of a mystery box at the deployed contract.
    fn open_with(
        &self,
        from: AddressBytes,
        gas: u64,
        token_id: &str,
        token_nonce: u64,
        token_amount: u128,
        expect: Expect,
    ) -> (res: Transaction)
        requires
            self.has_contract(),
        ensures
            res@ == open_view(from, self.contract(), gas, token_id@, token_nonce, token_amount, expect@),
    {
        let to = self.contract_address();
        let args: Vec<Arg> = Vec::new();
        proof {
            assert(args_view(args@) =~= seq![]);
        }
        Self::transaction(
            from,
            Target::Call(to, Endpoint::OpenMysteryBox),
            Some(gas),
            args,
            Payment::Esdt(EsdtPayment::new(token_id, token_nonce, token_amount)),
            expect,
        )
    }
}

impl ContractInteract {
    /// Sets the contract up so that a box gives nothing.
    pub fn setup_mystery_box_reward_None(&self) -> (res: Transaction)
        requires
            self.has_contract(),
        ensures
            res@ == setup_view(self.wallet_address, self.contract(), rates_reward_none(), ExpectView::Success),
    {
        let rates = vec![
            WinningRate::new(RewardType::NoReward, RewardToken::esdt(TOKEN_IDENTIFIER2), 0, "None", 10_000, 0),
        ];
        proof {
            assert(rates_view(rates@) =~= rates_reward_none());
        }
        self.setup_with(rates, Expect::Success)
    }

    /// Sets the contract up so that a box gives five SFTs or nothing, even odds.
    pub fn setup_mystery_box_reward_SFT_None_50_50(&self) -> (res: Transaction)
        requires
            self.has_contract(),
        ensures
            res@ == setup_view(self.wallet_address, self.contract(), rates_sft_none_50_50(), ExpectView::Success),
    {
        let rates = vec![
            WinningRate::new(RewardType::SFT, RewardToken::esdt(TOKEN_IDENTIFIER2), 5, "SFT", 5_000, 0),
            WinningRate::new(RewardType::NoReward, RewardToken::esdt(TOKEN_IDENTIFIER2), 0, "None", 5_000, 0),
        ];
        proof {
            assert(rates_view(rates@) =~= rates_sft_none_50_50());
        }
        self.setup_with(rates, Expect::Success)
    }

    /// Sets the contract up so that a box gives two mystery-box SFTs.
    pub fn setup_mystery_box_reward_SFT3(&self) -> (res: Transaction)
        requires
            self.has_contract(),
        ensures
            res@ == setup_view(self.wallet_address, self.contract(), rates_sft3(), ExpectView::Success),
    {
        let rates = vec![
            WinningRate::new(RewardType::SFT, RewardToken::esdt(MB_TOKEN_IDENTIFIER), 2, "SFT", 10_000, 0),
        ];
        proof {
            assert(rates_view(rates@) =~= rates_sft3());
        }
        self.setup_with(rates, Expect::Success)
    }

    /// Sets the contract up so that a box gives two SFTs (40%) or a fixed value of five (60%).
    pub fn setup_mystery_box_reward_SFT_FixedValue_50_50(&self) -> (res: Transaction)
        requires
            self.has_contract(),
        ensures
            res@ == setup_view(self.wallet_address, self.contract(), rates_sft_fixed_value_50_50(), ExpectView::Success),
    {
        let rates = vec![
            WinningRate::new(RewardType::SFT, RewardToken::esdt(TOKEN_IDENTIFIER2), 2, "SFT", 4_000, 0),
            WinningRate::new(RewardType::FixedValue, RewardToken::esdt(TOKEN_IDENTIFIER2), 5, "FixedValue", 6_000, 0),
        ];
        proof {
            assert(rates_view(rates@) =~= rates_sft_fixed_value_50_50());
        }
        self.setup_with(rates, Expect::Success)
    }

    /// Sets the contract up with a fixed value (30%) and a custom reward (70%).
    pub fn setup_mystery_box1(&self) -> (res: Transaction)
        requires
            self.has_contract(),
        ensures
            res@ == setup_view(self.wallet_address, self.contract(), rates_setup1(), ExpectView::Success),
    {
        let rates = vec![
            WinningRate::new(RewardType::FixedValue, RewardToken::esdt(TOKEN_IDENTIFIER2), 5, "FixedValue", 3_000, 1),
            WinningRate::new(RewardType::CustomReward, RewardToken::esdt(TOKEN_IDENTIFIER2), 5, "CustomText", 7_000, 2),
        ];
        proof {
            assert(rates_view(rates@) =~= rates_setup1());
        }
        self.setup_with(rates, Expect::Success)
    }

    /// Offers a set-up whose chances add up to 90% only, expecting `expected`.
    pub fn setup_mystery_box_fail_percentage(&self, expected: Expect) -> (res: Transaction)
        requires
            self.has_contract(),
        ensures
            res@ == setup_view(self.wallet_address, self.contract(), rates_fail_percentage(), expected@),
    {
        let rates = vec![
            WinningRate::new(RewardType::FixedValue, RewardToken::esdt(TOKEN_IDENTIFIER), 5, "FixedValue", 2_000, 1),
            WinningRate::new(RewardType::CustomReward, RewardToken::esdt(TOKEN_IDENTIFIER), 5, "CustomText", 7_000, 2),
        ];
        proof {
            assert(rates_view(rates@) =~= rates_fail_percentage());
        }
        self.setup_with(rates, expected)
    }

    /// Sets the contract up so that a box gives one experience point.
    pub fn setup_mystery_box_one_reward(&self) -> (res: Transaction)
        requires
            self.has_contract(),
        ensures
            res@ == setup_view(self.wallet_address, self.contract(), rates_one_reward(), ExpectView::Success),
    {
        let rates = vec![
            WinningRate::new(RewardType::ExperiencePoints, RewardToken::esdt(TOKEN_IDENTIFIER), 1, "ExperiencePoints", 10_000, 2),
        ];
        proof {
            assert(rates_view(rates@) =~= rates_one_reward());
        }
        self.setup_with(rates, Expect::Success)
    }

    /// Sets the contract up so that a box gives a hundred mystery boxes.
    pub fn setup_mystery_box_reward_mystery_box(&self) -> (res: Transaction)
        requires
            self.has_contract(),
        ensures
            res@ == setup_view(self.wallet_address, self.contract(), rates_reward_mystery_box(), ExpectView::Success),
    {
        let rates = vec![
            WinningRate::new(RewardType::MysteryBox, RewardToken::esdt(TOKEN_IDENTIFIER), 100, "MysteryBox", 10_000, 0),
        ];
        proof {
            assert(rates_view(rates@) =~= rates_reward_mystery_box());
        }
        self.setup_with(rates, Expect::Success)
    }

    /// Offers a mystery-box reward in a token that is not the mystery box, expecting `expected`.
    pub fn setup_mystery_box_reward_mystery_box_fail(&self, expected: Expect) -> (res: Transaction)
        requires
            self.has_contract(),
        ensures
            res@ == setup_view(self.wallet_address, self.contract(), rates_reward_mystery_box_fail(), expected@),
    {
        let rates = vec![
            WinningRate::new(RewardType::MysteryBox, RewardToken::esdt(MB_TOKEN_IDENTIFIER_FAIL), 1, "MysteryBox", 10_000, 0),
        ];
        proof {
            assert(rates_view(rates@) =~= rates_reward_mystery_box_fail());
        }
        self.setup_with(rates, expected)
    }

    /// Offers zero experience points as a reward, expecting `expected`.
    pub fn setup_mystery_box_reward_ExperiencePoints_fail(&self, expected: Expect) -> (res: Transaction)
        requires
            self.has_contract(),
        ensures
            res@ == setup_view(self.wallet_address, self.contract(), rates_experience_points_fail(), expected@),
    {
        let rates = vec![
            WinningRate::new(RewardType::ExperiencePoints, RewardToken::esdt(MB_TOKEN_IDENTIFIER), 0, "ExperiencePoints", 10_000, 0),
        ];
        proof {
            assert(rates_view(rates@) =~= rates_experience_points_fail());
        }
        self.setup_with(rates, expected)
    }

    /// Offers an SFT reward paid in EGLD, expecting `expected`.
    pub fn setup_mystery_box_reward_SFT_fail(&self, expected: Expect) -> (res: Transaction)
        requires
            self.has_contract(),
        ensures
            res@ == setup_view(self.wallet_address, self.contract(), rates_sft_fail(), expected@),
    {
        let rates = vec![
            WinningRate::new(RewardType::SFT, RewardToken::Egld, 1, "SFT", 10_000, 0),
        ];
        proof {
            assert(rates_view(rates@) =~= rates_sft_fail());
        }
        self.setup_with(rates, expected)
    }

    /// Offers a percentage reward of zero, expecting `expected`.
    pub fn setup_mystery_box_reward_PercentValue_fail(&self, expected: Expect) -> (res: Transaction)
        requires
            self.has_contract(),
        ensures
            res@ == setup_view(self.wallet_address, self.contract(), rates_percent_value_fail(), expected@),
    {
        let rates = vec![
            WinningRate::new(RewardType::PercentValue, RewardToken::Egld, 0, "Percent", 10_000, 0),
        ];
        proof {
            assert(rates_view(rates@) =~= rates_percent_value_fail());
        }
        self.setup_with(rates, expected)
    }

    /// Offers a fixed-value reward of zero, expecting `expected`.
    pub fn setup_mystery_box_reward_FixedValue_fail(&self, expected: Expect) -> (res: Transaction)
        requires
            self.has_contract(),
        ensures
            res@ == setup_view(self.wallet_address, self.contract(), rates_fixed_value_fail(), expected@),
    {
        let rates = vec![
            WinningRate::new(RewardType::FixedValue, RewardToken::Egld, 0, "FixedValue", 10_000, 0),
        ];
        proof {
            assert(rates_view(rates@) =~= rates_fixed_value_fail());
        }
        self.setup_with(rates, expected)
    }

    /// Offers a custom reward without a description, expecting `expected`.
    pub fn setup_mystery_box_reward_CustomReward_fail(&self, expected: Expect) -> (res: Transaction)
        requires
            self.has_contract(),
        ensures
            res@ == setup_view(self.wallet_address, self.contract(), rates_custom_reward_fail(), expected@),
    {
        let rates = vec![
            WinningRate::new(RewardType::CustomReward, RewardToken::Egld, 0, "", 10_000, 0),
        ];
        proof {
            assert(rates_view(rates@) =~= rates_custom_reward_fail());
        }
        self.setup_with(rates, expected)
    }

    /// Sends a set-up with no winning rates at all.
    pub fn setup_mystery_box(&self) -> (res: Transaction)
        requires
            self.has_contract(),
        ensures
            res@ == setup_view(self.wallet_address, self.contract(), seq![], ExpectView::Success),
    {
        let rates: Vec<WinningRate> = Vec::new();
        proof {
            assert(rates_view(rates@) =~= seq![]);
        }
        self.setup_with(rates, Expect::Success)
    }
}

impl ContractInteract {
    /// Deploys the mystery-box contract for the token `TOKEN_IDENTIFIER`.
    pub fn deploy(&self) -> (res: Transaction)
        ensures
            res@ == tx_view(
                self.wallet_address,
                Target::Deploy(ContractCode::MysteryBox),
                Some(DEPLOY_GAS),
                seq![ArgView::TokenIdentifier(TOKEN_IDENTIFIER@)],
                PaymentView::NoPayment,
                ExpectView::Success,
            ),
    {
        let args = vec![Arg::TokenIdentifier(TOKEN_IDENTIFIER.to_owned())];
        proof {
            assert(args_view(args@) =~= seq![ArgView::TokenIdentifier(TOKEN_IDENTIFIER@)]);
        }
        Self::transaction(
            self.wallet_address,
            Target::Deploy(ContractCode::MysteryBox),
            Some(DEPLOY_GAS),
            args,
            Payment::NoPayment,
            Expect::Success,
        )
    }

    /// Records the address at which the mystery-box contract was deployed,
    /// and gives back its bech32 form.
    pub fn record_deployment(&mut self, new_address: AddressBytes) -> (bech32: String)
        ensures
            bech32@ == bech32_encoding(new_address@),
            final(self).state.contract_address matches Some(a) && a.address == new_address
                && a.bech32@ == bech32_encoding(new_address@),
            final(self).state.collection == old(self).state.collection,
            final(self).wallet_address == old(self).wallet_address,
            final(self).user1_address == old(self).user1_address,
            final(self).user2_address == old(self).user2_address,
    {
        let address = Bech32Address::from_address(new_address);
        let bech32 = address.to_bech32_string();
        self.state.set_address(address);
        bech32
    }

    /// Deploys the test contract, which forwards mystery boxes.
    pub fn deploy_contract_test(&self) -> (res: Transaction)
        ensures
            res@ == tx_view(
                self.wallet_address,
                Target::Deploy(ContractCode::ContractTest),
                Some(DEPLOY_GAS),
                seq![],
                PaymentView::NoPayment,
                ExpectView::Success,
            ),
    {
        let args: Vec<Arg> = Vec::new();
        proof {
            assert(args_view(args@) =~= seq![]);
        }
        Self::transaction(
            self.wallet_address,
            Target::Deploy(ContractCode::ContractTest),
            Some(DEPLOY_GAS),
            args,
            Payment::NoPayment,
            Expect::Success,
        )
    }

    /// Deploys the mystery-box contract for a token identifier that is not
    /// valid, expecting `expected`.
    pub fn deploy_fail(&self, expected: Expect) -> (res: Transaction)
        ensures
            res@ == tx_view(
                self.wallet_address,
                Target::Deploy(ContractCode::MysteryBox),
                Some(OPEN_GAS),
                seq![ArgView::TokenIdentifier(INVALID_TOKEN_ID@)],
                PaymentView::NoPayment,
                expected@,
            ),
    {
        let args = vec![Arg::TokenIdentifier(INVALID_TOKEN_ID.to_owned())];
        proof {
            assert(args_view(args@) =~= seq![ArgView::TokenIdentifier(INVALID_TOKEN_ID@)]);
        }
        Self::transaction(
            self.wallet_address,
            Target::Deploy(ContractCode::MysteryBox),
            Some(OPEN_GAS),
            args,
            Payment::NoPayment,
            expected,
        )
    }

    /// Calls `send_nft` for `recipient` at `to`, paying mystery boxes.
    fn send_nft_with(
        &self,
        to: AddressBytes,
        recipient: AddressBytes,
        nonce: u64,
        amount: u128,
        expect: Expect,
    ) -> (res: Transaction)
        ensures
            res@ == tx_view(
                self.wallet_address,
                Target::Call(to, Endpoint::SendNft),
                None,
                seq![ArgView::Address(recipient)],
                PaymentView::Esdt(EsdtPaymentView { token_id: MB_TOKEN_IDENTIFIER@, nonce, amount }),
                expect@,
            ),
    {
        let args = vec![Arg::Address(recipient)];
        proof {
            assert(args_view(args@) =~= seq![ArgView::Address(recipient)]);
        }
        Self::transaction(
            self.wallet_address,
            Target::Call(to, Endpoint::SendNft),
            None,
            args,
            Payment::Esdt(EsdtPayment::new(MB_TOKEN_IDENTIFIER, nonce, amount)),
            expect,
        )
    }

    /// Sends ten mystery boxes (nonce 1) to the contract's `send_nft`, for
    /// the first user.
    pub fn send_nft_to_user(&self) -> (res: Transaction)
        requires
            self.has_contract(),
        ensures
            res@ == tx_view(
                self.wallet_address,
                Target::Call(self.contract(), Endpoint::SendNft),
                None,
                seq![ArgView::Address(self.user1_address)],
                PaymentView::Esdt(EsdtPaymentView { token_id: MB_TOKEN_IDENTIFIER@, nonce: 1, amount: 10 }),
                ExpectView::Success,
            ),
    {
        let to = self.contract_address();
        self.send_nft_with(to, self.user1_address, 1, 10, Expect::Success)
    }

    /// Sends two mystery boxes (nonce 7) to `send_nft` at the first user's
    /// address, for the first user.
    pub fn send_nft_to_user1(&self) -> (res: Transaction)
        ensures
            res@ == tx_view(
                self.wallet_address,
                Target::Call(self.user1_address, Endpoint::SendNft),
                None,
                seq![ArgView::Address(self.user1_address)],
                PaymentView::Esdt(EsdtPaymentView { token_id: MB_TOKEN_IDENTIFIER@, nonce: 7, amount: 2 }),
                ExpectView::Success,
            ),
    {
        self.send_nft_with(self.user1_address, self.user1_address, 7, 2, Expect::Success)
    }

    /// Sends ten mystery boxes (nonce 2) to `send_nft` at the second user's
    /// address, for the second user.
    pub fn send_nft_to_user2(&self) -> (res: Transaction)
        ensures
            res@ == tx_view(
                self.wallet_address,
                Target::Call(self.user2_address, Endpoint::SendNft),
                None,
                seq![ArgView::Address(self.user2_address)],
                PaymentView::Esdt(EsdtPaymentView { token_id: MB_TOKEN_IDENTIFIER@, nonce: 2, amount: 10 }),
                ExpectView::Success,
            ),
    {
        self.send_nft_with(self.user2_address, self.user2_address, 2, 10, Expect::Success)
    }

    /// Sends one mystery box to the test contract at `to`, which forwards it
    /// to the mystery-box contract to be opened; `expected` is the outcome.
    pub fn send_nft_to_sc(&self, to: AddressBytes, expected: Expect) -> (res: Transaction)
        requires
            self.has_contract(),
        ensures
            res@ == tx_view(
                self.wallet_address,
                Target::Call(to, Endpoint::SendNft),
                None,
                seq![ArgView::Address(self.contract())],
                PaymentView::Esdt(EsdtPaymentView { token_id: MB_TOKEN_IDENTIFIER@, nonce: 1, amount: 1 }),
                expected@,
            ),
    {
        let contract = self.contract_address();
        self.send_nft_with(to, contract, 1, 1, expected)
    }
}

impl ContractInteract {
    /// Replaces the mystery box's URIs with a single empty one.
    pub fn update_mystery_box_uris(&self) -> (res: Transaction)
        requires
            self.has_contract(),
        ensures
            res@ == tx_view(
                self.wallet_address,
                Target::Call(self.contract(), Endpoint::UpdateMysteryBoxUris),
                Some(SETUP_GAS),
                seq![ArgView::Uris(seq![""@])],
                PaymentView::NoPayment,
                ExpectView::Success,
            ),
    {
        let to = self.contract_address();
        let uris = vec!["".to_owned()];
        let args = vec![Arg::Uris(uris)];
        proof {
            assert(uris@.map_values(|u: String| u@) =~= seq![""@]);
            assert(args_view(args@) =~= seq![ArgView::Uris(seq![""@])]);
        }
        Self::transaction(
            self.wallet_address,
            Target::Call(to, Endpoint::UpdateMysteryBoxUris),
            Some(SETUP_GAS),
            args,
            Payment::NoPayment,
            Expect::Success,
        )
    }

    /// Asks the contract to create `amount` mystery boxes; `expect` is the
    /// outcome.
    fn create_with(&self, amount: u128, expect: Expect) -> (res: Transaction)
        requires
            self.has_contract(),
        ensures
            res@ == tx_view(
                self.wallet_address,
                Target::Call(self.contract(), Endpoint::CreateMysteryBox),
                Some(SETUP_GAS),
                seq![ArgView::BigUint(amount)],
                PaymentView::NoPayment,
                expect@,
            ),
    {
        let to = self.contract_address();
        let args = vec![Arg::BigUint(amount)];
        proof {
            assert(args_view(args@) =~= seq![ArgView::BigUint(amount)]);
        }
        Self::transaction(
            self.wallet_address,
            Target::Call(to, Endpoint::CreateMysteryBox),
            Some(SETUP_GAS),
            args,
            Payment::NoPayment,
            expect,
        )
    }

    /// Creates `amount` mystery boxes.
    pub fn create_mystery_box(&self, amount: u128) -> (res: Transaction)
        requires
            self.has_contract(),
        ensures
            res@ == tx_view(
                self.wallet_address,
                Target::Call(self.contract(), Endpoint::CreateMysteryBox),
                Some(SETUP_GAS),
                seq![ArgView::BigUint(amount)],
                PaymentView::NoPayment,
                ExpectView::Success,
            ),
    {
        self.create_with(amount, Expect::Success)
    }

    /// Asks for `amount` mystery boxes, expecting `expected`.
    pub fn create_mystery_box_fail(&self, amount: u128, expected: Expect) -> (res: Transaction)
        requires
            self.has_contract(),
        ensures
            res@ == tx_view(
                self.wallet_address,
                Target::Call(self.contract(), Endpoint::CreateMysteryBox),
                Some(SETUP_GAS),
                seq![ArgView::BigUint(amount)],
                PaymentView::NoPayment,
                expected@,
            ),
    {
        self.create_with(amount, expected)
    }

    /// Opens a mystery box as the first user.
    pub fn open_mystery_box(
        &self,
        token_id: &str,
        token_nonce: u64,
        token_amount: u128,
    ) -> (res: Transaction)
        requires
            self.has_contract(),
        ensures
            res@ == open_view(self.user1_address, self.contract(), OPEN_GAS, token_id@, token_nonce, token_amount, ExpectView::Success),
    {
        self.open_with(self.user1_address, OPEN_GAS, token_id, token_nonce, token_amount, Expect::Success)
    }

    /// Opens a mystery box as the first user, with more gas.
    pub fn open_mystery_box_user1(
        &self,
        token_id: &str,
        token_nonce: u64,
        token_amount: u128,
    ) -> (res: Transaction)
        requires
            self.has_contract(),
        ensures
            res@ == open_view(self.user1_address, self.contract(), 100_000_000, token_id@, token_nonce, token_amount, ExpectView::Success),
    {
        self.open_with(self.user1_address, 100_000_000, token_id, token_nonce, token_amount, Expect::Success)
    }

    /// Opens a mystery box as the second user.
    pub fn open_mystery_box_user2(
        &self,
        token_id: &str,
        token_nonce: u64,
        token_amount: u128,
    ) -> (res: Transaction)
        requires
            self.has_contract(),
        ensures
            res@ == open_view(self.user2_address, self.contract(), OPEN_GAS, token_id@, token_nonce, token_amount, ExpectView::Success),
    {
        self.open_with(self.user2_address, OPEN_GAS, token_id, token_nonce, token_amount, Expect::Success)
    }

    /// Opens a mystery box as the account `adresa`.
    pub fn open_mystery_box_by_user(
        &self,
        adresa: AddressBytes, token_id: &str,
        token_nonce: u64,
        token_amount: u128,
    ) -> (res: Transaction)
        requires
            self.has_contract(),
        ensures
            res@ == open_view(adresa, self.contract(), 200_000_000, token_id@, token_nonce, token_amount, ExpectView::Success),
    {
        self.open_with(adresa, 200_000_000, token_id, token_nonce, token_amount, Expect::Success)
    }

    /// Opens a mystery box as the account `sc_account` (a contract), expecting `expected`.
    pub fn open_mystery_box_by_sc(
        &self,
        sc_account: AddressBytes, token_id: &str,
        token_nonce: u64,
        token_amount: u128, expected: Expect,
    ) -> (res: Transaction)
        requires
            self.has_contract(),
        ensures
            res@ == open_view(sc_account, self.contract(), OPEN_GAS, token_id@, token_nonce, token_amount, expected@),
    {
        self.open_with(sc_account, OPEN_GAS, token_id, token_nonce, token_amount, expected)
    }

    /// Opens a mystery box as the admin wallet, paying with a token that may not be the mystery box; `expected` is the outcome.
    pub fn open_mystery_box_wrong_token(
        &self,
        token_id: &str,
        token_nonce: u64,
        token_amount: u128, expected: Expect,
    ) -> (res: Transaction)
        requires
            self.has_contract(),
        ensures
            res@ == open_view(self.wallet_address, self.contract(), OPEN_GAS, token_id@, token_nonce, token_amount, expected@),
    {
        self.open_with(self.wallet_address, OPEN_GAS, token_id, token_nonce, token_amount, expected)
    }

    /// Opens a mystery box as the admin wallet, paying an amount that may not be one; `expected` is the outcome.
    pub fn open_mystery_box_wrong_amount(
        &self,
        token_id: &str,
        token_nonce: u64,
        token_amount: u128, expected: Expect,
    ) -> (res: Transaction)
        requires
            self.has_contract(),
        ensures
            res@ == open_view(self.wallet_address, self.contract(), OPEN_GAS, token_id@, token_nonce, token_amount, expected@),
    {
        self.open_with(self.wallet_address, OPEN_GAS, token_id, token_nonce, token_amount, expected)
    }

    /// Transfers tokens from the admin wallet to the contract.
    pub fn feed_contract_egld(&self, token_id: &str, token_nonce: u64, token_amount: u128) -> (res:
        Transaction)
        requires
            self.has_contract(),
        ensures
            res@ == tx_view(
                self.wallet_address,
                Target::Transfer(self.contract()),
                None,
                seq![],
                PaymentView::Esdt(EsdtPaymentView { token_id: token_id@, nonce: token_nonce, amount: token_amount }),
                ExpectView::Success,
            ),
    {
        let to = self.contract_address();
        let args: Vec<Arg> = Vec::new();
        proof {
            assert(args_view(args@) =~= seq![]);
        }
        Self::transaction(
            self.wallet_address,
            Target::Transfer(to),
            None,
            args,
            Payment::Esdt(EsdtPayment::new(token_id, token_nonce, token_amount)),
            Expect::Success,
        )
    }

    /// Has the contract move the given tokens to `recipient`.
    fn update_attributes_for(
        &self,
        recipient: AddressBytes,
        token_id: &str,
        token_nonce: u64,
        token_amount: u128,
    ) -> (res: Transaction)
        requires
            self.has_contract(),
        ensures
            res@ == tx_view(
                self.wallet_address,
                Target::Call(self.contract(), Endpoint::UpdateAttributes),
                Some(OPEN_GAS),
                seq![
                    ArgView::Payment(EsdtPaymentView { token_id: token_id@, nonce: token_nonce, amount: token_amount }),
                    ArgView::Address(recipient),
                ],
                PaymentView::NoPayment,
                ExpectView::Success,
            ),
    {
        let to = self.contract_address();
        let args = vec![
            Arg::Payment(EsdtPayment::new(token_id, token_nonce, token_amount)),
            Arg::Address(recipient),
        ];
        proof {
            assert(args_view(args@) =~= seq![
                ArgView::Payment(EsdtPaymentView { token_id: token_id@, nonce: token_nonce, amount: token_amount }),
                ArgView::Address(recipient),
            ]);
        }
        Self::transaction(
            self.wallet_address,
            Target::Call(to, Endpoint::UpdateAttributes),
            Some(OPEN_GAS),
            args,
            Payment::NoPayment,
            Expect::Success,
        )
    }

    /// Has the contract move the given tokens from the admin to the first user.
    pub fn send_from_admin_to_user1(&self, token_id: &str, token_nonce: u64, token_amount: u128) -> (res:
        Transaction)
        requires
            self.has_contract(),
        ensures
            res@ == tx_view(
                self.wallet_address,
                Target::Call(self.contract(), Endpoint::UpdateAttributes),
                Some(OPEN_GAS),
                seq![
                    ArgView::Payment(EsdtPaymentView { token_id: token_id@, nonce: token_nonce, amount: token_amount }),
                    ArgView::Address(self.user1_address),
                ],
                PaymentView::NoPayment,
                ExpectView::Success,
            ),
    {
        self.update_attributes_for(self.user1_address, token_id, token_nonce, token_amount)
    }

    /// Has the contract move the given tokens from the admin to the second user.
    pub fn send_from_admin_to_user2(&self, token_id: &str, token_nonce: u64, token_amount: u128) -> (res:
        Transaction)
        requires
            self.has_contract(),
        ensures
            res@ == tx_view(
                self.wallet_address,
                Target::Call(self.contract(), Endpoint::UpdateAttributes),
                Some(OPEN_GAS),
                seq![
                    ArgView::Payment(EsdtPaymentView { token_id: token_id@, nonce: token_nonce, amount: token_amount }),
                    ArgView::Address(self.user2_address),
                ],
                PaymentView::NoPayment,
                ExpectView::Success,
            ),
    {
        self.update_attributes_for(self.user2_address, token_id, token_nonce, token_amount)
    }
}

/// A query of `endpoint` at `to` with the given arguments.
pub open spec fn query_view(to: AddressBytes, endpoint: Endpoint, args: Seq<ArgView>) -> QueryView {
    QueryView { to, endpoint, args }
}

/// An admin change at `to`, signed by `from`, naming `account`.
pub open spec fn admin_view(
    from: AddressBytes,
    to: AddressBytes,
    endpoint: Endpoint,
    account: AddressBytes,
    expect: ExpectView,
) -> TransactionView {
    tx_view(
        from,
        Target::Call(to, endpoint),
        Some(SETUP_GAS),
        seq![ArgView::Address(account)],
        PaymentView::NoPayment,
        expect,
    )
}

impl ContractInteract {
    /// A query of the deployed contract.
    fn query_with(&self, endpoint: Endpoint, args: Vec<Arg>) -> (res: Query)
        requires
            self.has_contract(),
        ensures
            res@ == query_view(self.contract(), endpoint, args_view(args@)),
    {
        let to = self.contract_address();
        Query { to, endpoint, args }
    }

    /// A query of the deployed contract that takes no arguments.
    fn plain_query(&self, endpoint: Endpoint) -> (res: Query)
        requires
            self.has_contract(),
        ensures
            res@ == query_view(self.contract(), endpoint, seq![]),
    {
        let args: Vec<Arg> = Vec::new();
        proof {
            assert(args_view(args@) =~= seq![]);
        }
        self.query_with(endpoint, args)
    }

    /// Asks for the identifier of the mystery-box token.
    pub fn mystery_box_token_id(&self) -> (res: Query)
        requires
            self.has_contract(),
        ensures
            res@ == query_view(self.contract(), Endpoint::GetMysteryBoxTokenIdentifier, seq![]),
    {
        self.plain_query(Endpoint::GetMysteryBoxTokenIdentifier)
    }

    /// Asks for the identifier of the token the contract issued.
    pub fn token_issued(&self) -> (res: Query)
        requires
            self.has_contract(),
        ensures
            res@ == query_view(self.contract(), Endpoint::GetTokenIssued, seq![]),
    {
        self.plain_query(Endpoint::GetTokenIssued)
    }

    /// Asks for the epoch until which rewards of kind `reward` cool down.
    pub fn global_cooldown_epoch(&self, reward: RewardType) -> (res: Query)
        requires
            self.has_contract(),
        ensures
            res@ == query_view(self.contract(), Endpoint::GetGlobalCooldownEpoch, seq![ArgView::Reward(reward)]),
    {
        let args = vec![Arg::Reward(reward)];
        proof {
            assert(args_view(args@) =~= seq![ArgView::Reward(reward)]);
        }
        self.query_with(Endpoint::GetGlobalCooldownEpoch, args)
    }

    /// Asks for the winning rates the contract was set up with.
    pub fn winning_rates(&self) -> (res: Query)
        requires
            self.has_contract(),
        ensures
            res@ == query_view(self.contract(), Endpoint::GetWinningRates, seq![]),
    {
        self.plain_query(Endpoint::GetWinningRates)
    }

    /// Asks for the mystery box's URIs.
    pub fn mystery_box_uris(&self) -> (res: Query)
        requires
            self.has_contract(),
        ensures
            res@ == query_view(self.contract(), Endpoint::GetMysteryBoxUris, seq![]),
    {
        self.plain_query(Endpoint::GetMysteryBoxUris)
    }

    /// Asks whether `adresa` is an admin.
    pub fn is_admin(&self, adresa: &Bech32Address) -> (res: Query)
        requires
            self.has_contract(),
        ensures
            res@ == query_view(self.contract(), Endpoint::IsAdmin, seq![ArgView::Address(adresa.address)]),
    {
        let args = vec![Arg::Address(adresa.to_address())];
        proof {
            assert(args_view(args@) =~= seq![ArgView::Address(adresa.address)]);
        }
        self.query_with(Endpoint::IsAdmin, args)
    }

    /// Asks for the list of admins.
    pub fn admins(&self) -> (res: Query)
        requires
            self.has_contract(),
        ensures
            res@ == query_view(self.contract(), Endpoint::GetAdmins, seq![]),
    {
        self.plain_query(Endpoint::GetAdmins)
    }

    /// An admin change at the deployed contract.
    fn admin_change(
        &self,
        from: AddressBytes,
        endpoint: Endpoint,
        account: &Bech32Address,
        expect: Expect,
    ) -> (res: Transaction)
        requires
            self.has_contract(),
        ensures
            res@ == admin_view(from, self.contract(), endpoint, account.address, expect@),
    {
        let to = self.contract_address();
        let args = vec![Arg::Address(account.to_address())];
        proof {
            assert(args_view(args@) =~= seq![ArgView::Address(account.address)]);
        }
        Self::transaction(
            from,
            Target::Call(to, endpoint),
            Some(SETUP_GAS),
            args,
            Payment::NoPayment,
            expect,
        )
    }

    /// Makes `new_admin` an admin, signed by the admin wallet.
    pub fn add_admin(&self, new_admin: &Bech32Address) -> (res: Transaction)
        requires
            self.has_contract(),
        ensures
            res@ == admin_view(self.wallet_address, self.contract(), Endpoint::AddAdmin, new_admin.address, ExpectView::Success),
    {
        self.admin_change(self.wallet_address, Endpoint::AddAdmin, new_admin, Expect::Success)
    }

    /// Removes `admin` from the admins, signed by the admin wallet.
    pub fn remove_admin(&self, admin: &Bech32Address) -> (res: Transaction)
        requires
            self.has_contract(),
        ensures
            res@ == admin_view(self.wallet_address, self.contract(), Endpoint::RemoveAdmin, admin.address, ExpectView::Success),
    {
        self.admin_change(self.wallet_address, Endpoint::RemoveAdmin, admin, Expect::Success)
    }

    /// Tries to remove `admin` from the admins as the second user, who is
    /// no admin; `expected` is the outcome.
    pub fn remove_admin_by_user_fail(&self, admin: &Bech32Address, expected: Expect) -> (res: Transaction)
        requires
            self.has_contract(),
        ensures
            res@ == admin_view(self.user2_address, self.contract(), Endpoint::RemoveAdmin, admin.address, expected@),
    {
        self.admin_change(self.user2_address, Endpoint::RemoveAdmin, admin, expected)
    }

    /// Has the contract issue its token (name "Nume", ticker "TTO"), paying
    /// the issue cost in EGLD.
    pub fn issue_token_set_all_roles(&self) -> (res: Transaction)
        requires
            self.has_contract(),
        ensures
            res@ == tx_view(
                self.wallet_address,
                Target::Call(self.contract(), Endpoint::Issue),
                Some(DEPLOY_GAS),
                seq![ArgView::Buffer("Nume"@), ArgView::Buffer("TTO"@)],
                PaymentView::Egld(ISSUE_COST),
                ExpectView::Success,
            ),
    {
        let to = self.contract_address();
        let args = vec![Arg::Buffer("Nume".to_owned()), Arg::Buffer("TTO".to_owned())];
        proof {
            assert(args_view(args@) =~= seq![ArgView::Buffer("Nume"@), ArgView::Buffer("TTO"@)]);
        }
        Self::transaction(
            self.wallet_address,
            Target::Call(to, Endpoint::Issue),
            Some(DEPLOY_GAS),
            args,
            Payment::Egld(ISSUE_COST),
            Expect::Success,
        )
    }
}

} // verus!
