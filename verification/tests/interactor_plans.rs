use mystery_box_interactor::address::Bech32Address;
use mystery_box_interactor::interact::{
    ContractInteract, INVALID_TOKEN_ID, MB_TOKEN_IDENTIFIER, MB_TOKEN_IDENTIFIER_FAIL,
    TOKEN_IDENTIFIER, TOKEN_IDENTIFIER2, TOKEN_NONCE, WRONG,
};
use mystery_box_interactor::reward::{RewardToken, RewardType, WinningRate};
use mystery_box_interactor::state::State;
use mystery_box_interactor::transaction::{
    Arg, ContractCode, Endpoint, EsdtPayment, Expect, Payment, Query, Target, Transaction,
};

const WALLET: [u8; 32] = [1; 32];
const USER1: [u8; 32] = [2; 32];
const USER2: [u8; 32] = [3; 32];
const CONTRACT: [u8; 32] = [9; 32];

fn fresh() -> ContractInteract {
    ContractInteract::new(WALLET, USER1, USER2, State::load_state(None))
}

fn deployed() -> ContractInteract {
    let mut interact = fresh();
    interact.record_deployment(CONTRACT);
    interact
}

fn rates_of(tx: &Transaction) -> &Vec<WinningRate> {
    assert_eq!(tx.args.len(), 1);
    match &tx.args[0] {
        Arg::WinningRates(rates) => rates,
        other => panic!("not a set-up: {:?}", other),
    }
}

fn total(rates: &Vec<WinningRate>) -> u64 {
    rates.iter().map(|r| r.percentage).sum()
}

fn assert_setup(tx: &Transaction, expect: Expect) {
    assert_eq!(tx.from, WALLET);
    assert_eq!(tx.target, Target::Call(CONTRACT, Endpoint::SetupMysteryBox));
    assert_eq!(tx.gas, Some(30_000_000));
    assert_eq!(tx.payment, Payment::NoPayment);
    assert_eq!(tx.expect, expect);
}

fn assert_open(tx: &Transaction, from: [u8; 32], gas: u64, token: &str, nonce: u64, amount: u128) {
    assert_eq!(tx.from, from);
    assert_eq!(tx.target, Target::Call(CONTRACT, Endpoint::OpenMysteryBox));
    assert_eq!(tx.gas, Some(gas));
    assert!(tx.args.is_empty());
    assert_eq!(tx.payment, Payment::Esdt(EsdtPayment::new(token, nonce, amount)));
}

fn assert_query(q: &Query, endpoint: Endpoint, args: Vec<Arg>) {
    assert_eq!(q.to, CONTRACT);
    assert_eq!(q.endpoint, endpoint);
    assert_eq!(q.args, args);
}

fn rate(t: RewardType, token: RewardToken, value: u128, desc: &str, pct: u64, cd: u64) -> WinningRate {
    WinningRate::new(t, token, value, desc, pct, cd)
}

#[test]
fn interactor_main_test_deploy() {
    let mut interact = fresh();
    let tx = interact.deploy();
    assert_eq!(tx.from, WALLET);
    assert_eq!(tx.target, Target::Deploy(ContractCode::MysteryBox));
    assert_eq!(tx.gas, Some(70_000_000));
    assert_eq!(tx.args, vec![Arg::TokenIdentifier(TOKEN_IDENTIFIER.to_string())]);
    assert_eq!(tx.expect, Expect::Success);
    let shown = interact.record_deployment(CONTRACT);
    assert_eq!(interact.state.current_address().to_address(), CONTRACT);
    assert_eq!(interact.state.current_address().to_bech32_string(), shown);
}

#[test]
fn test_add_admin() {
    let interact = deployed();
    let admin_nou = Bech32Address::from_address(interact.user1_address);
    let tx = interact.add_admin(&admin_nou);
    assert_eq!(tx.from, WALLET);
    assert_eq!(tx.target, Target::Call(CONTRACT, Endpoint::AddAdmin));
    assert_eq!(tx.gas, Some(30_000_000));
    assert_eq!(tx.args, vec![Arg::Address(USER1)]);
    assert_eq!(tx.expect, Expect::Success);
}

#[test]
fn test_remove_admin() {
    let interact = deployed();
    let admin_de_sters = Bech32Address::from_address(interact.user1_address);
    let q = interact.is_admin(&admin_de_sters);
    assert_query(&q, Endpoint::IsAdmin, vec![Arg::Address(USER1)]);
    let tx = interact.remove_admin(&admin_de_sters);
    assert_eq!(tx.from, WALLET);
    assert_eq!(tx.target, Target::Call(CONTRACT, Endpoint::RemoveAdmin));
    assert_eq!(tx.args, vec![Arg::Address(USER1)]);
    assert_eq!(tx.expect, Expect::Success);
}

#[test]
fn test_get_admins() {
    assert_query(&deployed().admins(), Endpoint::GetAdmins, vec![]);
}

#[test]
fn test_verify_is_admin() {
    let interact = deployed();
    let adresa = Bech32Address::from_address(interact.wallet_address);
    let adresa2 = Bech32Address::from_address(interact.user1_address);
    assert_query(&interact.is_admin(&adresa), Endpoint::IsAdmin, vec![Arg::Address(WALLET)]);
    assert_query(&interact.is_admin(&adresa2), Endpoint::IsAdmin, vec![Arg::Address(USER1)]);
}

#[test]
fn test_setup_mysterybox_success() {
    let tx = deployed().setup_mystery_box1();
    assert_setup(&tx, Expect::Success);
    assert_eq!(
        rates_of(&tx),
        &vec![
            rate(RewardType::FixedValue, RewardToken::esdt(TOKEN_IDENTIFIER2), 5, "FixedValue", 3_000, 1),
            rate(RewardType::CustomReward, RewardToken::esdt(TOKEN_IDENTIFIER2), 5, "CustomText", 7_000, 2),
        ]
    );
    assert_eq!(total(rates_of(&tx)), 10_000);
}

#[test]
fn interactor_main_test_setup_mysterybox_one_reward() {
    let tx = deployed().setup_mystery_box_one_reward();
    assert_setup(&tx, Expect::Success);
    assert_eq!(
        rates_of(&tx),
        &vec![rate(RewardType::ExperiencePoints, RewardToken::esdt(TOKEN_IDENTIFIER), 1, "ExperiencePoints", 10_000, 2)]
    );
}

#[test]
fn test_get_winning_rates() {
    assert_query(&deployed().winning_rates(), Endpoint::GetWinningRates, vec![]);
}

#[test]
fn test_get_global_cooldown_epoch() {
    let interact = deployed();
    let reward1 = RewardType::FixedValue;
    assert_query(
        &interact.global_cooldown_epoch(reward1),
        Endpoint::GetGlobalCooldownEpoch,
        vec![Arg::Reward(RewardType::FixedValue)],
    );
}

#[test]
fn test_mystery_box_get_uris() {
    assert_query(&deployed().mystery_box_uris(), Endpoint::GetMysteryBoxUris, vec![]);
}

#[test]
fn test_mystery_box_get_token_id() {
    assert_query(&deployed().mystery_box_token_id(), Endpoint::GetMysteryBoxTokenIdentifier, vec![]);
}

#[test]
fn test_generate_sft_collection() {
    let tx = fresh().deploy();
    assert_eq!(tx.target, Target::Deploy(ContractCode::MysteryBox));
}

#[test]
fn test_create_mystery_box() {
    let mut interact = fresh();
    let tx = interact.deploy();
    assert_eq!(tx.target, Target::Deploy(ContractCode::MysteryBox));
    interact.record_deployment(CONTRACT);
    let tx = interact.create_mystery_box(0);
    assert_eq!(tx.args, vec![Arg::BigUint(0)]);
}

#[test]
fn test_setup() {
    let mut interact = fresh();
    interact.deploy();
    interact.record_deployment(CONTRACT);
    let tx = interact.issue_token_set_all_roles();
    assert_eq!(tx.from, WALLET);
    assert_eq!(tx.target, Target::Call(CONTRACT, Endpoint::Issue));
    assert_eq!(tx.gas, Some(70_000_000));
    assert_eq!(tx.args, vec![Arg::Buffer("Nume".to_string()), Arg::Buffer("TTO".to_string())]);
    assert_eq!(tx.payment, Payment::Egld(50_000_000_000_000_000));
    assert_query(&interact.token_issued(), Endpoint::GetTokenIssued, vec![]);
    assert_query(&interact.mystery_box_token_id(), Endpoint::GetMysteryBoxTokenIdentifier, vec![]);
}

#[test]
fn test_setup_create_mystery_box() {
    let interact = deployed();
    assert_setup(&interact.setup_mystery_box1(), Expect::Success);
    let tx = interact.create_mystery_box(1000);
    assert_eq!(tx.from, WALLET);
    assert_eq!(tx.target, Target::Call(CONTRACT, Endpoint::CreateMysteryBox));
    assert_eq!(tx.gas, Some(30_000_000));
    assert_eq!(tx.args, vec![Arg::BigUint(1000)]);
    assert_eq!(tx.expect, Expect::Success);
}

#[test]
fn test_getting_token_issued() {
    assert_query(&deployed().token_issued(), Endpoint::GetTokenIssued, vec![]);
}

#[test]
fn test_getting_token_mystery_box() {
    assert_query(&deployed().mystery_box_token_id(), Endpoint::GetMysteryBoxTokenIdentifier, vec![]);
}

#[test]
fn test_open_mystery_box_by_user() {
    let interact = deployed();
    assert_query(&interact.mystery_box_token_id(), Endpoint::GetMysteryBoxTokenIdentifier, vec![]);
    let tokensft_str = MB_TOKEN_IDENTIFIER;
    let tx = interact.open_mystery_box(tokensft_str, TOKEN_NONCE, 1);
    assert_open(&tx, USER1, 50_000_000, MB_TOKEN_IDENTIFIER, 1, 1);
    assert_eq!(tx.expect, Expect::Success);
}

#[test]
fn test_setup_create_mystery_box_with_mystery_box_as_reward() {
    let interact = deployed();
    let tx = interact.setup_mystery_box_reward_mystery_box();
    assert_setup(&tx, Expect::Success);
    assert_eq!(
        rates_of(&tx),
        &vec![rate(RewardType::MysteryBox, RewardToken::esdt(TOKEN_IDENTIFIER), 100, "MysteryBox", 10_000, 0)]
    );
    assert_eq!(interact.create_mystery_box(1000).args, vec![Arg::BigUint(1000)]);
}

#[test]
fn test_transfer_tokens_from_admin_to_user1() {
    let tx = fresh().send_nft_to_user1();
    assert_eq!(tx.from, WALLET);
    assert_eq!(tx.target, Target::Call(USER1, Endpoint::SendNft));
    assert_eq!(tx.gas, None);
    assert_eq!(tx.args, vec![Arg::Address(USER1)]);
    assert_eq!(tx.payment, Payment::Esdt(EsdtPayment::new(MB_TOKEN_IDENTIFIER, 7, 2)));
}

#[test]
fn test_transfer_tokens_from_admin_to_user2() {
    let tx = fresh().send_nft_to_user2();
    assert_eq!(tx.target, Target::Call(USER2, Endpoint::SendNft));
    assert_eq!(tx.args, vec![Arg::Address(USER2)]);
    assert_eq!(tx.payment, Payment::Esdt(EsdtPayment::new(MB_TOKEN_IDENTIFIER, 2, 10)));
}

#[test]
fn test_open_mystery_box_by_multiple_users() {
    let interact = deployed();
    assert_query(&interact.token_issued(), Endpoint::GetTokenIssued, vec![]);
    let tx = interact.open_mystery_box_user1(MB_TOKEN_IDENTIFIER, TOKEN_NONCE, 1);
    assert_open(&tx, USER1, 100_000_000, MB_TOKEN_IDENTIFIER, 1, 1);
}

#[test]
fn test_open_mb_with_reward_None() {
    let tx = deployed().open_mystery_box_user2(MB_TOKEN_IDENTIFIER, 2, 1);
    assert_open(&tx, USER2, 50_000_000, MB_TOKEN_IDENTIFIER, 2, 1);
}

#[test]
fn test_open_mb_with_reward_SFT() {
    let tx = deployed().open_mystery_box_user1(MB_TOKEN_IDENTIFIER, 7, 1);
    assert_open(&tx, USER1, 100_000_000, MB_TOKEN_IDENTIFIER, 7, 1);
}

#[test]
fn test_open_mb_with_reward_SFT_None_50_50() {
    let interact = deployed();
    let tx = interact.setup_mystery_box_reward_SFT_None_50_50();
    assert_setup(&tx, Expect::Success);
    assert_eq!(
        rates_of(&tx),
        &vec![
            rate(RewardType::SFT, RewardToken::esdt(TOKEN_IDENTIFIER2), 5, "SFT", 5_000, 0),
            rate(RewardType::NoReward, RewardToken::esdt(TOKEN_IDENTIFIER2), 0, "None", 5_000, 0),
        ]
    );
    assert_eq!(interact.create_mystery_box(3).args, vec![Arg::BigUint(3)]);
    let tx = interact.open_mystery_box_user1(MB_TOKEN_IDENTIFIER, 3, 1);
    assert_open(&tx, USER1, 100_000_000, MB_TOKEN_IDENTIFIER, 3, 1);
}

#[test]
fn test_open_mb_with_reward_SFT_FixedValue_50_50() {
    let tx = deployed().open_mystery_box_user1(MB_TOKEN_IDENTIFIER, 1, 1);
    assert_open(&tx, USER1, 100_000_000, MB_TOKEN_IDENTIFIER, 1, 1);
}

#[test]
fn test_deploy_fail() {
    let tx = fresh().deploy_fail(Expect::error(4, "Invalid token ID"));
    assert_eq!(tx.target, Target::Deploy(ContractCode::MysteryBox));
    assert_eq!(tx.gas, Some(50_000_000));
    assert_eq!(tx.args, vec![Arg::TokenIdentifier(INVALID_TOKEN_ID.to_string())]);
    assert_eq!(tx.expect, Expect::Error { code: 4, message: "Invalid token ID".to_string() });
}

#[test]
fn test_remove_admin_by_user_fail() {
    let interact = deployed();
    let admin_de_sters = Bech32Address::from_address(interact.user1_address);
    assert_query(&interact.is_admin(&admin_de_sters), Endpoint::IsAdmin, vec![Arg::Address(USER1)]);
    let tx = interact.remove_admin_by_user_fail(
        &admin_de_sters,
        Expect::error(4, "You can not remove an admin if you are an user"),
    );
    assert_eq!(tx.from, USER2);
    assert_eq!(tx.target, Target::Call(CONTRACT, Endpoint::RemoveAdmin));
    assert_eq!(
        tx.expect,
        Expect::Error { code: 4, message: "You can not remove an admin if you are an user".to_string() }
    );
}

#[test]
fn test_create_mystery_box_without_setup_fail() {
    let tx = deployed().create_mystery_box_fail(1, Expect::error(4, "The Mystery Box must be set up first"));
    assert_eq!(tx.target, Target::Call(CONTRACT, Endpoint::CreateMysteryBox));
    assert_eq!(tx.args, vec![Arg::BigUint(1)]);
    assert_eq!(tx.expect, Expect::error(4, "The Mystery Box must be set up first"));
}

#[test]
fn test_setup_mysterybox_fail_percentage_not_100() {
    let tx = deployed().setup_mystery_box_fail_percentage(Expect::error(4, "The total percentage must be 100%"));
    assert_setup(&tx, Expect::error(4, "The total percentage must be 100%"));
    assert_eq!(total(rates_of(&tx)), 9_000);
}

#[test]
fn test_open_mb_by_sc() {
    let interact = deployed();
    let deploy = interact.deploy_contract_test();
    assert_eq!(deploy.target, Target::Deploy(ContractCode::ContractTest));
    assert_eq!(deploy.gas, Some(70_000_000));
    let new_address = [7u8; 32];
    let tx = interact.send_nft_to_sc(new_address, Expect::error(4, "Only user accounts can open mystery boxes"));
    assert_eq!(tx.from, WALLET);
    assert_eq!(tx.target, Target::Call(new_address, Endpoint::SendNft));
    assert_eq!(tx.args, vec![Arg::Address(CONTRACT)]);
    assert_eq!(tx.payment, Payment::Esdt(EsdtPayment::new(MB_TOKEN_IDENTIFIER, 1, 1)));
    assert_eq!(tx.expect, Expect::error(4, "Only user accounts can open mystery boxes"));
}

#[test]
fn test_open_mystery_box_with_wrong_amount() {
    let interact = deployed();
    assert_query(&interact.token_issued(), Endpoint::GetTokenIssued, vec![]);
    let tx = interact.open_mystery_box_wrong_amount(
        MB_TOKEN_IDENTIFIER,
        TOKEN_NONCE,
        2,
        Expect::error(4, "Bad payment amount"),
    );
    assert_open(&tx, WALLET, 50_000_000, MB_TOKEN_IDENTIFIER, 1, 2);
    assert_eq!(tx.expect, Expect::error(4, "Bad payment amount"));
}

#[test]
fn test_open_mystery_box_with_wrong_token_id() {
    let interact = deployed();
    assert_query(&interact.mystery_box_token_id(), Endpoint::GetMysteryBoxTokenIdentifier, vec![]);
    let tx = interact.open_mystery_box_wrong_token(WRONG, TOKEN_NONCE, 1, Expect::error(4, "Bad payment token"));
    assert_open(&tx, WALLET, 50_000_000, "TTO-5c8209", 1, 1);
    assert_eq!(tx.expect, Expect::error(4, "Bad payment token"));
}

#[test]
fn test_setup_mb_with_mystery_box_as_reward_fail() {
    let message = "The reward token id must be the same as the mystery box";
    let tx = deployed().setup_mystery_box_reward_mystery_box_fail(Expect::error(4, message));
    assert_setup(&tx, Expect::error(4, message));
    assert_eq!(
        rates_of(&tx),
        &vec![rate(RewardType::MysteryBox, RewardToken::esdt(MB_TOKEN_IDENTIFIER_FAIL), 1, "MysteryBox", 10_000, 0)]
    );
    assert_ne!(MB_TOKEN_IDENTIFIER_FAIL, MB_TOKEN_IDENTIFIER);
}

#[test]
fn test_setup_mb_ExperiencePoints_fail() {
    let message = "The experience points amount must be greater than 0";
    let tx = deployed().setup_mystery_box_reward_ExperiencePoints_fail(Expect::error(4, message));
    assert_setup(&tx, Expect::error(4, message));
    assert_eq!(
        rates_of(&tx),
        &vec![rate(RewardType::ExperiencePoints, RewardToken::esdt(MB_TOKEN_IDENTIFIER), 0, "ExperiencePoints", 10_000, 0)]
    );
}

#[test]
fn test_setup_mb_SFT_fail() {
    let message = "The reward token id must be an ESDT";
    let tx = deployed().setup_mystery_box_reward_SFT_fail(Expect::error(4, message));
    assert_setup(&tx, Expect::error(4, message));
    let rates = rates_of(&tx);
    assert_eq!(rates, &vec![rate(RewardType::SFT, RewardToken::Egld, 1, "SFT", 10_000, 0)]);
    assert!(!rates[0].token.is_esdt());
}

#[test]
fn test_setup_mb_PercentValue_fail() {
    let message = "The reward percentage must be positive and <= 100%";
    let tx = deployed().setup_mystery_box_reward_PercentValue_fail(Expect::error(4, message));
    assert_setup(&tx, Expect::error(4, message));
    assert_eq!(rates_of(&tx), &vec![rate(RewardType::PercentValue, RewardToken::Egld, 0, "Percent", 10_000, 0)]);
}

#[test]
fn test_setup_mb_FixedValue_fail() {
    let message = "The reward amount must be greater than 0";
    let tx = deployed().setup_mystery_box_reward_FixedValue_fail(Expect::error(4, message));
    assert_setup(&tx, Expect::error(4, message));
    assert_eq!(rates_of(&tx), &vec![rate(RewardType::FixedValue, RewardToken::Egld, 0, "FixedValue", 10_000, 0)]);
}

#[test]
fn test_setup_mb_CustomReward_fail() {
    let message = "The custom reward needs to have a description";
    let tx = deployed().setup_mystery_box_reward_CustomReward_fail(Expect::error(4, message));
    assert_setup(&tx, Expect::error(4, message));
    assert_eq!(rates_of(&tx), &vec![rate(RewardType::CustomReward, RewardToken::Egld, 0, "", 10_000, 0)]);
}
