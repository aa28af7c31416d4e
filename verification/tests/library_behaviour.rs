use mystery_box_interactor::address::Bech32Address;
use mystery_box_interactor::interact::{ContractInteract, MB_TOKEN_IDENTIFIER, TOKEN_IDENTIFIER2};
use mystery_box_interactor::reward::{RewardToken, RewardType, WinningRate, MAX_PERCENTAGE};
use mystery_box_interactor::state::State;
use mystery_box_interactor::transaction::{
    Arg, ContractCode, Endpoint, EsdtPayment, Expect, Payment, Target, Transaction,
};

const ALICE_HEX: &str = "0139472eff6886771a982f3083da5d421f24c29181e63888228dc81ca60d69e1";
const ALICE_BECH32: &str = "erd1qyu5wthldzr8wx5c9ucg8kjagg0jfs53s8nr3zpz3hypefsdd8ssycr6th";
const CONTRACT: [u8; 32] = [9; 32];

fn alice() -> [u8; 32] {
    let mut bytes = [0u8; 32];
    for i in 0..32 {
        bytes[i] = u8::from_str_radix(&ALICE_HEX[2 * i..2 * i + 2], 16).unwrap();
    }
    bytes
}

fn deployed() -> ContractInteract {
    let mut interact = ContractInteract::new(alice(), [2; 32], [3; 32], State::default());
    interact.record_deployment(CONTRACT);
    interact
}

fn rates_of(tx: &Transaction) -> Vec<WinningRate> {
    match &tx.args[0] {
        Arg::WinningRates(rates) => rates.clone(),
        other => panic!("not a set-up: {:?}", other),
    }
}

fn total(rates: &[WinningRate]) -> u64 {
    rates.iter().map(|r| r.percentage).sum()
}

#[test]
fn bech32_of_alice() {
    let address = Bech32Address::from_address(alice());
    assert_eq!(address.to_bech32_string(), ALICE_BECH32);
    assert_eq!(address.to_address(), alice());
}

#[test]
fn bech32_of_zero_address() {
    let address = Bech32Address::from_address([0; 32]);
    assert_eq!(address.bech32, "erd1qqqqqqqqqqqqqqqqqqqqqqqqqqqqqqqqqqqqqqqqqqqqqqqqqqqq6gq4hu");
}

#[test]
fn load_state_without_saved_file_is_empty() {
    let state = State::load_state(None);
    assert_eq!(state, State { contract_address: None, collection: None });
    assert_eq!(state, State::default());
}

#[test]
fn load_state_keeps_what_was_saved() {
    let saved = State {
        contract_address: Some(Bech32Address::from_address(alice())),
        collection: Some("CLC-203e07".to_string()),
    };
    assert_eq!(State::load_state(Some(saved.clone())), saved);
}

#[test]
fn address_read_after_write() {
    let mut state = State::default();
    state.set_collection("CLC-203e07".to_string());
    state.set_address(Bech32Address::from_address([5; 32]));
    state.set_address(Bech32Address::from_address(alice()));
    assert_eq!(state.current_address().to_bech32_string(), ALICE_BECH32);
    assert_eq!(state.get_collection(), "CLC-203e07");
}

#[test]
fn collection_read_after_write() {
    let mut state = State::default();
    state.set_address(Bech32Address::from_address(alice()));
    state.set_collection("A".to_string());
    state.set_collection("B".to_string());
    assert_eq!(state.get_collection(), "B");
    assert_eq!(state.current_address().to_address(), alice());
}

#[test]
fn deployment_is_recorded_in_bech32() {
    let mut interact = ContractInteract::new(alice(), [2; 32], [3; 32], State::default());
    interact.state.set_collection("C".to_string());
    let shown = interact.record_deployment(alice());
    assert_eq!(shown, ALICE_BECH32);
    assert_eq!(interact.state.current_address().to_address(), alice());
    assert_eq!(interact.state.get_collection(), "C");
    assert_eq!(interact.add_admin(&Bech32Address::from_address([2; 32])).target, Target::Call(alice(), Endpoint::AddAdmin));
}

#[test]
fn endpoint_names() {
    assert_eq!(Endpoint::SetupMysteryBox.name(), "setupMysteryBox");
    assert_eq!(Endpoint::OpenMysteryBox.name(), "openMysteryBox");
    assert_eq!(Endpoint::GetMysteryBoxTokenIdentifier.name(), "getMysteryBoxTokenIdentifier");
    assert_eq!(Endpoint::GetGlobalCooldownEpoch.name(), "getGlobalCooldownEpoch");
    assert_eq!(Endpoint::GetTokenIssued.name(), "get_token_issued");
    assert_eq!(Endpoint::SendNft.name(), "send_nft");
    assert_eq!(Endpoint::Init.name(), "init");
}

#[test]
fn code_paths() {
    assert_eq!(ContractCode::MysteryBox.path(), "mxsc:../output/mystery-box.mxsc.json");
    assert_eq!(ContractCode::ContractTest.path(), "mxsc:../contracttest/output/contracttest.mxsc.json");
}

#[test]
fn send_nft_to_user_goes_to_the_contract() {
    let interact = deployed();
    let tx = interact.send_nft_to_user();
    assert_eq!(tx.target, Target::Call(CONTRACT, Endpoint::SendNft));
    assert_eq!(tx.args, vec![Arg::Address([2; 32])]);
    assert_eq!(tx.payment, Payment::Esdt(EsdtPayment::new(MB_TOKEN_IDENTIFIER, 1, 10)));
}

#[test]
fn feed_contract_is_a_plain_transfer() {
    let tx = deployed().feed_contract_egld("TTO-281def", 0, 5);
    assert_eq!(tx.target, Target::Transfer(CONTRACT));
    assert_eq!(tx.gas, None);
    assert!(tx.args.is_empty());
    assert_eq!(tx.payment, Payment::Esdt(EsdtPayment::new("TTO-281def", 0, 5)));
}

#[test]
fn send_from_admin_to_users() {
    let interact = deployed();
    let tx1 = interact.send_from_admin_to_user1(MB_TOKEN_IDENTIFIER, 1, 1);
    let tx2 = interact.send_from_admin_to_user2(MB_TOKEN_IDENTIFIER, 1, 1);
    assert_eq!(tx1.target, Target::Call(CONTRACT, Endpoint::UpdateAttributes));
    assert_eq!(tx1.gas, Some(50_000_000));
    assert_eq!(
        tx1.args,
        vec![Arg::Payment(EsdtPayment::new(MB_TOKEN_IDENTIFIER, 1, 1)), Arg::Address([2; 32])]
    );
    assert_eq!(
        tx2.args,
        vec![Arg::Payment(EsdtPayment::new(MB_TOKEN_IDENTIFIER, 1, 1)), Arg::Address([3; 32])]
    );
    assert_eq!(tx1.payment, Payment::NoPayment);
}

#[test]
fn update_uris_sends_one_empty_uri() {
    let tx = deployed().update_mystery_box_uris();
    assert_eq!(tx.target, Target::Call(CONTRACT, Endpoint::UpdateMysteryBoxUris));
    assert_eq!(tx.args, vec![Arg::Uris(vec![String::new()])]);
}

#[test]
fn open_by_other_accounts() {
    let interact = deployed();
    let tx = interact.open_mystery_box_by_user([4; 32], MB_TOKEN_IDENTIFIER, 1, 1);
    assert_eq!(tx.from, [4; 32]);
    assert_eq!(tx.gas, Some(200_000_000));
    let tx = interact.open_mystery_box_by_sc([8; 32], MB_TOKEN_IDENTIFIER, 1, 1, Expect::error(4, "Only user accounts can open mystery boxes"));
    assert_eq!(tx.from, [8; 32]);
    assert_eq!(tx.gas, Some(50_000_000));
    assert_eq!(tx.target, Target::Call(CONTRACT, Endpoint::OpenMysteryBox));
}

#[test]
fn accepted_setups_give_out_full_percentage() {
    let interact = deployed();
    for tx in [
        interact.setup_mystery_box_reward_None(),
        interact.setup_mystery_box_reward_SFT_None_50_50(),
        interact.setup_mystery_box_reward_SFT3(),
        interact.setup_mystery_box_reward_SFT_FixedValue_50_50(),
        interact.setup_mystery_box1(),
        interact.setup_mystery_box_one_reward(),
        interact.setup_mystery_box_reward_mystery_box(),
    ] {
        assert_eq!(tx.expect, Expect::Success);
        assert_eq!(total(&rates_of(&tx)), MAX_PERCENTAGE);
    }
}

#[test]
fn sft_fixed_value_setup() {
    let tx = deployed().setup_mystery_box_reward_SFT_FixedValue_50_50();
    assert_eq!(
        rates_of(&tx),
        vec![
            WinningRate::new(RewardType::SFT, RewardToken::esdt(TOKEN_IDENTIFIER2), 2, "SFT", 4_000, 0),
            WinningRate::new(RewardType::FixedValue, RewardToken::esdt(TOKEN_IDENTIFIER2), 5, "FixedValue", 6_000, 0),
        ]
    );
}

#[test]
fn sft3_and_none_setups() {
    let interact = deployed();
    assert_eq!(
        rates_of(&interact.setup_mystery_box_reward_SFT3()),
        vec![WinningRate::new(RewardType::SFT, RewardToken::esdt(MB_TOKEN_IDENTIFIER), 2, "SFT", 10_000, 0)]
    );
    assert_eq!(
        rates_of(&interact.setup_mystery_box_reward_None()),
        vec![WinningRate::new(RewardType::NoReward, RewardToken::esdt(TOKEN_IDENTIFIER2), 0, "None", 10_000, 0)]
    );
}

#[test]
fn empty_setup_sends_no_rates() {
    let tx = deployed().setup_mystery_box();
    assert!(rates_of(&tx).is_empty());
    assert_eq!(tx.gas, Some(30_000_000));
}

#[test]
fn reward_token_kinds() {
    assert!(RewardToken::esdt("TTO-281def").is_esdt());
    assert!(!RewardToken::Egld.is_esdt());
}
