//! Properties of the interactor's plans that span several functions.
use vstd::prelude::*;

use crate::address::{AddressBytes, bech32_encoding};
use crate::interact::{
    ContractInteract, MB_TOKEN_IDENTIFIER, TOKEN_IDENTIFIER, setup_view, MB_TOKEN_IDENTIFIER_FAIL, rates_custom_reward_fail,
    rates_experience_points_fail, rates_fail_percentage, rates_fixed_value_fail, rates_one_reward,
    rates_percent_value_fail, rates_reward_mystery_box, rates_reward_mystery_box_fail,
    rates_reward_none, rates_setup1, rates_sft3, rates_sft_fail, rates_sft_fixed_value_50_50,
    rates_sft_none_50_50,
};
use crate::reward::{
    MAX_PERCENTAGE, RewardTokenView, RewardType, WinningRateView, all_follow_reward_rules,
    follows_reward_rule, total_percentage,
};
use crate::transaction::{
    ArgView, Endpoint, ExpectView, contract_exports, endpoint_name, is_mystery_box_export,
};

verus! {

/// The total of a one-entry list is that entry's chance.
proof fn total_of_one(a: WinningRateView)
    ensures
        total_percentage(seq![a]) == a.percentage,
{
    assert(seq![a].drop_last() =~= Seq::<WinningRateView>::empty());
    reveal_with_fuel(total_percentage, 2);
}

/// The total of a two-entry list is the sum of the two chances.
proof fn total_of_two(a: WinningRateView, b: WinningRateView)
    ensures
        total_percentage(seq![a, b]) == a.percentage + b.percentage,
{
    assert(seq![a, b].drop_last() =~= seq![a]);
    total_of_one(a);
}

/// Every set of winning rates that the interactor sends expecting success
/// gives out exactly 100% of the chances.
pub proof fn law_accepted_setups_total_full_percentage()
    ensures
        total_percentage(rates_reward_none()) == MAX_PERCENTAGE,
        total_percentage(rates_sft_none_50_50()) == MAX_PERCENTAGE,
        total_percentage(rates_sft3()) == MAX_PERCENTAGE,
        total_percentage(rates_sft_fixed_value_50_50()) == MAX_PERCENTAGE,
        total_percentage(rates_setup1()) == MAX_PERCENTAGE,
        total_percentage(rates_one_reward()) == MAX_PERCENTAGE,
        total_percentage(rates_reward_mystery_box()) == MAX_PERCENTAGE,
{
    total_of_one(rates_reward_none()[0]);
    total_of_two(rates_sft_none_50_50()[0], rates_sft_none_50_50()[1]);
    total_of_one(rates_sft3()[0]);
    total_of_two(rates_sft_fixed_value_50_50()[0], rates_sft_fixed_value_50_50()[1]);
    total_of_two(rates_setup1()[0], rates_setup1()[1]);
    total_of_one(rates_one_reward()[0]);
    total_of_one(rates_reward_mystery_box()[0]);
}

/// The set-up that is expected to fail for its percentages gives out 90%,
/// not 100%; each of the other set-ups that are expected to fail gives out
/// exactly 100%, so they fail for their single entry alone.
pub proof fn law_rejected_setups_percentages()
    ensures
        total_percentage(rates_fail_percentage()) == 9_000,
        total_percentage(rates_fail_percentage()) != MAX_PERCENTAGE,
        total_percentage(rates_reward_mystery_box_fail()) == MAX_PERCENTAGE,
        total_percentage(rates_experience_points_fail()) == MAX_PERCENTAGE,
        total_percentage(rates_sft_fail()) == MAX_PERCENTAGE,
        total_percentage(rates_percent_value_fail()) == MAX_PERCENTAGE,
        total_percentage(rates_fixed_value_fail()) == MAX_PERCENTAGE,
        total_percentage(rates_custom_reward_fail()) == MAX_PERCENTAGE,
{
    total_of_two(rates_fail_percentage()[0], rates_fail_percentage()[1]);
    total_of_one(rates_reward_mystery_box_fail()[0]);
    total_of_one(rates_experience_points_fail()[0]);
    total_of_one(rates_sft_fail()[0]);
    total_of_one(rates_percent_value_fail()[0]);
    total_of_one(rates_fixed_value_fail()[0]);
    total_of_one(rates_custom_reward_fail()[0]);
}

/// Each single-entry set-up that is expected to fail breaks the rule its
/// expected error names: a mystery-box reward in another token than the
/// mystery box, zero experience points, an SFT paid in EGLD, a zero
/// percentage, a zero fixed value, a custom reward without description.
pub proof fn law_rejected_setups_break_their_rule()
    ensures
        rates_reward_mystery_box_fail()[0].reward_type == RewardType::MysteryBox,
        rates_reward_mystery_box_fail()[0].token != RewardTokenView::Esdt(MB_TOKEN_IDENTIFIER@),
        rates_experience_points_fail()[0].reward_type == RewardType::ExperiencePoints,
        rates_experience_points_fail()[0].value == 0,
        rates_sft_fail()[0].reward_type == RewardType::SFT,
        rates_sft_fail()[0].token is Egld,
        rates_percent_value_fail()[0].reward_type == RewardType::PercentValue,
        rates_percent_value_fail()[0].value == 0,
        rates_fixed_value_fail()[0].reward_type == RewardType::FixedValue,
        rates_fixed_value_fail()[0].value == 0,
        rates_custom_reward_fail()[0].reward_type == RewardType::CustomReward,
        rates_custom_reward_fail()[0].description.len() == 0,
{
    reveal_strlit("TTO-5c8209-02");
    reveal_strlit("TTO-959e6e");
    reveal_strlit("");
    assert(MB_TOKEN_IDENTIFIER_FAIL@.len() != MB_TOKEN_IDENTIFIER@.len());
}

/// Once a deployment at `new_address` is recorded, the interactor's calls
/// and queries of the contract go to `new_address`, and the address is
/// shown in its bech32 form.
pub proof fn law_deployment_becomes_target(c: ContractInteract, new_address: AddressBytes)
    requires
        c.state.contract_address matches Some(a) && a.address == new_address
            && a.bech32@ == bech32_encoding(new_address@),
    ensures
        c.has_contract(),
        c.contract() == new_address,
        c.state.contract_address->0.bech32@ == bech32_encoding(new_address@),
{
}

/// Two different endpoints are reached under two different names: no
/// transaction meant for one endpoint can land on another.
pub proof fn law_endpoint_names_distinct(e1: Endpoint, e2: Endpoint)
    requires
        e1 != e2,
    ensures
        endpoint_name(e1) != endpoint_name(e2),
{
    // The length and the first letter of a name tell the endpoints apart.
    match e1 {
        Endpoint::Init => {
            reveal_strlit("init");
            assert(endpoint_name(e1).len() == 4 && endpoint_name(e1)[0] == 'i');
        },
        Endpoint::SetupMysteryBox => {
            reveal_strlit("setupMysteryBox");
            assert(endpoint_name(e1).len() == 15 && endpoint_name(e1)[0] == 's');
        },
        Endpoint::UpdateMysteryBoxUris => {
            reveal_strlit("updateMysteryBoxUris");
            assert(endpoint_name(e1).len() == 20 && endpoint_name(e1)[0] == 'u');
        },
        Endpoint::Issue => {
            reveal_strlit("issue");
            assert(endpoint_name(e1).len() == 5 && endpoint_name(e1)[0] == 'i');
        },
        Endpoint::GetTokenIssued => {
            reveal_strlit("get_token_issued");
            assert(endpoint_name(e1).len() == 16 && endpoint_name(e1)[0] == 'g');
        },
        Endpoint::CreateMysteryBox => {
            reveal_strlit("createMysteryBox");
            assert(endpoint_name(e1).len() == 16 && endpoint_name(e1)[0] == 'c');
        },
        Endpoint::OpenMysteryBox => {
            reveal_strlit("openMysteryBox");
            assert(endpoint_name(e1).len() == 14 && endpoint_name(e1)[0] == 'o');
        },
        Endpoint::GetMysteryBoxTokenIdentifier => {
            reveal_strlit("getMysteryBoxTokenIdentifier");
            assert(endpoint_name(e1).len() == 28 && endpoint_name(e1)[0] == 'g');
        },
        Endpoint::GetGlobalCooldownEpoch => {
            reveal_strlit("getGlobalCooldownEpoch");
            assert(endpoint_name(e1).len() == 22 && endpoint_name(e1)[0] == 'g');
        },
        Endpoint::GetWinningRates => {
            reveal_strlit("getWinningRates");
            assert(endpoint_name(e1).len() == 15 && endpoint_name(e1)[0] == 'g');
        },
        Endpoint::GetMysteryBoxUris => {
            reveal_strlit("getMysteryBoxUris");
            assert(endpoint_name(e1).len() == 17 && endpoint_name(e1)[0] == 'g');
        },
        Endpoint::IsAdmin => {
            reveal_strlit("isAdmin");
            assert(endpoint_name(e1).len() == 7 && endpoint_name(e1)[0] == 'i');
        },
        Endpoint::AddAdmin => {
            reveal_strlit("addAdmin");
            assert(endpoint_name(e1).len() == 8 && endpoint_name(e1)[0] == 'a');
        },
        Endpoint::RemoveAdmin => {
            reveal_strlit("removeAdmin");
            assert(endpoint_name(e1).len() == 11 && endpoint_name(e1)[0] == 'r');
        },
        Endpoint::GetAdmins => {
            reveal_strlit("getAdmins");
            assert(endpoint_name(e1).len() == 9 && endpoint_name(e1)[0] == 'g');
        },
        Endpoint::SendNft => {
            reveal_strlit("send_nft");
            assert(endpoint_name(e1).len() == 8 && endpoint_name(e1)[0] == 's');
        },
        Endpoint::UpdateAttributes => {
            reveal_strlit("update_attributes");
            assert(endpoint_name(e1).len() == 17 && endpoint_name(e1)[0] == 'u');
        },
    }
    match e2 {
        Endpoint::Init => {
            reveal_strlit("init");
            assert(endpoint_name(e2).len() == 4 && endpoint_name(e2)[0] == 'i');
        },
        Endpoint::SetupMysteryBox => {
            reveal_strlit("setupMysteryBox");
            assert(endpoint_name(e2).len() == 15 && endpoint_name(e2)[0] == 's');
        },
        Endpoint::UpdateMysteryBoxUris => {
            reveal_strlit("updateMysteryBoxUris");
            assert(endpoint_name(e2).len() == 20 && endpoint_name(e2)[0] == 'u');
        },
        Endpoint::Issue => {
            reveal_strlit("issue");
            assert(endpoint_name(e2).len() == 5 && endpoint_name(e2)[0] == 'i');
        },
        Endpoint::GetTokenIssued => {
            reveal_strlit("get_token_issued");
            assert(endpoint_name(e2).len() == 16 && endpoint_name(e2)[0] == 'g');
        },
        Endpoint::CreateMysteryBox => {
            reveal_strlit("createMysteryBox");
            assert(endpoint_name(e2).len() == 16 && endpoint_name(e2)[0] == 'c');
        },
        Endpoint::OpenMysteryBox => {
            reveal_strlit("openMysteryBox");
            assert(endpoint_name(e2).len() == 14 && endpoint_name(e2)[0] == 'o');
        },
        Endpoint::GetMysteryBoxTokenIdentifier => {
            reveal_strlit("getMysteryBoxTokenIdentifier");
            assert(endpoint_name(e2).len() == 28 && endpoint_name(e2)[0] == 'g');
        },
        Endpoint::GetGlobalCooldownEpoch => {
            reveal_strlit("getGlobalCooldownEpoch");
            assert(endpoint_name(e2).len() == 22 && endpoint_name(e2)[0] == 'g');
        },
        Endpoint::GetWinningRates => {
            reveal_strlit("getWinningRates");
            assert(endpoint_name(e2).len() == 15 && endpoint_name(e2)[0] == 'g');
        },
        Endpoint::GetMysteryBoxUris => {
            reveal_strlit("getMysteryBoxUris");
            assert(endpoint_name(e2).len() == 17 && endpoint_name(e2)[0] == 'g');
        },
        Endpoint::IsAdmin => {
            reveal_strlit("isAdmin");
            assert(endpoint_name(e2).len() == 7 && endpoint_name(e2)[0] == 'i');
        },
        Endpoint::AddAdmin => {
            reveal_strlit("addAdmin");
            assert(endpoint_name(e2).len() == 8 && endpoint_name(e2)[0] == 'a');
        },
        Endpoint::RemoveAdmin => {
            reveal_strlit("removeAdmin");
            assert(endpoint_name(e2).len() == 11 && endpoint_name(e2)[0] == 'r');
        },
        Endpoint::GetAdmins => {
            reveal_strlit("getAdmins");
            assert(endpoint_name(e2).len() == 9 && endpoint_name(e2)[0] == 'g');
        },
        Endpoint::SendNft => {
            reveal_strlit("send_nft");
            assert(endpoint_name(e2).len() == 8 && endpoint_name(e2)[0] == 's');
        },
        Endpoint::UpdateAttributes => {
            reveal_strlit("update_attributes");
            assert(endpoint_name(e2).len() == 17 && endpoint_name(e2)[0] == 'u');
        },
    }
    if endpoint_name(e1) == endpoint_name(e2) {
        assert(endpoint_name(e1).len() == endpoint_name(e2).len());
        assert(endpoint_name(e1)[0] == endpoint_name(e2)[0]);
    }
}

/// Every endpoint of the mystery-box contract that the interactor reaches
/// is one the contract exports.
pub proof fn law_endpoint_names_are_exports(e: Endpoint)
    requires
        is_mystery_box_export(e),
    ensures
        contract_exports().contains(endpoint_name(e)),
{
    let x = contract_exports();
    match e {
        Endpoint::Init => assert(x[0] == endpoint_name(e)),
        Endpoint::SetupMysteryBox => assert(x[1] == endpoint_name(e)),
        Endpoint::UpdateMysteryBoxUris => assert(x[2] == endpoint_name(e)),
        Endpoint::Issue => assert(x[3] == endpoint_name(e)),
        Endpoint::GetTokenIssued => assert(x[4] == endpoint_name(e)),
        Endpoint::CreateMysteryBox => assert(x[6] == endpoint_name(e)),
        Endpoint::OpenMysteryBox => assert(x[7] == endpoint_name(e)),
        Endpoint::GetMysteryBoxTokenIdentifier => assert(x[9] == endpoint_name(e)),
        Endpoint::GetGlobalCooldownEpoch => assert(x[10] == endpoint_name(e)),
        Endpoint::GetWinningRates => assert(x[11] == endpoint_name(e)),
        Endpoint::GetMysteryBoxUris => assert(x[12] == endpoint_name(e)),
        Endpoint::IsAdmin => assert(x[13] == endpoint_name(e)),
        Endpoint::AddAdmin => assert(x[14] == endpoint_name(e)),
        Endpoint::RemoveAdmin => assert(x[15] == endpoint_name(e)),
        Endpoint::GetAdmins => assert(x[16] == endpoint_name(e)),
        _ => {},
    }
}

/// Every export of the mystery-box contract, except the role set-up and
/// the error read-out that the interactor never uses, is reached by
/// exactly one endpoint of the interactor.
pub proof fn law_exports_are_reached(i: int)
    requires
        0 <= i < contract_exports().len(),
        contract_exports()[i] != "set_roles"@,
        contract_exports()[i] != "lastErrorMessage"@,
    ensures
        exists|e: Endpoint| is_mystery_box_export(e) && endpoint_name(e) == contract_exports()[i],
{
    let x = contract_exports();
    if i == 0 { assert(endpoint_name(Endpoint::Init) == x[i]); }
    else if i == 1 { assert(endpoint_name(Endpoint::SetupMysteryBox) == x[i]); }
    else if i == 2 { assert(endpoint_name(Endpoint::UpdateMysteryBoxUris) == x[i]); }
    else if i == 3 { assert(endpoint_name(Endpoint::Issue) == x[i]); }
    else if i == 4 { assert(endpoint_name(Endpoint::GetTokenIssued) == x[i]); }
    else if i == 6 { assert(endpoint_name(Endpoint::CreateMysteryBox) == x[i]); }
    else if i == 7 { assert(endpoint_name(Endpoint::OpenMysteryBox) == x[i]); }
    else if i == 9 { assert(endpoint_name(Endpoint::GetMysteryBoxTokenIdentifier) == x[i]); }
    else if i == 10 { assert(endpoint_name(Endpoint::GetGlobalCooldownEpoch) == x[i]); }
    else if i == 11 { assert(endpoint_name(Endpoint::GetWinningRates) == x[i]); }
    else if i == 12 { assert(endpoint_name(Endpoint::GetMysteryBoxUris) == x[i]); }
    else if i == 13 { assert(endpoint_name(Endpoint::IsAdmin) == x[i]); }
    else if i == 14 { assert(endpoint_name(Endpoint::AddAdmin) == x[i]); }
    else if i == 15 { assert(endpoint_name(Endpoint::RemoveAdmin) == x[i]); }
    else if i == 16 { assert(endpoint_name(Endpoint::GetAdmins) == x[i]); }
}


/// The winning rates a set-up transaction carries.
pub open spec fn carried_rates(tx_args: Seq<ArgView>) -> Seq<WinningRateView> {
    tx_args[0]->WinningRates_0
}

/// The set-up that is expected to fail for its percentages breaks that rule
/// only: whoever sends it to whichever contract, it carries one list of
/// winning rates whose every entry keeps the rule for its kind of reward
/// (the mystery box being the token the contract is deployed with), and
/// whose chances do not add up to 100%.
pub proof fn law_percentage_failure_breaks_only_the_total(
    from: AddressBytes,
    to: AddressBytes,
    expect: ExpectView,
)
    ensures
        setup_view(from, to, rates_fail_percentage(), expect).args.len() == 1,
        setup_view(from, to, rates_fail_percentage(), expect).args[0] is WinningRates,
        all_follow_reward_rules(
            carried_rates(setup_view(from, to, rates_fail_percentage(), expect).args),
            TOKEN_IDENTIFIER@,
        ),
        total_percentage(carried_rates(setup_view(from, to, rates_fail_percentage(), expect).args))
            != MAX_PERCENTAGE,
{
    law_rejected_setups_percentages();
    let rates = carried_rates(setup_view(from, to, rates_fail_percentage(), expect).args);
    assert(rates == rates_fail_percentage());
    assert(follows_reward_rule(rates[0], TOKEN_IDENTIFIER@));
    reveal_strlit("CustomText");
    assert(follows_reward_rule(rates[1], TOKEN_IDENTIFIER@));
}

/// Every set-up that is expected to succeed carries winning rates whose
/// every entry keeps the rule for its kind of reward and whose chances add
/// up to exactly 100%.
pub proof fn law_accepted_setups_follow_every_rule(from: AddressBytes, to: AddressBytes)
    ensures
        all_follow_reward_rules(carried_rates(setup_view(from, to, rates_reward_none(), ExpectView::Success).args), TOKEN_IDENTIFIER@),
        total_percentage(carried_rates(setup_view(from, to, rates_reward_none(), ExpectView::Success).args)) == MAX_PERCENTAGE,
        all_follow_reward_rules(carried_rates(setup_view(from, to, rates_sft_none_50_50(), ExpectView::Success).args), TOKEN_IDENTIFIER@),
        total_percentage(carried_rates(setup_view(from, to, rates_sft_none_50_50(), ExpectView::Success).args)) == MAX_PERCENTAGE,
        all_follow_reward_rules(carried_rates(setup_view(from, to, rates_sft3(), ExpectView::Success).args), TOKEN_IDENTIFIER@),
        total_percentage(carried_rates(setup_view(from, to, rates_sft3(), ExpectView::Success).args)) == MAX_PERCENTAGE,
        all_follow_reward_rules(carried_rates(setup_view(from, to, rates_sft_fixed_value_50_50(), ExpectView::Success).args), TOKEN_IDENTIFIER@),
        total_percentage(carried_rates(setup_view(from, to, rates_sft_fixed_value_50_50(), ExpectView::Success).args)) == MAX_PERCENTAGE,
        all_follow_reward_rules(carried_rates(setup_view(from, to, rates_setup1(), ExpectView::Success).args), TOKEN_IDENTIFIER@),
        total_percentage(carried_rates(setup_view(from, to, rates_setup1(), ExpectView::Success).args)) == MAX_PERCENTAGE,
        all_follow_reward_rules(carried_rates(setup_view(from, to, rates_one_reward(), ExpectView::Success).args), TOKEN_IDENTIFIER@),
        total_percentage(carried_rates(setup_view(from, to, rates_one_reward(), ExpectView::Success).args)) == MAX_PERCENTAGE,
        all_follow_reward_rules(carried_rates(setup_view(from, to, rates_reward_mystery_box(), ExpectView::Success).args), TOKEN_IDENTIFIER@),
        total_percentage(carried_rates(setup_view(from, to, rates_reward_mystery_box(), ExpectView::Success).args)) == MAX_PERCENTAGE,
{
    law_accepted_setups_total_full_percentage();
    assert(carried_rates(setup_view(from, to, rates_reward_none(), ExpectView::Success).args) == rates_reward_none());
    assert(follows_reward_rule(rates_reward_none()[0], TOKEN_IDENTIFIER@));
    assert(carried_rates(setup_view(from, to, rates_sft_none_50_50(), ExpectView::Success).args) == rates_sft_none_50_50());
    assert(follows_reward_rule(rates_sft_none_50_50()[0], TOKEN_IDENTIFIER@));
    assert(carried_rates(setup_view(from, to, rates_sft3(), ExpectView::Success).args) == rates_sft3());
    assert(follows_reward_rule(rates_sft3()[0], TOKEN_IDENTIFIER@));
    assert(carried_rates(setup_view(from, to, rates_sft_fixed_value_50_50(), ExpectView::Success).args) == rates_sft_fixed_value_50_50());
    assert(follows_reward_rule(rates_sft_fixed_value_50_50()[0], TOKEN_IDENTIFIER@));
    assert(carried_rates(setup_view(from, to, rates_setup1(), ExpectView::Success).args) == rates_setup1());
    assert(follows_reward_rule(rates_setup1()[0], TOKEN_IDENTIFIER@));
    assert(carried_rates(setup_view(from, to, rates_one_reward(), ExpectView::Success).args) == rates_one_reward());
    assert(follows_reward_rule(rates_one_reward()[0], TOKEN_IDENTIFIER@));
    assert(carried_rates(setup_view(from, to, rates_reward_mystery_box(), ExpectView::Success).args) == rates_reward_mystery_box());
    assert(follows_reward_rule(rates_reward_mystery_box()[0], TOKEN_IDENTIFIER@));
    assert(follows_reward_rule(rates_sft_none_50_50()[1], TOKEN_IDENTIFIER@));
    assert(follows_reward_rule(rates_sft_fixed_value_50_50()[1], TOKEN_IDENTIFIER@));
    reveal_strlit("CustomText");
    assert(follows_reward_rule(rates_setup1()[1], TOKEN_IDENTIFIER@));
}

/// Every single-entry set-up that is expected to fail for its entry carries
/// an entry that breaks the rule for its kind of reward, while its chances
/// add up to exactly 100%.
pub proof fn law_rejected_entries_break_their_rule(from: AddressBytes, to: AddressBytes, expect: ExpectView)
    ensures
        !follows_reward_rule(carried_rates(setup_view(from, to, rates_reward_mystery_box_fail(), expect).args)[0], TOKEN_IDENTIFIER@),
        total_percentage(carried_rates(setup_view(from, to, rates_reward_mystery_box_fail(), expect).args)) == MAX_PERCENTAGE,
        !follows_reward_rule(carried_rates(setup_view(from, to, rates_experience_points_fail(), expect).args)[0], TOKEN_IDENTIFIER@),
        total_percentage(carried_rates(setup_view(from, to, rates_experience_points_fail(), expect).args)) == MAX_PERCENTAGE,
        !follows_reward_rule(carried_rates(setup_view(from, to, rates_sft_fail(), expect).args)[0], TOKEN_IDENTIFIER@),
        total_percentage(carried_rates(setup_view(from, to, rates_sft_fail(), expect).args)) == MAX_PERCENTAGE,
        !follows_reward_rule(carried_rates(setup_view(from, to, rates_percent_value_fail(), expect).args)[0], TOKEN_IDENTIFIER@),
        total_percentage(carried_rates(setup_view(from, to, rates_percent_value_fail(), expect).args)) == MAX_PERCENTAGE,
        !follows_reward_rule(carried_rates(setup_view(from, to, rates_fixed_value_fail(), expect).args)[0], TOKEN_IDENTIFIER@),
        total_percentage(carried_rates(setup_view(from, to, rates_fixed_value_fail(), expect).args)) == MAX_PERCENTAGE,
        !follows_reward_rule(carried_rates(setup_view(from, to, rates_custom_reward_fail(), expect).args)[0], TOKEN_IDENTIFIER@),
        total_percentage(carried_rates(setup_view(from, to, rates_custom_reward_fail(), expect).args)) == MAX_PERCENTAGE,
{
    law_rejected_setups_percentages();
    reveal_strlit("TTO-5c8209-02");
    reveal_strlit("TTO-281def");
    reveal_strlit("");
    assert(MB_TOKEN_IDENTIFIER_FAIL@.len() != TOKEN_IDENTIFIER@.len());
    assert(carried_rates(setup_view(from, to, rates_reward_mystery_box_fail(), expect).args) == rates_reward_mystery_box_fail());
    assert(carried_rates(setup_view(from, to, rates_experience_points_fail(), expect).args) == rates_experience_points_fail());
    assert(carried_rates(setup_view(from, to, rates_sft_fail(), expect).args) == rates_sft_fail());
    assert(carried_rates(setup_view(from, to, rates_percent_value_fail(), expect).args) == rates_percent_value_fail());
    assert(carried_rates(setup_view(from, to, rates_fixed_value_fail(), expect).args) == rates_fixed_value_fail());
    assert(carried_rates(setup_view(from, to, rates_custom_reward_fail(), expect).args) == rates_custom_reward_fail());
}

} // verus!
