//! Descriptions of what the interactor sends: transactions and queries,
//! as plain values that the caller turns into chain requests.
use vstd::prelude::*;

use crate::address::AddressBytes;
use crate::reward::{RewardType, WinningRate, WinningRateView, rates_view};

verus! {

/// The endpoints of the mystery-box contract (and of the test contract)
/// that the interactor reaches.
#[derive(Clone, Copy, PartialEq, Eq, Structural, Debug)]
pub enum Endpoint {
    Init,
    SetupMysteryBox,
    UpdateMysteryBoxUris,
    Issue,
    GetTokenIssued,
    CreateMysteryBox,
    OpenMysteryBox,
    GetMysteryBoxTokenIdentifier,
    GetGlobalCooldownEpoch,
    GetWinningRates,
    GetMysteryBoxUris,
    IsAdmin,
    AddAdmin,
    RemoveAdmin,
    GetAdmins,
    SendNft,
    UpdateAttributes,
}

/// The name under which the contract exports an endpoint.
pub open spec fn endpoint_name(endpoint: Endpoint) -> Seq<char> {
    match endpoint {
        Endpoint::Init => "init"@,
        Endpoint::SetupMysteryBox => "setupMysteryBox"@,
        Endpoint::UpdateMysteryBoxUris => "updateMysteryBoxUris"@,
        Endpoint::Issue => "issue"@,
        Endpoint::GetTokenIssued => "get_token_issued"@,
        Endpoint::CreateMysteryBox => "createMysteryBox"@,
        Endpoint::OpenMysteryBox => "openMysteryBox"@,
        Endpoint::GetMysteryBoxTokenIdentifier => "getMysteryBoxTokenIdentifier"@,
        Endpoint::GetGlobalCooldownEpoch => "getGlobalCooldownEpoch"@,
        Endpoint::GetWinningRates => "getWinningRates"@,
        Endpoint::GetMysteryBoxUris => "getMysteryBoxUris"@,
        Endpoint::IsAdmin => "isAdmin"@,
        Endpoint::AddAdmin => "addAdmin"@,
        Endpoint::RemoveAdmin => "removeAdmin"@,
        Endpoint::GetAdmins => "getAdmins"@,
        Endpoint::SendNft => "send_nft"@,
        Endpoint::UpdateAttributes => "update_attributes"@,
    }
}

/// The names the mystery-box contract exports, in the order its wasm
/// adapter lists them, constructor first.
pub open spec fn contract_exports() -> Seq<Seq<char>> {
    seq![
        "init"@,
        "setupMysteryBox"@,
        "updateMysteryBoxUris"@,
        "issue"@,
        "get_token_issued"@,
        "set_roles"@,
        "createMysteryBox"@,
        "openMysteryBox"@,
        "lastErrorMessage"@,
        "getMysteryBoxTokenIdentifier"@,
        "getGlobalCooldownEpoch"@,
        "getWinningRates"@,
        "getMysteryBoxUris"@,
        "isAdmin"@,
        "addAdmin"@,
        "removeAdmin"@,
        "getAdmins"@,
    ]
}

/// Whether the endpoint belongs to the mystery-box contract itself (and
/// not to the test contract, nor to a later version of the contract).
pub open spec fn is_mystery_box_export(endpoint: Endpoint) -> bool {
    endpoint != Endpoint::SendNft && endpoint != Endpoint::UpdateAttributes
}

impl Endpoint {
    /// The exported name of the endpoint.
    pub fn name(&self) -> (res: String)
        ensures
            res@ == endpoint_name(*self),
    {
        match self {
            Endpoint::Init => "init".to_owned(),
            Endpoint::SetupMysteryBox => "setupMysteryBox".to_owned(),
            Endpoint::UpdateMysteryBoxUris => "updateMysteryBoxUris".to_owned(),
            Endpoint::Issue => "issue".to_owned(),
            Endpoint::GetTokenIssued => "get_token_issued".to_owned(),
            Endpoint::CreateMysteryBox => "createMysteryBox".to_owned(),
            Endpoint::OpenMysteryBox => "openMysteryBox".to_owned(),
            Endpoint::GetMysteryBoxTokenIdentifier => "getMysteryBoxTokenIdentifier".to_owned(),
            Endpoint::GetGlobalCooldownEpoch => "getGlobalCooldownEpoch".to_owned(),
            Endpoint::GetWinningRates => "getWinningRates".to_owned(),
            Endpoint::GetMysteryBoxUris => "getMysteryBoxUris".to_owned(),
            Endpoint::IsAdmin => "isAdmin".to_owned(),
            Endpoint::AddAdmin => "addAdmin".to_owned(),
            Endpoint::RemoveAdmin => "removeAdmin".to_owned(),
            Endpoint::GetAdmins => "getAdmins".to_owned(),
            Endpoint::SendNft => "send_nft".to_owned(),
            Endpoint::UpdateAttributes => "update_attributes".to_owned(),
        }
    }
}

/// The compiled contracts that the interactor deploys.
#[derive(Clone, Copy, PartialEq, Eq, Structural, Debug)]
pub enum ContractCode {
    MysteryBox,
    ContractTest,
}

/// Where the compiled code of a contract is read from.
pub open spec fn code_path(code: ContractCode) -> Seq<char> {
    match code {
        ContractCode::MysteryBox => "mxsc:../output/mystery-box.mxsc.json"@,
        ContractCode::ContractTest => "mxsc:../contracttest/output/contracttest.mxsc.json"@,
    }
}

impl ContractCode {
    /// The path expression of the compiled code.
    pub fn path(&self) -> (res: String)
        ensures
            res@ == code_path(*self),
    {
        match self {
            ContractCode::MysteryBox => "mxsc:../output/mystery-box.mxsc.json".to_owned(),
            ContractCode::ContractTest => "mxsc:../contracttest/output/contracttest.mxsc.json".to_owned(),
        }
    }
}

/// A payment of some amount of one ESDT (by identifier and nonce).
#[derive(Clone, Debug, PartialEq, Eq)]
pub struct EsdtPayment {
    pub token_id: String,
    pub nonce: u64,
    pub amount: u128,
}

/// An ESDT payment as a value.
pub struct EsdtPaymentView {
    pub token_id: Seq<char>,
    pub nonce: u64,
    pub amount: u128,
}

impl View for EsdtPayment {
    type V = EsdtPaymentView;

    open spec fn view(&self) -> EsdtPaymentView {
        EsdtPaymentView { token_id: self.token_id@, nonce: self.nonce, amount: self.amount }
    }
}

impl EsdtPayment {
    /// A payment of `amount` of the token `token_id` with nonce `nonce`.
    pub fn new(token_id: &str, nonce: u64, amount: u128) -> (res: EsdtPayment)
        ensures
            res@ == (EsdtPaymentView { token_id: token_id@, nonce, amount }),
    {
        EsdtPayment { token_id: token_id.to_owned(), nonce, amount }
    }
}

/// What a transaction carries besides its arguments.
#[derive(Clone, Debug, PartialEq, Eq)]
pub enum Payment {
    NoPayment,
    Esdt(EsdtPayment),
    Egld(u128),
}

/// A payment as a value.
pub enum PaymentView {
    NoPayment,
    Esdt(EsdtPaymentView),
    Egld(u128),
}

impl View for Payment {
    type V = PaymentView;

    open spec fn view(&self) -> PaymentView {
        match self {
            Payment::NoPayment => PaymentView::NoPayment,
            Payment::Esdt(p) => PaymentView::Esdt(p@),
            Payment::Egld(amount) => PaymentView::Egld(*amount),
        }
    }
}

/// One endpoint argument.
#[derive(Clone, Debug, PartialEq, Eq)]
pub enum Arg {
    TokenIdentifier(String),
    Address(AddressBytes),
    BigUint(u128),
    Buffer(String),
    Reward(RewardType),
    WinningRates(Vec<WinningRate>),
    Uris(Vec<String>),
    Payment(EsdtPayment),
}

/// An argument as a value.
pub enum ArgView {
    TokenIdentifier(Seq<char>),
    Address(AddressBytes),
    BigUint(u128),
    Buffer(Seq<char>),
    Reward(RewardType),
    WinningRates(Seq<WinningRateView>),
    Uris(Seq<Seq<char>>),
    Payment(EsdtPaymentView),
}

impl View for Arg {
    type V = ArgView;

    open spec fn view(&self) -> ArgView {
        match self {
            Arg::TokenIdentifier(id) => ArgView::TokenIdentifier(id@),
            Arg::Address(a) => ArgView::Address(*a),
            Arg::BigUint(n) => ArgView::BigUint(*n),
            Arg::Buffer(b) => ArgView::Buffer(b@),
            Arg::Reward(r) => ArgView::Reward(*r),
            Arg::WinningRates(rates) => ArgView::WinningRates(rates_view(rates@)),
            Arg::Uris(uris) => ArgView::Uris(uris@.map_values(|u: String| u@)),
            Arg::Payment(p) => ArgView::Payment(p@),
        }
    }
}

/// The values of a list of arguments.
pub open spec fn args_view(args: Seq<Arg>) -> Seq<ArgView> {
    args.map_values(|a: Arg| a@)
}

/// Where a transaction goes: a new deployment of some code, a call of an
/// endpoint at an address, or a plain token transfer to an address.
#[derive(Clone, Copy, Debug, PartialEq, Eq)]
pub enum Target {
    Deploy(ContractCode),
    Call(AddressBytes, Endpoint),
    Transfer(AddressBytes),
}

/// The outcome the interactor expects back.
#[derive(Clone, Debug, PartialEq, Eq)]
pub enum Expect {
    Success,
    Error { code: u64, message: String },
}

/// An expected outcome as a value.
pub enum ExpectView {
    Success,
    Error { code: u64, message: Seq<char> },
}

impl View for Expect {
    type V = ExpectView;

    open spec fn view(&self) -> ExpectView {
        match self {
            Expect::Success => ExpectView::Success,
            Expect::Error { code, message } => ExpectView::Error { code: *code, message: message@ },
        }
    }
}

impl Expect {
    /// The expectation that the chain answers with error `code` and
    /// message `message`.
    pub fn error(code: u64, message: &str) -> (res: Expect)
        ensures
            res@ == (ExpectView::Error { code, message: message@ }),
    {
        Expect::Error { code, message: message.to_owned() }
    }
}

/// A signed transaction to send.
#[derive(Clone, Debug, PartialEq, Eq)]
pub struct Transaction {
    pub from: AddressBytes,
    pub target: Target,
    pub gas: Option<u64>,
    pub args: Vec<Arg>,
    pub payment: Payment,
    pub expect: Expect,
}

/// A transaction as a value.
pub struct TransactionView {
    pub from: AddressBytes,
    pub target: Target,
    pub gas: Option<u64>,
    pub args: Seq<ArgView>,
    pub payment: PaymentView,
    pub expect: ExpectView,
}

impl View for Transaction {
    type V = TransactionView;

    open spec fn view(&self) -> TransactionView {
        TransactionView {
            from: self.from,
            target: self.target,
            gas: self.gas,
            args: args_view(self.args@),
            payment: self.payment@,
            expect: self.expect@,
        }
    }
}

/// A read-only query of a contract endpoint.
#[derive(Clone, Debug, PartialEq, Eq)]
pub struct Query {
    pub to: AddressBytes,
    pub endpoint: Endpoint,
    pub args: Vec<Arg>,
}

/// A query as a value.
pub struct QueryView {
    pub to: AddressBytes,
    pub endpoint: Endpoint,
    pub args: Seq<ArgView>,
}

impl View for Query {
    type V = QueryView;

    open spec fn view(&self) -> QueryView {
        QueryView { to: self.to, endpoint: self.endpoint, args: args_view(self.args@) }
    }
}

} // verus!
