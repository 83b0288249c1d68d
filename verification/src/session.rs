//! The session that binds an account to a dapp on a chain, and what the user is
//! asked to approve before there is one.

use crate::chain::ChainId;
use vstd::prelude::*;

verus! {

/// The authorization of one dapp under one account: the chain that the dapp is
/// on, and the address that it sees and signs with there.
///
/// There is at most one session for an account and a dapp. The persistence
/// engine keeps sessions; the provider reads them and never deletes one.
#[derive(Debug, Clone, PartialEq, Eq)]
pub struct LocalDappSession {
    pub dapp_id: String,
    pub account_id: String,
    pub chain_id: ChainId,
    /// The address bound to the dapp, as text.
    pub address: String,
    /// Under this id the key store and the persistence engine know the address.
    pub address_id: String,
    pub last_used_at: String,
}

pub struct LocalDappSessionView {
    pub dapp_id: Seq<char>,
    pub account_id: Seq<char>,
    pub chain_id: ChainId,
    pub address: Seq<char>,
    pub address_id: Seq<char>,
    pub last_used_at: Seq<char>,
}

impl View for LocalDappSession {
    type V = LocalDappSessionView;

    open spec fn view(&self) -> LocalDappSessionView {
        LocalDappSessionView {
            dapp_id: self.dapp_id@,
            account_id: self.account_id@,
            chain_id: self.chain_id,
            address: self.address@,
            address_id: self.address_id@,
            last_used_at: self.last_used_at@,
        }
    }
}

impl LocalDappSession {
    /// A second copy of the session.
    pub fn duplicate(&self) -> (copy: LocalDappSession)
        ensures
            copy@ == self@,
    {
        LocalDappSession {
            dapp_id: self.dapp_id.clone(),
            account_id: self.account_id.clone(),
            chain_id: self.chain_id,
            address: self.address.clone(),
            address_id: self.address_id.clone(),
            last_used_at: self.last_used_at.clone(),
        }
    }
}

/// What identifies the session to make, or to find, for a dapp.
#[derive(Debug, Clone, PartialEq, Eq)]
pub struct DappSessionParams {
    pub dapp_id: String,
    pub account_id: String,
    pub chain_id: ChainId,
}

pub struct DappSessionParamsView {
    pub dapp_id: Seq<char>,
    pub account_id: Seq<char>,
    pub chain_id: ChainId,
}

impl View for DappSessionParams {
    type V = DappSessionParamsView;

    open spec fn view(&self) -> DappSessionParamsView {
        DappSessionParamsView {
            dapp_id: self.dapp_id@,
            account_id: self.account_id@,
            chain_id: self.chain_id,
        }
    }
}

/// What the user is shown when a dapp asks to be added to an account.
#[derive(Debug, Clone, PartialEq, Eq)]
pub struct DappApprovalParams {
    /// The account for which the dapp approval is set.
    pub account_id: String,
    /// A human readable dapp identifier that can be presented to the user.
    pub dapp_identifier: String,
    /// The dapp's favicon.
    pub favicon: Option<Vec<u8>>,
}

pub struct DappApprovalParamsView {
    pub account_id: Seq<char>,
    pub dapp_identifier: Seq<char>,
    pub favicon: Option<Seq<u8>>,
}

/// The bytes of an icon that may be missing.
pub open spec fn bytes_view(bytes: Option<Vec<u8>>) -> Option<Seq<u8>> {
    match bytes {
        Some(bytes) => Some(bytes@),
        None => None,
    }
}

impl View for DappApprovalParams {
    type V = DappApprovalParamsView;

    open spec fn view(&self) -> DappApprovalParamsView {
        DappApprovalParamsView {
            account_id: self.account_id@,
            dapp_identifier: self.dapp_identifier@,
            favicon: bytes_view(self.favicon),
        }
    }
}

impl DappApprovalParams {
    pub fn new(account_id: String, dapp_identifier: String, favicon: Option<Vec<u8>>) -> (params:
        DappApprovalParams)
        ensures
            params@ == (DappApprovalParamsView {
                account_id: account_id@,
                dapp_identifier: dapp_identifier@,
                favicon: bytes_view(favicon),
            }),
    {
        DappApprovalParams { account_id, dapp_identifier, favicon }
    }
}

/// The account and the dapp of an approval: what is read before the user is
/// asked.
#[derive(Debug, Clone, PartialEq, Eq)]
pub struct ApprovalSubject {
    /// The active account.
    pub account_id: String,
    /// The dapp's identifier: its registrable domain.
    pub dapp_identifier: String,
}

pub struct ApprovalSubjectView {
    pub account_id: Seq<char>,
    pub dapp_identifier: Seq<char>,
}

impl View for ApprovalSubject {
    type V = ApprovalSubjectView;

    open spec fn view(&self) -> ApprovalSubjectView {
        ApprovalSubjectView { account_id: self.account_id@, dapp_identifier: self.dapp_identifier@ }
    }
}

/// The session to look for inside the resolver's transaction, once the active
/// account and the dapp's record are known: the dapp's session under that
/// account, on the chain where dapps start out. Without a record of the dapp
/// there is no session, which is no error.
pub open spec fn session_lookup(account_id: Seq<char>, dapp_id: Option<Seq<char>>) -> Option<
    DappSessionParamsView,
> {
    match dapp_id {
        Some(dapp_id) => Some(
            DappSessionParamsView { dapp_id, account_id, chain_id: ChainId::default_dapp_chain() },
        ),
        None => None,
    }
}

/// Decides, inside the resolver's transaction, which session to fetch or create.
pub fn session_params_for_dapp(account_id: String, dapp_id: Option<String>) -> (params: Option<
    DappSessionParams,
>)
    ensures
        match params {
            Some(found) => session_lookup(account_id@, crate::json::text_view(dapp_id)) == Some(found@),
            None => dapp_id is None,
        },
{
    match dapp_id {
        Some(dapp_id) => Some(
            DappSessionParams { dapp_id, account_id, chain_id: ChainId::default_dapp_chain() },
        ),
        None => None,
    }
}

} // verus!
