//! Resolving the OpenAI model names that an Azure base URL deploys.
//!
//! The resolution asks the Azure CLI twice: first for the accounts, to find
//! the resource group of the URL's resource, then for the deployments of
//! that resource. A [`DeploymentLookup`] holds where the resolution stands:
//! it says which command to run next and takes the command's reply.
use vstd::prelude::*;

use crate::cli::{account_list_args, account_list_command, deployment_list_args, deployment_list_command};
use crate::resource::{
    find_resource_group, model_names_from, openai_model_names, resource_group_outcome,
    resource_name_from_base_url, resource_name_outcome, url_host_result, AzureAccountSummary,
    AzureDeploymentSummary,
};

verus! {

/// Where the resolution of a base URL's deployed models stands.
#[derive(Debug)]
pub enum DeploymentLookup {
    /// The resource is known; the account list is to be read next.
    AwaitingAccounts { resource: String },
    /// The resource group is known; the deployment list is to be read next.
    AwaitingDeployments { resource: String, resource_group: String },
    /// The resolution is over: the model names, or the reason why there are none.
    Finished(Result<Vec<String>, String>),
}

/// The abstract state of a [`DeploymentLookup`].
pub enum LookupState {
    AwaitingAccounts { resource: Seq<char> },
    AwaitingDeployments { resource: Seq<char>, resource_group: Seq<char> },
    Finished(Result<Seq<Seq<char>>, Seq<char>>),
}

/// The view of a list of names, or of the message that replaces it.
pub open spec fn names_result_view(r: Result<Vec<String>, String>) -> Result<Seq<Seq<char>>, Seq<char>> {
    match r {
        Ok(names) => Ok(names.deep_view()),
        Err(e) => Err(e@),
    }
}

/// The view of a reply that holds a list of accounts or a message.
pub open spec fn accounts_reply_view(r: Result<Vec<AzureAccountSummary>, String>) -> Result<
    Seq<AzureAccountSummary>,
    Seq<char>,
> {
    match r {
        Ok(accounts) => Ok(accounts@),
        Err(e) => Err(e@),
    }
}

/// The view of a reply that holds a list of deployments or a message.
pub open spec fn deployments_reply_view(r: Result<Vec<AzureDeploymentSummary>, String>) -> Result<
    Seq<AzureDeploymentSummary>,
    Seq<char>,
> {
    match r {
        Ok(deployments) => Ok(deployments@),
        Err(e) => Err(e@),
    }
}

impl View for DeploymentLookup {
    type V = LookupState;

    open spec fn view(&self) -> LookupState {
        match self {
            DeploymentLookup::AwaitingAccounts { resource } => LookupState::AwaitingAccounts {
                resource: resource@,
            },
            DeploymentLookup::AwaitingDeployments { resource, resource_group } =>
                LookupState::AwaitingDeployments {
                resource: resource@,
                resource_group: resource_group@,
            },
            DeploymentLookup::Finished(r) => LookupState::Finished(names_result_view(*r)),
        }
    }
}

/// The state in which a resolution begins, given what parsing the base URL
/// gave.
pub open spec fn lookup_started(
    base_url: Seq<char>,
    parsed: Result<Option<Seq<char>>, Seq<char>>,
) -> LookupState {
    match resource_name_outcome(base_url, parsed) {
        Ok(resource) => LookupState::AwaitingAccounts { resource },
        Err(e) => LookupState::Finished(Err(e)),
    }
}

/// The state after the account list's reply; a state that does not await
/// it stays as it is.
pub open spec fn after_accounts(
    state: LookupState,
    reply: Result<Seq<AzureAccountSummary>, Seq<char>>,
) -> LookupState {
    match state {
        LookupState::AwaitingAccounts { resource } => match reply {
            Err(e) => LookupState::Finished(Err(e)),
            Ok(accounts) => match resource_group_outcome(resource, accounts) {
                Ok(resource_group) => LookupState::AwaitingDeployments { resource, resource_group },
                Err(e) => LookupState::Finished(Err(e)),
            },
        },
        _ => state,
    }
}

/// The state after the deployment list's reply; a state that does not await
/// it stays as it is.
pub open spec fn after_deployments(
    state: LookupState,
    reply: Result<Seq<AzureDeploymentSummary>, Seq<char>>,
) -> LookupState {
    match state {
        LookupState::AwaitingDeployments { .. } => match reply {
            Err(e) => LookupState::Finished(Err(e)),
            Ok(deployments) => LookupState::Finished(Ok(model_names_from(deployments))),
        },
        _ => state,
    }
}

/// The arguments of the command that a state waits for, if any.
pub open spec fn pending_command(state: LookupState) -> Option<Seq<Seq<char>>> {
    match state {
        LookupState::AwaitingAccounts { .. } => Some(account_list_command()),
        LookupState::AwaitingDeployments { resource, resource_group } => Some(
            deployment_list_command(resource, resource_group),
        ),
        LookupState::Finished(_) => None,
    }
}

/// The model names of a base URL, worked out in one go from what parsing it
/// gave and from the two listings: each step's error ends it.
pub open spec fn deployed_model_names(
    base_url: Seq<char>,
    parsed: Result<Option<Seq<char>>, Seq<char>>,
    accounts: Result<Seq<AzureAccountSummary>, Seq<char>>,
    deployments: Result<Seq<AzureDeploymentSummary>, Seq<char>>,
) -> Result<Seq<Seq<char>>, Seq<char>> {
    match resource_name_outcome(base_url, parsed) {
        Err(e) => Err(e),
        Ok(resource) => match accounts {
            Err(e) => Err(e),
            Ok(accounts) => match resource_group_outcome(resource, accounts) {
                Err(e) => Err(e),
                Ok(_) => match deployments {
                    Err(e) => Err(e),
                    Ok(deployments) => Ok(model_names_from(deployments)),
                },
            },
        },
    }
}

/// Begins resolving the OpenAI model names that the Azure resource of
/// `base_url` deploys. The lookup finishes at once where the URL exposes no
/// resource name; otherwise it awaits the account list.
pub fn resolve_openai_deployment_model_names_for_base_url(base_url: &str) -> (r: DeploymentLookup)
    ensures
        r@ == lookup_started(base_url@, url_host_result(base_url@)),
{
    match resource_name_from_base_url(base_url) {
        Ok(resource) => DeploymentLookup::AwaitingAccounts { resource },
        Err(e) => DeploymentLookup::Finished(Err(e)),
    }
}

impl DeploymentLookup {
    /// The arguments of the `az` command whose reply the lookup awaits, or
    /// `None` once it is finished.
    pub fn cli_args(&self) -> (r: Option<Vec<String>>)
        ensures
            match r {
                Some(args) => pending_command(self@) == Some(args.deep_view()),
                None => pending_command(self@) == None::<Seq<Seq<char>>>,
            },
    {
        match self {
            DeploymentLookup::AwaitingAccounts { .. } => Some(account_list_args()),
            DeploymentLookup::AwaitingDeployments { resource, resource_group } => Some(
                deployment_list_args(resource.as_str(), resource_group.as_str()),
            ),
            DeploymentLookup::Finished(_) => None,
        }
    }

    /// Whether the lookup awaits the account list.
    pub fn awaits_accounts(&self) -> (r: bool)
        ensures
            r == (self@ is AwaitingAccounts),
    {
        match self {
            DeploymentLookup::AwaitingAccounts { .. } => true,
            _ => false,
        }
    }

    /// Takes the reply to the account list: the accounts, or the message
    /// that says why they could not be listed. A lookup that does not await
    /// them is returned unchanged.
    pub fn accounts_listed(self, reply: Result<Vec<AzureAccountSummary>, String>) -> (r:
        DeploymentLookup)
        ensures
            r@ == after_accounts(self@, accounts_reply_view(reply)),
    {
        match self {
            DeploymentLookup::AwaitingAccounts { resource } => match reply {
                Err(e) => DeploymentLookup::Finished(Err(e)),
                Ok(accounts) => match find_resource_group(resource.as_str(), accounts.as_slice()) {
                    Ok(resource_group) => DeploymentLookup::AwaitingDeployments {
                        resource,
                        resource_group,
                    },
                    Err(e) => DeploymentLookup::Finished(Err(e)),
                },
            },
            other => other,
        }
    }

    /// Takes the reply to the deployment list: the deployments, or the
    /// message that says why they could not be listed. A lookup that does not
    /// await them is returned unchanged.
    pub fn deployments_listed(self, reply: Result<Vec<AzureDeploymentSummary>, String>) -> (r:
        DeploymentLookup)
        ensures
            r@ == after_deployments(self@, deployments_reply_view(reply)),
    {
        match self {
            DeploymentLookup::AwaitingDeployments { .. } => match reply {
                Err(e) => DeploymentLookup::Finished(Err(e)),
                Ok(deployments) => DeploymentLookup::Finished(Ok(openai_model_names(deployments))),
            },
            other => other,
        }
    }

    /// The outcome of a finished lookup, `None` while it still awaits a
    /// reply.
    pub fn outcome(self) -> (r: Option<Result<Vec<String>, String>>)
        ensures
            match self@ {
                LookupState::Finished(res) => r matches Some(out) && names_result_view(out) == res,
                _ => r is None,
            },
    {
        match self {
            DeploymentLookup::Finished(res) => Some(res),
            _ => None,
        }
    }
}

/// Driving a lookup with the two replies gives the same model names, or the
/// same error, as working them out in one go; and the deployment list it
/// asks for is that of the resource and the resource group that the account
/// list named.
pub proof fn lemma_lookup_resolves_in_one_go(
    base_url: Seq<char>,
    parsed: Result<Option<Seq<char>>, Seq<char>>,
    accounts: Result<Seq<AzureAccountSummary>, Seq<char>>,
    deployments: Result<Seq<AzureDeploymentSummary>, Seq<char>>,
)
    ensures
        after_deployments(after_accounts(lookup_started(base_url, parsed), accounts), deployments)
            == LookupState::Finished(deployed_model_names(base_url, parsed, accounts, deployments)),
        lookup_started(base_url, parsed) is AwaitingAccounts ==> pending_command(
            lookup_started(base_url, parsed),
        ) == Some(account_list_command()),
        after_accounts(lookup_started(base_url, parsed), accounts) matches
            LookupState::AwaitingDeployments { resource, resource_group } ==> {
            &&& resource_name_outcome(base_url, parsed) == Ok::<Seq<char>, Seq<char>>(resource)
            &&& accounts matches Ok(listed) && resource_group_outcome(resource, listed) == Ok::<
                Seq<char>,
                Seq<char>,
            >(resource_group)
            &&& pending_command(after_accounts(lookup_started(base_url, parsed), accounts))
                == Some(deployment_list_command(resource, resource_group))
        },
{
}

/// A finished lookup stays finished, with the same outcome, whatever reply
/// comes after.
pub proof fn lemma_finished_lookup_is_final(
    outcome: Result<Seq<Seq<char>>, Seq<char>>,
    accounts: Result<Seq<AzureAccountSummary>, Seq<char>>,
    deployments: Result<Seq<AzureDeploymentSummary>, Seq<char>>,
)
    ensures
        after_accounts(LookupState::Finished(outcome), accounts) == LookupState::Finished(outcome),
        after_deployments(LookupState::Finished(outcome), deployments) == LookupState::Finished(
            outcome,
        ),
        pending_command(LookupState::Finished(outcome)) is None,
{
}

} // verus!
