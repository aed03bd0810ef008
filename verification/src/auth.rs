//! Signing in to Azure OpenAI with an access token from the Azure CLI, and
//! the error that tells the user how to provide credentials instead.
use vstd::prelude::*;

use crate::cli::{access_token_args, access_token_command, default_azure_env_key};
use crate::resource::text_result_view;
use crate::text::{is_inner_run, is_white_space, lemma_trimmed_is_inner_run, trim, trimmed};

verus! {

/// The parts of a model provider's configuration that the Azure helpers
/// read.
#[derive(Debug, Clone)]
pub struct ModelProviderInfo {
    /// The provider's name.
    pub name: String,
    /// The base URL of the provider's API, if configured.
    pub base_url: Option<String>,
    /// The environment variable that holds the provider's API key, if any.
    pub env_key: Option<String>,
    /// Whether the provider is an Azure OpenAI endpoint, as its
    /// configuration reports.
    pub azure: bool,
}

impl ModelProviderInfo {
    /// Whether the provider is an Azure OpenAI endpoint.
    pub fn is_azure(&self) -> (r: bool)
        ensures
            r == self.azure,
    {
        self.azure
    }

    /// The base URL of an Azure provider, or the message that says it has
    /// none.
    pub fn azure_base_url(&self) -> (r: Result<String, String>)
        ensures
            text_result_view(r) == match self.base_url {
                Some(url) => Ok::<Seq<char>, Seq<char>>(url@),
                None => Err("Azure provider is missing a base_url"@),
            },
    {
        match &self.base_url {
            Some(url) => Ok(url.clone()),
            None => Err(String::from_str("Azure provider is missing a base_url")),
        }
    }
}

/// The access token that `az account get-access-token` reports.
#[derive(Debug, Clone, PartialEq, Eq)]
pub struct AzureCliAccessTokenResponse {
    pub access_token: String,
}

/// A missing environment variable, with instructions on how to do without.
#[derive(Debug, Clone, PartialEq, Eq)]
pub struct EnvVarError {
    /// The variable that is missing.
    pub var: String,
    /// What the user can do instead, if anything.
    pub instructions: Option<String>,
}

/// The errors of the Azure sign-in.
#[derive(Debug, Clone, PartialEq, Eq)]
pub enum CodexErr {
    /// A credential that an environment variable would have given is missing.
    EnvVar(EnvVarError),
}

/// The text of an [`EnvVarError`].
pub open spec fn env_var_message(var: Seq<char>, instructions: Option<Seq<char>>) -> Seq<char> {
    "Missing environment variable: `"@ + var + "`."@ + match instructions {
        Some(text) => " "@ + text,
        None => Seq::empty(),
    }
}

/// The view of optional text as an optional character sequence.
pub open spec fn optional_text_view(t: Option<String>) -> Option<Seq<char>> {
    match t {
        Some(s) => Some(s@),
        None => None,
    }
}

impl EnvVarError {
    /// The text that describes the error.
    pub fn message(&self) -> (r: String)
        ensures
            r@ == env_var_message(self.var@, optional_text_view(self.instructions)),
    {
        let mut msg = String::from_str("Missing environment variable: `");
        msg.append(self.var.as_str());
        msg.append("`.");
        match &self.instructions {
            Some(text) => {
                msg.append(" ");
                msg.append(text.as_str());
                msg
            },
            None => {
                assert(msg@ =~= msg@ + Seq::<char>::empty());
                msg
            },
        }
    }
}

impl CodexErr {
    /// The text that describes the error.
    pub fn message(&self) -> (r: String)
        ensures
            match self {
                CodexErr::EnvVar(e) => r@ == env_var_message(e.var@, optional_text_view(e.instructions)),
            },
    {
        match self {
            CodexErr::EnvVar(e) => e.message(),
        }
    }
}

/// The environment variable that the sign-in error names: the provider's
/// own, or the default Azure OpenAI key variable.
pub open spec fn auth_env_var(provider: ModelProviderInfo) -> Seq<char> {
    match provider.env_key {
        Some(key) => key@,
        None => default_azure_env_key(),
    }
}

/// The instructions of the sign-in error: how to give a key or sign in, then
/// what went wrong.
pub open spec fn auth_instructions(var: Seq<char>, detail: Seq<char>) -> Seq<char> {
    "Set `"@ + var
        + "` or sign in with Azure CLI via `az login` so Codex can obtain a Microsoft Entra access token for Azure OpenAI automatically. "@
        + detail
}

/// `err` is the sign-in error for `provider` that reports `detail`.
pub open spec fn is_auth_error(err: CodexErr, provider: ModelProviderInfo, detail: Seq<char>) -> bool {
    match err {
        CodexErr::EnvVar(e) => {
            &&& e.var@ == auth_env_var(provider)
            &&& optional_text_view(e.instructions) == Some(
                auth_instructions(auth_env_var(provider), detail),
            )
        },
    }
}

/// The error that points the user to the provider's key variable and to
/// `az login`, followed by `detail`.
pub fn azure_cli_auth_error(provider: &ModelProviderInfo, detail: String) -> (r: CodexErr)
    ensures
        is_auth_error(r, *provider, detail@),
{
    let var = match &provider.env_key {
        Some(key) => key.clone(),
        None => String::from_str("AZURE_OPENAI_API_KEY"),
    };
    let mut instructions = String::from_str("Set `");
    instructions.append(var.as_str());
    instructions.append(
        "` or sign in with Azure CLI via `az login` so Codex can obtain a Microsoft Entra access token for Azure OpenAI automatically. ",
    );
    instructions.append(detail.as_str());
    CodexErr::EnvVar(EnvVarError { var, instructions: Some(instructions) })
}

/// The access token of a reply: its text trimmed, unless nothing is left.
pub open spec fn access_token_outcome(token: Seq<char>) -> Result<Seq<char>, Seq<char>> {
    if trimmed(token).len() == 0 {
        Err("Azure CLI returned an empty access token"@)
    } else {
        Ok(trimmed(token))
    }
}

/// The access token that the Azure CLI returned, without surrounding white
/// space; an error where it is blank.
pub fn access_token_from_response(response: AzureCliAccessTokenResponse) -> (r: Result<
    String,
    String,
>)
    ensures
        text_result_view(r) == access_token_outcome(response.access_token@),
        r matches Ok(t) ==> t@ == trimmed(response.access_token@),
        trimmed(response.access_token@).len() > 0 ==> r is Ok,
{
    let access_token = trim(response.access_token.as_str());
    if access_token.as_str().unicode_len() == 0 {
        return Err(String::from_str("Azure CLI returned an empty access token"));
    }
    Ok(access_token)
}

/// The `az` command whose reply the bearer token needs: for an Azure
/// provider, the one request for an access token to Azure OpenAI; for any
/// other provider none, and no command is run.
pub fn bearer_token_request(provider: &ModelProviderInfo) -> (r: Option<Vec<String>>)
    ensures
        r is Some <==> provider.azure,
        r matches Some(args) ==> args.deep_view() == access_token_command(),
{
    if provider.is_azure() {
        Some(access_token_args())
    } else {
        None
    }
}

/// The bearer token of a provider given the reply to its token command: no
/// token for a provider that is not Azure; otherwise the reply's trimmed
/// token, or the detail that the sign-in error reports.
pub open spec fn bearer_token_outcome(
    provider: ModelProviderInfo,
    reply: Result<AzureCliAccessTokenResponse, String>,
) -> Result<Option<Seq<char>>, Seq<char>> {
    if !provider.azure {
        Ok(None)
    } else {
        match reply {
            Err(detail) => Err(detail@),
            Ok(response) => match access_token_outcome(response.access_token@) {
                Ok(token) => Ok(Some(token)),
                Err(detail) => Err(detail),
            },
        }
    }
}

/// The bearer token for an Azure provider, given the Azure CLI's reply to
/// the command that `bearer_token_request` names: the reply's token, or the
/// sign-in error that carries what went wrong. A provider that is not Azure
/// gets no token; no command is run for it, and the reply is not read.
pub fn azure_cli_bearer_token(
    provider: &ModelProviderInfo,
    reply: Result<AzureCliAccessTokenResponse, String>,
) -> (r: Result<Option<String>, CodexErr>)
    ensures
        !provider.azure ==> r == Ok::<Option<String>, CodexErr>(None),
        match bearer_token_outcome(*provider, reply) {
            Ok(None) => r == Ok::<Option<String>, CodexErr>(None),
            Ok(Some(token)) => r matches Ok(Some(t)) && t@ == token,
            Err(detail) => r matches Err(e) && is_auth_error(e, *provider, detail),
        },
{
    if !provider.is_azure() {
        return Ok(None);
    }
    match reply {
        Err(detail) => Err(azure_cli_auth_error(provider, detail)),
        Ok(response) => match access_token_from_response(response) {
            Ok(token) => Ok(Some(token)),
            Err(detail) => Err(azure_cli_auth_error(provider, detail)),
        },
    }
}

/// A provider for which no command is requested gets no token, whatever
/// reply is passed; a provider for which the token command is requested gets
/// the token, or the sign-in error, that the reply to it gives.
pub proof fn lemma_bearer_token_follows_its_request(
    provider: ModelProviderInfo,
    reply: Result<AzureCliAccessTokenResponse, String>,
)
    ensures
        !provider.azure ==> bearer_token_outcome(provider, reply) == Ok::<Option<Seq<char>>, Seq<char>>(None),
        provider.azure ==> bearer_token_outcome(provider, reply) == match reply {
            Err(detail) => Err::<Option<Seq<char>>, Seq<char>>(detail@),
            Ok(response) => match access_token_outcome(response.access_token@) {
                Ok(token) => Ok(Some(token)),
                Err(detail) => Err(detail),
            },
        },
{
}

/// The token handed out is the reply's token with only its surrounding white
/// space removed: every character from the first to the last one that is
/// not white space is kept, as it is and in order. A reply that holds
/// nothing but white space is refused.
pub proof fn lemma_access_token_is_reply_token_trimmed(token: Seq<char>)
    ensures
        (exists|k: int| 0 <= k < token.len() && !is_white_space(#[trigger] token[k])) ==> (
        access_token_outcome(token) matches Ok(t) && exists|i: int, j: int|
            is_inner_run(token, i, j) && t == #[trigger] token.subrange(i, j)),
        (forall|k: int| 0 <= k < token.len() ==> is_white_space(#[trigger] token[k]))
            ==> access_token_outcome(token) is Err,
{
    lemma_trimmed_is_inner_run(token);
}

/// A token handed out is never blank and has no surrounding white space:
/// trimming it again changes nothing.
pub proof fn lemma_access_token_is_trimmed(token: Seq<char>)
    requires
        access_token_outcome(token) is Ok,
    ensures
        access_token_outcome(token)->Ok_0.len() > 0,
        trimmed(access_token_outcome(token)->Ok_0) == access_token_outcome(token)->Ok_0,
        access_token_outcome(access_token_outcome(token)->Ok_0) == access_token_outcome(token),
{
    crate::text::lemma_trimmed_idempotent(token);
}

} // verus!
