//! The Azure CLI commands that the lookups run, and the messages that report
//! a command that could not run, failed, or printed what could not be read.
use vstd::prelude::*;

use crate::text::{join_with_spaces, joined_with_spaces, trim, trimmed};

verus! {

/// The resource whose access token the Azure OpenAI sign-in asks for.
pub open spec fn cognitive_services_resource() -> Seq<char> {
    "https://cognitiveservices.azure.com"@
}

/// The environment variable that names the Azure OpenAI API key where the
/// provider names none.
pub open spec fn default_azure_env_key() -> Seq<char> {
    "AZURE_OPENAI_API_KEY"@
}

/// The arguments of `az cognitiveservices account list --output json`.
pub open spec fn account_list_command() -> Seq<Seq<char>> {
    seq!["cognitiveservices"@, "account"@, "list"@, "--output"@, "json"@]
}

/// The arguments of the command that lists the deployments of a resource in
/// a resource group.
pub open spec fn deployment_list_command(resource: Seq<char>, resource_group: Seq<char>) -> Seq<
    Seq<char>,
> {
    seq![
        "cognitiveservices"@,
        "account"@,
        "deployment"@,
        "list"@,
        "-n"@,
        resource,
        "-g"@,
        resource_group,
        "--output"@,
        "json"@,
    ]
}

/// The arguments of the command that asks for an access token to the
/// Cognitive Services resource.
pub open spec fn access_token_command() -> Seq<Seq<char>> {
    seq![
        "account"@,
        "get-access-token"@,
        "--resource"@,
        cognitive_services_resource(),
        "--output"@,
        "json"@,
    ]
}

/// The message for a command that could not be started.
pub open spec fn cli_launch_message(args: Seq<Seq<char>>, err: Seq<char>) -> Seq<char> {
    "failed to run `az "@ + joined_with_spaces(args) + "`: "@ + err
}

/// What a failed command reported: its trimmed error output, or, where that
/// is empty, its exit status.
pub open spec fn cli_failure_detail(stderr: Seq<char>, status: Seq<char>) -> Seq<char> {
    if trimmed(stderr).len() == 0 {
        "Azure CLI exited with status "@ + status
    } else {
        trimmed(stderr)
    }
}

/// The message for a command that ran and did not succeed.
pub open spec fn cli_failure_message(args: Seq<Seq<char>>, stderr: Seq<char>, status: Seq<char>) -> Seq<
    char,
> {
    "`az "@ + joined_with_spaces(args) + "` failed: "@ + cli_failure_detail(stderr, status)
}

/// The message for a command output that is not the JSON expected.
pub open spec fn json_parse_message(what: Seq<char>, err: Seq<char>) -> Seq<char> {
    "failed to parse "@ + what + " JSON: "@ + err
}

/// The arguments that list the Cognitive Services accounts as JSON.
pub fn account_list_args() -> (r: Vec<String>)
    ensures
        r.deep_view() == account_list_command(),
{
    let r = vec![
        String::from_str("cognitiveservices"),
        String::from_str("account"),
        String::from_str("list"),
        String::from_str("--output"),
        String::from_str("json"),
    ];
    assert(r.deep_view() =~= account_list_command());
    r
}

/// The arguments that list the deployments of `resource` in
/// `resource_group` as JSON.
pub fn deployment_list_args(resource: &str, resource_group: &str) -> (r: Vec<String>)
    ensures
        r.deep_view() == deployment_list_command(resource@, resource_group@),
{
    let r = vec![
        String::from_str("cognitiveservices"),
        String::from_str("account"),
        String::from_str("deployment"),
        String::from_str("list"),
        String::from_str("-n"),
        String::from_str(resource),
        String::from_str("-g"),
        String::from_str(resource_group),
        String::from_str("--output"),
        String::from_str("json"),
    ];
    assert(r.deep_view() =~= deployment_list_command(resource@, resource_group@));
    r
}

/// The arguments that ask the Azure CLI for an access token to Azure OpenAI.
pub fn access_token_args() -> (r: Vec<String>)
    ensures
        r.deep_view() == access_token_command(),
{
    let r = vec![
        String::from_str("account"),
        String::from_str("get-access-token"),
        String::from_str("--resource"),
        String::from_str("https://cognitiveservices.azure.com"),
        String::from_str("--output"),
        String::from_str("json"),
    ];
    assert(r.deep_view() =~= access_token_command());
    r
}

/// The message for `az` with `args` that could not be started; `err` says
/// why.
pub fn cli_launch_error(args: &Vec<String>, err: &str) -> (r: String)
    ensures
        r@ == cli_launch_message(args.deep_view(), err@),
{
    let joined = join_with_spaces(args);
    let mut msg = String::from_str("failed to run `az ");
    msg.append(joined.as_str());
    msg.append("`: ");
    msg.append(err);
    msg
}

/// The message for `az` with `args` that exited without success, given its
/// error output and the text of its exit status.
pub fn cli_failure_error(args: &Vec<String>, stderr: &str, status: &str) -> (r: String)
    ensures
        r@ == cli_failure_message(args.deep_view(), stderr@, status@),
{
    let trimmed_stderr = trim(stderr);
    let detail = if trimmed_stderr.as_str().unicode_len() == 0 {
        let mut d = String::from_str("Azure CLI exited with status ");
        d.append(status);
        d
    } else {
        trimmed_stderr
    };
    let joined = join_with_spaces(args);
    let mut msg = String::from_str("`az ");
    msg.append(joined.as_str());
    msg.append("` failed: ");
    msg.append(detail.as_str());
    msg
}

/// The message for a command output, described by `what`, that could not be
/// read as JSON; `err` says why.
pub fn json_parse_error(what: &str, err: &str) -> (r: String)
    ensures
        r@ == json_parse_message(what@, err@),
{
    let mut msg = String::from_str("failed to parse ");
    msg.append(what);
    msg.append(" JSON: ");
    msg.append(err);
    msg
}

} // verus!
