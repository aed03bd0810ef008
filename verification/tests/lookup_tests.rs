use azure_catalog::cli::{
    access_token_args, account_list_args, cli_failure_error, cli_launch_error,
    deployment_list_args, json_parse_error,
};
use azure_catalog::lookup::{resolve_openai_deployment_model_names_for_base_url, DeploymentLookup};
use azure_catalog::resource::{
    AzureAccountSummary, AzureDeploymentModel, AzureDeploymentProperties, AzureDeploymentSummary,
};

fn strings(items: &[&str]) -> Vec<String> {
    items.iter().map(|s| s.to_string()).collect()
}

fn account(name: &str, resource_group: &str) -> AzureAccountSummary {
    AzureAccountSummary {
        name: name.to_string(),
        resource_group: resource_group.to_string(),
    }
}

fn deployment(format: &str, name: &str) -> AzureDeploymentSummary {
    AzureDeploymentSummary {
        properties: AzureDeploymentProperties {
            model: AzureDeploymentModel {
                format: format.to_string(),
                name: name.to_string(),
            },
        },
    }
}

#[test]
fn lookup_runs_account_then_deployment_listing() {
    let lookup =
        resolve_openai_deployment_model_names_for_base_url("https://my-res.openai.azure.com/openai");
    assert_eq!(
        lookup.cli_args(),
        Some(strings(&["cognitiveservices", "account", "list", "--output", "json"]))
    );
    assert!(lookup.awaits_accounts());
    let lookup = lookup.accounts_listed(Ok(vec![account("other", "rg-x"), account("My-Res", "rg-1")]));
    assert!(!lookup.awaits_accounts());
    assert_eq!(
        lookup.cli_args(),
        Some(strings(&[
            "cognitiveservices",
            "account",
            "deployment",
            "list",
            "-n",
            "my-res",
            "-g",
            "rg-1",
            "--output",
            "json",
        ]))
    );
    let lookup = lookup.deployments_listed(Ok(vec![
        deployment("OpenAI", "GPT-4o"),
        deployment("Other", "x"),
    ]));
    assert_eq!(lookup.cli_args(), None);
    assert_eq!(lookup.outcome(), Some(Ok(vec!["gpt-4o".to_string()])));
}

#[test]
fn lookup_finishes_at_once_for_urls_without_a_resource() {
    let lookup = resolve_openai_deployment_model_names_for_base_url("https://foo.z01.azurefd.net/openai");
    assert_eq!(lookup.cli_args(), None);
    assert_eq!(
        lookup.outcome(),
        Some(Err("Azure base_url `https://foo.z01.azurefd.net/openai` does not expose a resource name that Codex can resolve automatically".to_string()))
    );
}

#[test]
fn lookup_stops_on_a_failed_listing() {
    let lookup = resolve_openai_deployment_model_names_for_base_url("https://r.openai.azure.com")
        .accounts_listed(Err("no accounts".to_string()));
    assert_eq!(lookup.outcome(), Some(Err("no accounts".to_string())));

    let lookup = resolve_openai_deployment_model_names_for_base_url("https://r.openai.azure.com")
        .accounts_listed(Ok(vec![account("r", "g")]))
        .deployments_listed(Err("no deployments".to_string()));
    assert_eq!(lookup.outcome(), Some(Err("no deployments".to_string())));
}

#[test]
fn lookup_stops_when_the_resource_is_not_listed() {
    let lookup = resolve_openai_deployment_model_names_for_base_url("https://r.openai.azure.com")
        .accounts_listed(Ok(vec![]));
    assert_eq!(
        lookup.outcome(),
        Some(Err("Azure resource `r` was not found".to_string()))
    );
}

#[test]
fn lookup_ignores_replies_it_does_not_await() {
    let lookup = resolve_openai_deployment_model_names_for_base_url("https://r.openai.azure.com")
        .deployments_listed(Ok(vec![deployment("OpenAI", "m")]));
    assert!(lookup.awaits_accounts());
    let finished = DeploymentLookup::Finished(Ok(vec!["a".to_string()]))
        .accounts_listed(Ok(vec![account("r", "g")]))
        .deployments_listed(Err("late".to_string()));
    assert_eq!(finished.outcome(), Some(Ok(vec!["a".to_string()])));
    let pending = DeploymentLookup::AwaitingAccounts {
        resource: "r".to_string(),
    };
    assert_eq!(pending.outcome(), None);
}

#[test]
fn cli_argument_lists() {
    assert_eq!(
        account_list_args(),
        strings(&["cognitiveservices", "account", "list", "--output", "json"])
    );
    assert_eq!(
        deployment_list_args("res", "grp"),
        strings(&[
            "cognitiveservices",
            "account",
            "deployment",
            "list",
            "-n",
            "res",
            "-g",
            "grp",
            "--output",
            "json"
        ])
    );
    assert_eq!(
        access_token_args(),
        strings(&[
            "account",
            "get-access-token",
            "--resource",
            "https://cognitiveservices.azure.com",
            "--output",
            "json"
        ])
    );
}

#[test]
fn cli_error_messages() {
    let args = strings(&["account", "list"]);
    assert_eq!(
        cli_launch_error(&args, "not found"),
        "failed to run `az account list`: not found"
    );
    assert_eq!(
        cli_failure_error(&args, "  ERROR: please run az login\n", "exit status: 1"),
        "`az account list` failed: ERROR: please run az login"
    );
    assert_eq!(
        cli_failure_error(&args, " \n ", "exit status: 2"),
        "`az account list` failed: Azure CLI exited with status exit status: 2"
    );
    assert_eq!(
        cli_launch_error(&Vec::new(), "e"),
        "failed to run `az `: e"
    );
    assert_eq!(
        json_parse_error("Azure resource list", "EOF while parsing a value at line 1 column 0"),
        "failed to parse Azure resource list JSON: EOF while parsing a value at line 1 column 0"
    );
}
