use std::collections::HashSet;

use azure_catalog::resource::{
    find_resource_group, openai_model_names, resource_name_from_base_url,
    resource_name_from_url_host, AzureAccountSummary, AzureDeploymentModel,
    AzureDeploymentProperties, AzureDeploymentSummary,
};

fn account(name: &str, resource_group: &str) -> AzureAccountSummary {
    AzureAccountSummary {
        name: name.to_string(),
        resource_group: resource_group.to_string(),
    }
}

fn deployment(format: &str, name: &str) -> AzureDeploymentSummary {
    AzureDeploymentSummary {
        properties: AzureDeploymentProperties {
            model: AzureDeploymentModel {
                format: format.to_string(),
                name: name.to_string(),
            },
        },
    }
}

#[test]
fn resource_name_is_inferred_from_cognitiveservices_url() {
    let resource =
        resource_name_from_base_url("https://example-resource.cognitiveservices.azure.com/openai")
            .expect("resource should be inferred");

    assert_eq!(resource, "example-resource");
}

#[test]
fn resource_name_is_inferred_from_openai_azure_url() {
    let resource = resource_name_from_base_url("https://example-resource.openai.azure.com/openai")
        .expect("resource should be inferred");

    assert_eq!(resource, "example-resource");
}

#[test]
fn custom_azure_front_door_url_is_not_auto_inferable() {
    let err = resource_name_from_base_url("https://foo.z01.azurefd.net/openai")
        .expect_err("resource inference should fail");

    assert_eq!(
        err,
        "Azure base_url `https://foo.z01.azurefd.net/openai` does not expose a resource name that Codex can resolve automatically"
    );
}

#[test]
fn find_resource_group_matches_case_insensitively() {
    let resource_group = find_resource_group(
        "example-resource",
        &[AzureAccountSummary {
            name: "Example-Resource".to_string(),
            resource_group: "rg-agents".to_string(),
        }],
    )
    .expect("resource group should be found");

    assert_eq!(resource_group, "rg-agents");
}

#[test]
fn find_resource_group_rejects_duplicates() {
    let err = find_resource_group(
        "example-resource",
        &[
            AzureAccountSummary {
                name: "example-resource".to_string(),
                resource_group: "rg-a".to_string(),
            },
            AzureAccountSummary {
                name: "Example-Resource".to_string(),
                resource_group: "rg-b".to_string(),
            },
        ],
    )
    .expect_err("duplicate resources should fail");

    assert_eq!(
        err,
        "found multiple Azure resources named `example-resource`; select one manually instead"
    );
}

#[test]
fn openai_model_names_only_keeps_openai_deployments() {
    let deployments = vec![
        AzureDeploymentSummary {
            properties: AzureDeploymentProperties {
                model: AzureDeploymentModel {
                    format: "OpenAI".to_string(),
                    name: "gpt-5.4".to_string(),
                },
            },
        },
        AzureDeploymentSummary {
            properties: AzureDeploymentProperties {
                model: AzureDeploymentModel {
                    format: "Anthropic".to_string(),
                    name: "sonnet-4-6".to_string(),
                },
            },
        },
        AzureDeploymentSummary {
            properties: AzureDeploymentProperties {
                model: AzureDeploymentModel {
                    format: "openai".to_string(),
                    name: " gpt-5.3-codex ".to_string(),
                },
            },
        },
    ];

    let models: HashSet<String> = openai_model_names(deployments).into_iter().collect();

    assert_eq!(
        models,
        HashSet::from(["gpt-5.4".to_string(), "gpt-5.3-codex".to_string(),])
    );
}

#[test]
fn resource_name_keeps_the_case_of_the_host() {
    // The url crate lower-cases hosts of special schemes; the host read from
    // a parsed URL is used as it is.
    let name = resource_name_from_url_host(
        "https://x",
        Ok(Some("My-Resource.OpenAI.Azure.com".to_string())),
    );
    assert_eq!(name, Ok("My-Resource".to_string()));
}

#[test]
fn resource_name_from_windows_net_host() {
    let name = resource_name_from_base_url("https://myres.blob.core.windows.net/openai");
    assert_eq!(name, Ok("myres".to_string()));
}

#[test]
fn resource_name_from_aoai_host() {
    let name = resource_name_from_base_url("https://team-a.aoai.azure.com");
    assert_eq!(name, Ok("team-a".to_string()));
}

#[test]
fn resource_name_reports_invalid_url() {
    let err = resource_name_from_base_url("not a url").expect_err("should fail");
    assert_eq!(
        err,
        "invalid Azure base_url `not a url`: relative URL without a base"
    );
}

#[test]
fn resource_name_reports_missing_host() {
    let err = resource_name_from_base_url("data:text/plain,openai.azure.com").expect_err("should fail");
    assert_eq!(err, "Azure base_url `data:text/plain,openai.azure.com` is missing a host");
}

#[test]
fn resource_name_reports_empty_first_label() {
    let err = resource_name_from_url_host("https://x", Ok(Some(".openai.azure.com".to_string())))
        .expect_err("should fail");
    assert_eq!(err, "failed to infer Azure resource name from `https://x`");
}

#[test]
fn resource_name_passes_on_the_parse_error() {
    let err = resource_name_from_url_host("u", Err("bad".to_string())).expect_err("should fail");
    assert_eq!(err, "invalid Azure base_url `u`: bad");
    let err = resource_name_from_url_host("u", Ok(None)).expect_err("should fail");
    assert_eq!(err, "Azure base_url `u` is missing a host");
}

#[test]
fn resource_name_needs_an_azure_marker_in_any_case() {
    let name = resource_name_from_url_host("u", Ok(Some("r.COGNITIVESERVICES.AZURE.com".to_string())));
    assert_eq!(name, Ok("r".to_string()));
    let err = resource_name_from_url_host("u", Ok(Some("r.openai.com".to_string())));
    assert!(err.is_err());
}

#[test]
fn find_resource_group_reports_missing_resource() {
    let err = find_resource_group("absent", &[account("present", "rg")]).expect_err("should fail");
    assert_eq!(err, "Azure resource `absent` was not found");
    let err = find_resource_group("absent", &[]).expect_err("should fail");
    assert_eq!(err, "Azure resource `absent` was not found");
}

#[test]
fn find_resource_group_picks_the_only_match_among_others() {
    let rg = find_resource_group(
        "B",
        &[account("a", "rg-a"), account("b", "rg-b"), account("c", "rg-c")],
    );
    assert_eq!(rg, Ok("rg-b".to_string()));
}

#[test]
fn find_resource_group_compares_names_whole() {
    let err = find_resource_group("res", &[account("resource", "rg")]);
    assert!(err.is_err());
}

#[test]
fn openai_model_names_are_distinct_normalized_and_ordered() {
    let names = openai_model_names(vec![
        deployment("OPENAI", "  GPT-4o\t"),
        deployment("openai", "gpt-4o"),
        deployment("OpenAI", "   "),
        deployment("Other", "x"),
        deployment("OpenAI", "o3"),
    ]);
    assert_eq!(names, vec!["gpt-4o".to_string(), "o3".to_string()]);
}

#[test]
fn openai_model_names_of_nothing_is_empty() {
    assert!(openai_model_names(Vec::new()).is_empty());
    assert!(openai_model_names(vec![deployment("OpenAIx", "m")]).is_empty());
}

#[test]
fn openai_model_names_trim_unicode_white_space() {
    let names = openai_model_names(vec![deployment("OpenAI", "\u{3000}\u{a0}Model-Ä\u{2029}")]);
    assert_eq!(names, vec!["model-Ä".to_string()]);
}

#[test]
fn find_resource_group_ignores_account_order() {
    let forward = [account("a", "rg-a"), account("Res", "rg-r"), account("b", "rg-b")];
    let backward = [account("b", "rg-b"), account("Res", "rg-r"), account("a", "rg-a")];
    assert_eq!(find_resource_group("res", &forward), Ok("rg-r".to_string()));
    assert_eq!(
        find_resource_group("res", &forward),
        find_resource_group("res", &backward)
    );
    let twice = [account("RES", "rg-1"), account("x", "rg-x"), account("res", "rg-2")];
    let swapped = [account("res", "rg-2"), account("x", "rg-x"), account("RES", "rg-1")];
    assert_eq!(
        find_resource_group("res", &twice),
        find_resource_group("res", &swapped)
    );
}
