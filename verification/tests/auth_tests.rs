use azure_catalog::auth::{
    access_token_from_response, azure_cli_auth_error, azure_cli_bearer_token, bearer_token_request,
    AzureCliAccessTokenResponse, CodexErr, EnvVarError, ModelProviderInfo,
};

fn azure_provider() -> ModelProviderInfo {
    ModelProviderInfo {
        name: "azure".into(),
        base_url: Some("https://example.cognitiveservices.azure.com/openai/v1".into()),
        env_key: Some("AZURE_OPENAI_API_KEY".into()),
        azure: true,
    }
}

fn token(text: &str) -> AzureCliAccessTokenResponse {
    AzureCliAccessTokenResponse {
        access_token: text.to_string(),
    }
}

#[test]
fn parses_access_token_from_azure_cli_output() {
    let parsed = access_token_from_response(AzureCliAccessTokenResponse {
        access_token: "azure-token".to_string(),
    })
    .expect("should parse access token");
    assert_eq!(parsed, "azure-token");
}

#[test]
fn azure_cli_auth_error_points_to_env_var_and_az_login() {
    let error = azure_cli_auth_error(&azure_provider(), "Azure CLI failed".to_string());
    assert_eq!(
        error.message(),
        "Missing environment variable: `AZURE_OPENAI_API_KEY`. Set `AZURE_OPENAI_API_KEY` or sign in with Azure CLI via `az login` so Codex can obtain a Microsoft Entra access token for Azure OpenAI automatically. Azure CLI failed"
    );
}

#[test]
fn access_token_is_trimmed() {
    assert_eq!(
        access_token_from_response(token("  tok\n")),
        Ok("tok".to_string())
    );
}

#[test]
fn blank_access_token_is_rejected() {
    assert_eq!(
        access_token_from_response(token(" \t\n")),
        Err("Azure CLI returned an empty access token".to_string())
    );
    assert_eq!(
        access_token_from_response(token("")),
        Err("Azure CLI returned an empty access token".to_string())
    );
}

#[test]
fn trimming_a_token_twice_changes_nothing() {
    let once = access_token_from_response(token("\u{2003} a b \u{205f}")).unwrap();
    assert_eq!(once, "a b");
    let twice = access_token_from_response(token(&once)).unwrap();
    assert_eq!(twice, once);
}

#[test]
fn auth_error_uses_the_default_variable_without_env_key() {
    let mut provider = azure_provider();
    provider.env_key = None;
    let error = azure_cli_auth_error(&provider, "boom".to_string());
    assert_eq!(
        error,
        CodexErr::EnvVar(EnvVarError {
            var: "AZURE_OPENAI_API_KEY".to_string(),
            instructions: Some("Set `AZURE_OPENAI_API_KEY` or sign in with Azure CLI via `az login` so Codex can obtain a Microsoft Entra access token for Azure OpenAI automatically. boom".to_string()),
        })
    );
}

#[test]
fn auth_error_uses_the_provider_variable() {
    let mut provider = azure_provider();
    provider.env_key = Some("MY_KEY".to_string());
    let CodexErr::EnvVar(error) = azure_cli_auth_error(&provider, "x".to_string());
    assert_eq!(error.var, "MY_KEY");
    assert!(error.instructions.unwrap().starts_with("Set `MY_KEY` or sign in"));
}

#[test]
fn env_var_error_without_instructions() {
    let error = EnvVarError {
        var: "V".to_string(),
        instructions: None,
    };
    assert_eq!(error.message(), "Missing environment variable: `V`.");
}

#[test]
fn bearer_token_is_none_for_other_providers() {
    let mut provider = azure_provider();
    provider.azure = false;
    assert_eq!(
        azure_cli_bearer_token(&provider, Err("not asked".to_string())),
        Ok(None)
    );
}

#[test]
fn bearer_token_comes_from_the_reply() {
    assert_eq!(
        azure_cli_bearer_token(&azure_provider(), Ok(token(" t0k "))),
        Ok(Some("t0k".to_string()))
    );
}

#[test]
fn bearer_token_failures_become_auth_errors() {
    let err = azure_cli_bearer_token(&azure_provider(), Err("`az account` failed: no login".to_string()))
        .unwrap_err();
    assert!(err.message().ends_with("automatically. `az account` failed: no login"));
    let err = azure_cli_bearer_token(&azure_provider(), Ok(token("  "))).unwrap_err();
    assert!(err
        .message()
        .ends_with("automatically. Azure CLI returned an empty access token"));
}

#[test]
fn azure_base_url_of_provider() {
    assert_eq!(
        azure_provider().azure_base_url(),
        Ok("https://example.cognitiveservices.azure.com/openai/v1".to_string())
    );
    let mut provider = azure_provider();
    provider.base_url = None;
    assert_eq!(
        provider.azure_base_url(),
        Err("Azure provider is missing a base_url".to_string())
    );
    assert!(azure_provider().is_azure());
}

#[test]
fn bearer_token_request_names_the_token_command_for_azure_only() {
    assert_eq!(
        bearer_token_request(&azure_provider()),
        Some(
            [
                "account",
                "get-access-token",
                "--resource",
                "https://cognitiveservices.azure.com",
                "--output",
                "json",
            ]
            .iter()
            .map(|s| s.to_string())
            .collect()
        )
    );
    let mut provider = azure_provider();
    provider.azure = false;
    assert_eq!(bearer_token_request(&provider), None);
}
