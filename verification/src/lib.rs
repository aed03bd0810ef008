//! Verified core of the Azure OpenAI helpers: which Azure resource a base
//! URL names, which resource group holds it, which OpenAI models it deploys,
//! and how the model catalog and the Azure CLI sign-in react to them.
pub mod text;
pub mod resource;
pub mod cli;
pub mod lookup;
pub mod auth;
pub mod models;
