//! The model catalog of a provider, and how the models that an Azure
//! resource deploys decide which catalog entries stay visible and usable.
use vstd::prelude::*;

use crate::auth::ModelProviderInfo;
use crate::text::{ascii_lower, lemma_ascii_lower_idempotent, to_ascii_lowercase};

verus! {

/// Where a model is shown to users.
#[derive(Debug, Clone, Copy, PartialEq, Eq, Structural)]
pub enum ModelVisibility {
    List,
    Hide,
    NotShown,
}

/// One entry of a model catalog.
#[derive(Debug, Clone, PartialEq, Eq)]
pub struct ModelInfo {
    pub slug: String,
    pub display_name: String,
    pub description: Option<String>,
    pub visibility: ModelVisibility,
    pub supported_in_api: bool,
    pub priority: i32,
    pub base_instructions: String,
}

/// A model catalog.
#[derive(Debug, Clone, PartialEq, Eq)]
pub struct ModelsResponse {
    pub models: Vec<ModelInfo>,
}

/// A model is available where the list of deployed names holds its slug,
/// lower-cased in ASCII.
pub open spec fn is_deployed(available: Seq<Seq<char>>, model: ModelInfo) -> bool {
    available.contains(ascii_lower(model.slug@))
}

/// A catalog entry once availability is applied: unchanged where the model
/// is deployed, otherwise hidden and not supported in the API, all else
/// unchanged.
pub open spec fn with_availability(available: Seq<Seq<char>>, model: ModelInfo) -> ModelInfo {
    if is_deployed(available, model) {
        model
    } else {
        ModelInfo { visibility: ModelVisibility::NotShown, supported_in_api: false, ..model }
    }
}

/// The catalog entries once availability is applied, in the same order.
pub open spec fn models_with_availability(available: Seq<Seq<char>>, models: Seq<ModelInfo>) -> Seq<
    ModelInfo,
> {
    Seq::new(models.len(), |i: int| with_availability(available, models[i]))
}

/// Whether some text of `names` equals `name`.
fn holds_text(names: &[String], name: &String) -> (r: bool)
    ensures
        r == names@.map_values(|s: String| s@).contains(name@),
{
    let ghost views = names@.map_values(|s: String| s@);
    let mut i: usize = 0;
    while i < names.len()
        invariant
            i <= names.len(),
            views == names@.map_values(|s: String| s@),
            forall|k: int| 0 <= k < i ==> #[trigger] views[k] != name@,
        decreases names.len() - i,
    {
        if names[i] == *name {
            assert(views[i as int] == name@);
            return true;
        }
        i = i + 1;
    }
    false
}

/// Hides, and marks as not supported in the API, every model of the catalog
/// whose slug, lower-cased in ASCII, is not among `available_models`; the
/// other models, and every other field, stay as they are.
pub fn apply_azure_availability(catalog: ModelsResponse, available_models: &[String]) -> (r:
    ModelsResponse)
    ensures
        r.models@ == models_with_availability(
            available_models@.map_values(|s: String| s@),
            catalog.models@,
        ),
        r.models@.len() == catalog.models@.len(),
        forall|i: int|
            0 <= i < catalog.models@.len() ==> withdrawn_unless_deployed(
                available_models@.map_values(|s: String| s@),
                catalog.models@[i],
                #[trigger] r.models@[i],
            ),
{
    let ghost available = available_models@.map_values(|s: String| s@);
    let ghost original = catalog.models@;
    let mut catalog = catalog;
    let n = catalog.models.len();
    let mut i: usize = 0;
    while i < n
        invariant
            i <= n == catalog.models.len() == original.len(),
            available == available_models@.map_values(|s: String| s@),
            forall|k: int|
                0 <= k < i ==> #[trigger] catalog.models@[k] == with_availability(
                    available,
                    original[k],
                ),
            forall|k: int| i <= k < n ==> #[trigger] catalog.models@[k] == original[k],
        decreases n - i,
    {
        let key = to_ascii_lowercase(catalog.models[i].slug.as_str());
        if !holds_text(available_models, &key) {
            catalog.models[i].visibility = ModelVisibility::NotShown;
            catalog.models[i].supported_in_api = false;
        }
        i = i + 1;
    }
    assert(catalog.models@ =~= models_with_availability(available, original));
    proof {
        lemma_undeployed_models_are_withdrawn(available, original);
    }
    catalog
}

/// `after` is `before` once availability is applied, written out field by
/// field: a model whose lower-cased slug is listed is kept as it is; any
/// other is hidden and not supported in the API, whatever it was before;
/// the slug, names, description, priority and instructions never change.
pub open spec fn withdrawn_unless_deployed(
    available: Seq<Seq<char>>,
    before: ModelInfo,
    after: ModelInfo,
) -> bool {
    &&& after.slug == before.slug
    &&& after.display_name == before.display_name
    &&& after.description == before.description
    &&& after.priority == before.priority
    &&& after.base_instructions == before.base_instructions
    &&& available.contains(ascii_lower(before.slug@)) ==> after == before
    &&& !available.contains(ascii_lower(before.slug@)) ==> {
        &&& after.visibility == ModelVisibility::NotShown
        &&& !after.supported_in_api
    }
}

/// Every model whose lower-cased slug is not among the deployed names comes
/// out hidden and not supported in the API, whatever its visibility and
/// support were; every listed model comes out unchanged; no other field and
/// no position changes.
pub proof fn lemma_undeployed_models_are_withdrawn(available: Seq<Seq<char>>, models: Seq<ModelInfo>)
    ensures
        models_with_availability(available, models).len() == models.len(),
        forall|i: int|
            0 <= i < models.len() ==> withdrawn_unless_deployed(
                available,
                models[i],
                #[trigger] models_with_availability(available, models)[i],
            ),
{
}

/// Applying availability a second time with the same names changes
/// nothing.
pub proof fn lemma_availability_is_idempotent(available: Seq<Seq<char>>, models: Seq<ModelInfo>)
    ensures
        models_with_availability(available, models_with_availability(available, models))
            == models_with_availability(available, models),
{
    let once = models_with_availability(available, models);
    assert forall|i: int| 0 <= i < models.len() implies with_availability(available, once[i])
        == once[i] by {
        let m = models[i];
        if !is_deployed(available, m) {
            assert(once[i].slug == m.slug);
        }
    }
    assert(models_with_availability(available, once) =~= once);
}

/// Availability only ever withdraws: no model becomes supported or
/// changes its slug, and a model that keeps its support is deployed and
/// untouched.
pub proof fn lemma_availability_only_withdraws(
    available: Seq<Seq<char>>,
    models: Seq<ModelInfo>,
    i: int,
)
    requires
        0 <= i < models.len(),
    ensures
        models_with_availability(available, models).len() == models.len(),
        models_with_availability(available, models)[i].slug == models[i].slug,
        models_with_availability(available, models)[i].supported_in_api
            ==> models[i].supported_in_api,
        models_with_availability(available, models)[i].visibility != ModelVisibility::NotShown
            ==> models_with_availability(available, models)[i] == models[i],
{
}

/// Whether a slug is listed does not depend on the case of its ASCII
/// letters.
pub proof fn lemma_availability_ignores_slug_case(
    available: Seq<Seq<char>>,
    a: ModelInfo,
    b: ModelInfo,
)
    requires
        ascii_lower(a.slug@) == ascii_lower(b.slug@),
    ensures
        is_deployed(available, a) == is_deployed(available, b),
{
}

/// What a provider's catalog lookup decides before any Azure query.
#[derive(Debug)]
pub enum CatalogLookup {
    /// The catalog is known: the configured one, or none at all.
    Ready(Option<ModelsResponse>),
    /// The catalog is to be worked out from the Azure resource's deployments.
    NeedsAzureCatalog,
}

/// What a provider's catalog lookup decides before any Azure query: a
/// configured catalog wins; a provider that is not Azure has none; an Azure
/// provider needs its catalog worked out.
pub open spec fn catalog_decision(configured_catalog: Option<ModelsResponse>, azure: bool) -> CatalogLookup {
    if configured_catalog is Some {
        CatalogLookup::Ready(configured_catalog)
    } else if !azure {
        CatalogLookup::Ready(None)
    } else {
        CatalogLookup::NeedsAzureCatalog
    }
}

/// The catalog that a worked-out Azure catalog gives: the catalog itself, or
/// none where it could not be worked out.
pub open spec fn resolved_catalog(resolution: Result<ModelsResponse, String>) -> Option<ModelsResponse> {
    match resolution {
        Ok(catalog) => Some(catalog),
        Err(_) => None,
    }
}

/// A provider's catalog from start to end: the configured one if any; none
/// for a provider that is not Azure; for an Azure provider the worked-out
/// catalog, or none where working it out failed.
pub open spec fn provider_catalog(
    configured_catalog: Option<ModelsResponse>,
    azure: bool,
    resolution: Result<ModelsResponse, String>,
) -> Option<ModelsResponse> {
    if configured_catalog is Some {
        configured_catalog
    } else if !azure {
        None
    } else {
        resolved_catalog(resolution)
    }
}

/// Chooses a provider's model catalog: a configured catalog wins; a provider
/// that is not Azure has none; an Azure provider needs its catalog worked
/// out from its deployments.
pub fn catalog_for_provider(configured_catalog: Option<ModelsResponse>, provider: &ModelProviderInfo) -> (r:
    CatalogLookup)
    ensures
        r == catalog_decision(configured_catalog, provider.azure),
{
    if configured_catalog.is_some() {
        return CatalogLookup::Ready(configured_catalog);
    }
    if !provider.is_azure() {
        return CatalogLookup::Ready(None);
    }
    CatalogLookup::NeedsAzureCatalog
}

impl CatalogLookup {
    /// The catalog once the Azure catalog has been worked out: the catalog,
    /// or none where working it out failed, so that the bundled defaults
    /// apply.
    pub fn resolved(resolution: Result<ModelsResponse, String>) -> (r: Option<ModelsResponse>)
        ensures
            r == resolved_catalog(resolution),
    {
        match resolution {
            Ok(catalog) => Some(catalog),
            Err(_) => None,
        }
    }
}

/// Deciding first and then taking the Azure outcome where it is needed gives
/// the provider's catalog: a configured catalog wins over everything, and a
/// failed Azure resolution falls back to no catalog.
pub proof fn lemma_catalog_lookup_gives_provider_catalog(
    configured_catalog: Option<ModelsResponse>,
    azure: bool,
    resolution: Result<ModelsResponse, String>,
)
    ensures
        match catalog_decision(configured_catalog, azure) {
            CatalogLookup::Ready(catalog) => catalog,
            CatalogLookup::NeedsAzureCatalog => resolved_catalog(resolution),
        } == provider_catalog(configured_catalog, azure, resolution),
        configured_catalog is Some ==> provider_catalog(configured_catalog, azure, resolution)
            == configured_catalog,
        configured_catalog is None && azure && resolution is Err ==> provider_catalog(
            configured_catalog,
            azure,
            resolution,
        ) is None,
{
}

} // verus!
