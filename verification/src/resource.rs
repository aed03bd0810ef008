//! What the Azure account and deployment listings say about a resource:
//! the resource name that a base URL exposes, the resource group that holds
//! a resource, and the OpenAI model names that its deployments serve.
use vstd::prelude::*;

use crate::text::{
    ascii_lower, eq_ignore_ascii_case, first_label, first_label_of, has_infix, contains_infix,
    to_ascii_lowercase, trim, trimmed,
};

verus! {

/// One entry of `az cognitiveservices account list`.
#[derive(Debug, Clone, PartialEq, Eq)]
pub struct AzureAccountSummary {
    pub name: String,
    pub resource_group: String,
}

/// One entry of `az cognitiveservices account deployment list`.
#[derive(Debug, Clone, PartialEq, Eq)]
pub struct AzureDeploymentSummary {
    pub properties: AzureDeploymentProperties,
}

/// The properties of a deployment.
#[derive(Debug, Clone, PartialEq, Eq)]
pub struct AzureDeploymentProperties {
    pub model: AzureDeploymentModel,
}

/// The model that a deployment serves.
#[derive(Debug, Clone, PartialEq, Eq)]
pub struct AzureDeploymentModel {
    pub format: String,
    pub name: String,
}

// ---------------------------------------------------------------------------
// The host of a URL, as the `url` crate parses it.
/// The display text of the error that `url::Url::parse` returns for a text,
/// `None` where the text parses as an absolute URL.
pub uninterp spec fn url_parse_error(text: Seq<char>) -> Option<Seq<char>>;

/// What `url::Url::host_str` returns for the URL that `url::Url::parse`
/// makes of a text that parses.
pub uninterp spec fn url_host(text: Seq<char>) -> Option<Seq<char>>;

/// The outcome of parsing a text as a URL and asking for its host: the
/// parse error's text, or the host where the URL has one.
pub open spec fn url_host_result(text: Seq<char>) -> Result<Option<Seq<char>>, Seq<char>> {
    match url_parse_error(text) {
        Some(e) => Err(e),
        None => Ok(url_host(text)),
    }
}

/// The view of a parsed host as plain character sequences.
pub open spec fn host_result_view(r: Result<Option<String>, String>) -> Result<
    Option<Seq<char>>,
    Seq<char>,
> {
    match r {
        Ok(Some(h)) => Ok(Some(h@)),
        Ok(None) => Ok(None),
        Err(e) => Err(e@),
    }
}

/// Parses `text` with `url::Url::parse` and reads the host with
/// `url::Url::host_str`. The contract claims only that the outcome is the one
/// that the two names above give for `text`: on a parse error, the error's
/// display text; otherwise the host, where the URL has one. What the `url`
/// crate accepts and which host it reports (it lower-cases and
/// punycode-encodes the hosts of special schemes) is left unsaid.
#[verifier::external_body]
fn parse_url_host(text: &str) -> (r: Result<Option<String>, String>)
    ensures
        r matches Err(e) ==> url_parse_error(text@) == Some(e@),
        r matches Ok(h) ==> url_parse_error(text@) == None::<Seq<char>>,
        r matches Ok(Some(h)) ==> url_host(text@) == Some(h@),
        r matches Ok(None) ==> url_host(text@) == None::<Seq<char>>,
{
    match url::Url::parse(text) {
        Ok(parsed) => Ok(parsed.host_str().map(|h| h.to_string())),
        Err(err) => Err(err.to_string()),
    }
}

// ---------------------------------------------------------------------------
// The resource name of a base URL.
/// A host whose lower-case form names one of the Azure endpoints whose first
/// label is the resource name.
pub open spec fn is_inferable_host(lower_host: Seq<char>) -> bool {
    ||| has_infix(lower_host, "openai.azure."@)
    ||| has_infix(lower_host, "cognitiveservices.azure."@)
    ||| has_infix(lower_host, "aoai.azure."@)
    ||| has_infix(lower_host, "windows.net"@)
}

/// The resource name that a base URL exposes, or the message that says why
/// there is none, given what parsing the URL gave.
pub open spec fn resource_name_outcome(
    base_url: Seq<char>,
    parsed: Result<Option<Seq<char>>, Seq<char>>,
) -> Result<Seq<char>, Seq<char>> {
    match parsed {
        Err(e) => Err("invalid Azure base_url `"@ + base_url + "`: "@ + e),
        Ok(None) => Err("Azure base_url `"@ + base_url + "` is missing a host"@),
        Ok(Some(host)) => if !is_inferable_host(ascii_lower(host)) {
            Err(
                "Azure base_url `"@ + base_url
                    + "` does not expose a resource name that Codex can resolve automatically"@,
            )
        } else if first_label(host).len() == 0 {
            Err("failed to infer Azure resource name from `"@ + base_url + "`"@)
        } else {
            Ok(first_label(host))
        },
    }
}

/// The view of a text result as plain character sequences.
pub open spec fn text_result_view(r: Result<String, String>) -> Result<Seq<char>, Seq<char>> {
    match r {
        Ok(s) => Ok(s@),
        Err(e) => Err(e@),
    }
}

/// Works out the resource name from a base URL, given the outcome of
/// parsing it as a URL and reading its host.
pub fn resource_name_from_url_host(base_url: &str, parsed: Result<Option<String>, String>) -> (r:
    Result<String, String>)
    ensures
        text_result_view(r) == resource_name_outcome(base_url@, host_result_view(parsed)),
        r matches Ok(name) ==> parsed matches Ok(Some(host)) && name@ == first_label(host@),
{
    match parsed {
        Err(err) => {
            let mut msg = String::from_str("invalid Azure base_url `");
            msg.append(base_url);
            msg.append("`: ");
            msg.append(err.as_str());
            Err(msg)
        },
        Ok(None) => {
            let mut msg = String::from_str("Azure base_url `");
            msg.append(base_url);
            msg.append("` is missing a host");
            Err(msg)
        },
        Ok(Some(host)) => {
            let lower_host = to_ascii_lowercase(host.as_str());
            let inferable_host = contains_infix(lower_host.as_str(), "openai.azure.")
                || contains_infix(lower_host.as_str(), "cognitiveservices.azure.")
                || contains_infix(lower_host.as_str(), "aoai.azure.")
                || contains_infix(lower_host.as_str(), "windows.net");
            if !inferable_host {
                let mut msg = String::from_str("Azure base_url `");
                msg.append(base_url);
                msg.append(
                    "` does not expose a resource name that Codex can resolve automatically",
                );
                return Err(msg);
            }
            let segment = first_label_of(host.as_str());
            if segment.as_str().unicode_len() == 0 {
                let mut msg = String::from_str("failed to infer Azure resource name from `");
                msg.append(base_url);
                msg.append("`");
                Err(msg)
            } else {
                Ok(segment)
            }
        },
    }
}

/// The resource name that an Azure OpenAI base URL exposes: the first label
/// of its host, where the host is one of the Azure endpoints that carry it.
pub fn resource_name_from_base_url(base_url: &str) -> (r: Result<String, String>)
    ensures
        text_result_view(r) == resource_name_outcome(base_url@, url_host_result(base_url@)),
{
    let parsed = parse_url_host(base_url);
    resource_name_from_url_host(base_url, parsed)
}

/// A resource name is the whole first label of the URL's host: it is
/// non-empty, holds no `.`, begins the host, and is followed in the host by
/// a `.` or by the host's end. Only a URL that parses and has a host can
/// give one, and a host that carries an Azure marker and does not begin
/// with a `.` always gives one.
pub proof fn lemma_resource_name_is_whole_first_label(
    base_url: Seq<char>,
    parsed: Result<Option<Seq<char>>, Seq<char>>,
)
    ensures
        resource_name_outcome(base_url, parsed) matches Ok(name) ==> parsed matches Ok(Some(host))
            && {
            &&& name.len() > 0
            &&& name == host.take(name.len() as int)
            &&& forall|k: int| 0 <= k < name.len() ==> #[trigger] name[k] != '.'
            &&& name.len() == host.len() || host[name.len() as int] == '.'
        },
        parsed is Err ==> resource_name_outcome(base_url, parsed) is Err,
        parsed == Ok::<Option<Seq<char>>, Seq<char>>(None) ==> resource_name_outcome(base_url, parsed) is Err,
        parsed matches Ok(Some(host)) && !(has_infix(ascii_lower(host), "openai.azure."@) || has_infix(
            ascii_lower(host),
            "cognitiveservices.azure."@,
        ) || has_infix(ascii_lower(host), "aoai.azure."@) || has_infix(
            ascii_lower(host),
            "windows.net"@,
        )) ==> resource_name_outcome(base_url, parsed) is Err,
        parsed matches Ok(Some(host)) && host.len() > 0 && host[0] != '.' && (has_infix(
            ascii_lower(host),
            "openai.azure."@,
        ) || has_infix(ascii_lower(host), "cognitiveservices.azure."@) || has_infix(
            ascii_lower(host),
            "aoai.azure."@,
        ) || has_infix(ascii_lower(host), "windows.net"@)) ==> resource_name_outcome(
            base_url,
            parsed,
        ) is Ok,
{
    if let Ok(Some(host)) = parsed {
        crate::text::lemma_first_label_is_dotless_prefix(host);
    }
}

/// A resource name, once found, is a non-empty first label of the URL's
/// host: it begins the host and holds no `.`.
pub proof fn lemma_resource_name_is_first_host_label(
    base_url: Seq<char>,
    parsed: Result<Option<Seq<char>>, Seq<char>>,
)
    requires
        resource_name_outcome(base_url, parsed) is Ok,
    ensures
        parsed matches Ok(Some(host)) && {
            let name = resource_name_outcome(base_url, parsed)->Ok_0;
            &&& name.len() > 0
            &&& name == host.take(name.len() as int)
            &&& forall|k: int| 0 <= k < name.len() ==> #[trigger] name[k] != '.'
            &&& is_inferable_host(ascii_lower(host))
        },
{
    if let Ok(Some(host)) = parsed {
        crate::text::lemma_first_label_is_dotless_prefix(host);
    }
}

// ---------------------------------------------------------------------------
// The resource group of a resource.
/// The accounts whose name equals the resource's, ignoring ASCII case.
pub open spec fn accounts_named(resource: Seq<char>, accounts: Seq<AzureAccountSummary>) -> Seq<
    AzureAccountSummary,
> {
    accounts.filter(|a: AzureAccountSummary| ascii_lower(a.name@) == ascii_lower(resource))
}

/// The resource group of the one account named like the resource, or the
/// message that says there is none or more than one.
pub open spec fn resource_group_outcome(
    resource: Seq<char>,
    accounts: Seq<AzureAccountSummary>,
) -> Result<Seq<char>, Seq<char>> {
    let found = accounts_named(resource, accounts);
    if found.len() == 0 {
        Err("Azure resource `"@ + resource + "` was not found"@)
    } else if found.len() == 1 {
        Ok(found[0].resource_group@)
    } else {
        Err(
            "found multiple Azure resources named `"@ + resource
                + "`; select one manually instead"@,
        )
    }
}

/// The resource group of the one account whose name matches `resource`,
/// ignoring ASCII case; an error where no account or more than one matches.
pub fn find_resource_group(resource: &str, accounts: &[AzureAccountSummary]) -> (r: Result<
    String,
    String,
>)
    ensures
        text_result_view(r) == resource_group_outcome(resource@, accounts@),
        forall|i: int|
            0 <= i < accounts@.len() && ascii_lower(#[trigger] accounts@[i].name@) == ascii_lower(
                resource@,
            ) && (forall|j: int|
                0 <= j < accounts@.len() && j != i ==> ascii_lower(accounts@[j].name@)
                    != ascii_lower(resource@)) ==> (r matches Ok(g) && g@
                == accounts@[i].resource_group@),
{
    proof {
        assert forall|i: int|
            0 <= i < accounts@.len() && ascii_lower(#[trigger] accounts@[i].name@) == ascii_lower(
                resource@,
            ) && (forall|j: int|
                0 <= j < accounts@.len() && j != i ==> ascii_lower(accounts@[j].name@)
                    != ascii_lower(resource@)) implies resource_group_outcome(resource@, accounts@)
            == Ok::<Seq<char>, Seq<char>>(accounts@[i].resource_group@) by {
            lemma_resource_group_of_unique_match(resource@, accounts@, i);
        }
    }
    let ghost pred = |a: AzureAccountSummary| ascii_lower(a.name@) == ascii_lower(resource@);
    let mut count: usize = 0;
    let mut first: usize = 0;
    let mut i: usize = 0;
    while i < accounts.len()
        invariant
            i <= accounts.len(),
            pred == (|a: AzureAccountSummary| ascii_lower(a.name@) == ascii_lower(resource@)),
            count == accounts@.take(i as int).filter(pred).len(),
            count <= i,
            count > 0 ==> first < i && accounts@.take(i as int).filter(pred)[0] == accounts@[first as int],
        decreases accounts.len() - i,
    {
        reveal_with_fuel(Seq::<_>::filter, 1);
        assert(accounts@.take(i + 1).drop_last() =~= accounts@.take(i as int));
        if eq_ignore_ascii_case(accounts[i].name.as_str(), resource) {
            if count == 0 {
                first = i;
            }
            count = count + 1;
            proof {
                let prev = accounts@.take(i as int).filter(pred);
                assert(accounts@.take(i + 1).filter(pred) == prev.push(accounts@[i as int]));
                if prev.len() > 0 {
                    assert(prev.push(accounts@[i as int])[0] == prev[0]);
                }
            }
        }
        i = i + 1;
    }
    assert(accounts@.take(accounts.len() as int) =~= accounts@);
    if count == 0 {
        let mut msg = String::from_str("Azure resource `");
        msg.append(resource);
        msg.append("` was not found");
        Err(msg)
    } else if count == 1 {
        Ok(accounts[first].resource_group.clone())
    } else {
        let mut msg = String::from_str("found multiple Azure resources named `");
        msg.append(resource);
        msg.append("`; select one manually instead");
        Err(msg)
    }
}

/// An account whose name equals the resource's, ignoring ASCII case.
pub open spec fn is_named(resource: Seq<char>, account: AzureAccountSummary) -> bool {
    ascii_lower(account.name@) == ascii_lower(resource)
}

/// Two different matching entries leave at least two after filtering.
proof fn lemma_filter_keeps_two(
    s: Seq<AzureAccountSummary>,
    pred: spec_fn(AzureAccountSummary) -> bool,
    i: int,
    j: int,
)
    requires
        0 <= i < j < s.len(),
        pred(s[i]),
        pred(s[j]),
    ensures
        s.filter(pred).len() >= 2,
    decreases s.len(),
{
    reveal(Seq::filter);
    let t = s.drop_last();
    if j == s.len() - 1 {
        assert(t[i] == s[i]);
        t.lemma_filter_contains(pred, i);
        assert(t.filter(pred).len() >= 1);
    } else {
        assert(t[i] == s[i] && t[j] == s[j]);
        lemma_filter_keeps_two(t, pred, i, j);
        t.lemma_filter_len(pred);
    }
}

/// A filtered entry comes from some position of the original sequence.
proof fn lemma_filter_origin(
    s: Seq<AzureAccountSummary>,
    pred: spec_fn(AzureAccountSummary) -> bool,
    k: int,
)
    requires
        0 <= k < s.filter(pred).len(),
    ensures
        exists|i: int| 0 <= i < s.len() && s[i] == s.filter(pred)[k] && pred(s[i]),
    decreases s.len(),
{
    reveal(Seq::filter);
    let t = s.drop_last();
    t.lemma_filter_len(pred);
    if k < t.filter(pred).len() {
        lemma_filter_origin(t, pred, k);
        let i = choose|i: int| 0 <= i < t.len() && t[i] == t.filter(pred)[k] && pred(t[i]);
        assert(s[i] == t[i]);
    } else {
        assert(s[s.len() - 1] == s.filter(pred)[k]);
    }
}

/// The resource group found is that of the one account named like the
/// resource: no other account has that name.
pub proof fn lemma_resource_group_of_only_match(
    resource: Seq<char>,
    accounts: Seq<AzureAccountSummary>,
)
    requires
        resource_group_outcome(resource, accounts) is Ok,
    ensures
        exists|i: int|
            0 <= i < accounts.len() && is_named(resource, #[trigger] accounts[i])
                && accounts[i].resource_group@ == resource_group_outcome(resource, accounts)->Ok_0
                && forall|j: int| 0 <= j < accounts.len() && is_named(resource, #[trigger] accounts[j]) ==> j == i,
{
    let pred = |a: AzureAccountSummary| ascii_lower(a.name@) == ascii_lower(resource);
    lemma_filter_origin(accounts, pred, 0);
    let i = choose|i: int|
        0 <= i < accounts.len() && accounts[i] == accounts.filter(pred)[0] && pred(accounts[i]);
    assert forall|j: int| 0 <= j < accounts.len() && is_named(resource, #[trigger] accounts[j]) implies j == i by {
        if j < i {
            lemma_filter_keeps_two(accounts, pred, j, i);
        } else if j > i {
            lemma_filter_keeps_two(accounts, pred, i, j);
        }
    }
    assert(is_named(resource, accounts[i]));
}

/// Where one entry alone satisfies the predicate, filtering leaves just it.
proof fn lemma_filter_single(
    s: Seq<AzureAccountSummary>,
    pred: spec_fn(AzureAccountSummary) -> bool,
    i: int,
)
    requires
        0 <= i < s.len(),
        pred(s[i]),
        forall|j: int| 0 <= j < s.len() && j != i ==> !pred(#[trigger] s[j]),
    ensures
        s.filter(pred) == seq![s[i]],
    decreases s.len(),
{
    reveal(Seq::filter);
    let t = s.drop_last();
    if i == s.len() - 1 {
        if t.filter(pred).len() > 0 {
            lemma_filter_origin(t, pred, 0);
            let k = choose|k: int| 0 <= k < t.len() && t[k] == t.filter(pred)[0] && pred(t[k]);
            assert(s[k] == t[k]);
        }
        assert(t.filter(pred) =~= Seq::<AzureAccountSummary>::empty());
        assert(s.filter(pred) =~= seq![s[i]]);
    } else {
        assert forall|j: int| 0 <= j < t.len() && j != i implies !pred(#[trigger] t[j]) by {
            assert(t[j] == s[j]);
        }
        assert(t[i] == s[i]);
        lemma_filter_single(t, pred, i);
        assert(!pred(s[s.len() - 1]));
    }
}

/// Where the accounts named like the resource, ignoring ASCII case, are
/// exactly one, the resource group found is that account's, whatever it
/// holds.
pub proof fn lemma_resource_group_of_unique_match(
    resource: Seq<char>,
    accounts: Seq<AzureAccountSummary>,
    i: int,
)
    requires
        0 <= i < accounts.len(),
        ascii_lower(accounts[i].name@) == ascii_lower(resource),
        forall|j: int|
            0 <= j < accounts.len() && j != i ==> ascii_lower(#[trigger] accounts[j].name@)
                != ascii_lower(resource),
    ensures
        resource_group_outcome(resource, accounts) == Ok::<Seq<char>, Seq<char>>(
            accounts[i].resource_group@,
        ),
{
    let pred = |a: AzureAccountSummary| ascii_lower(a.name@) == ascii_lower(resource);
    assert forall|j: int| 0 <= j < accounts.len() && j != i implies !pred(#[trigger] accounts[j]) by {
        assert(ascii_lower(accounts[j].name@) != ascii_lower(resource));
    }
    lemma_filter_single(accounts, pred, i);
}

/// No account named like the resource, ignoring ASCII case, means no
/// resource group; two different ones mean none either.
pub proof fn lemma_resource_group_needs_exactly_one_match(
    resource: Seq<char>,
    accounts: Seq<AzureAccountSummary>,
)
    ensures
        (forall|j: int|
            0 <= j < accounts.len() ==> ascii_lower(#[trigger] accounts[j].name@) != ascii_lower(
                resource,
            )) ==> resource_group_outcome(resource, accounts) is Err,
        (exists|i: int, j: int|
            0 <= i < j < accounts.len() && ascii_lower(#[trigger] accounts[i].name@) == ascii_lower(
                resource,
            ) && ascii_lower(#[trigger] accounts[j].name@) == ascii_lower(resource))
            ==> resource_group_outcome(resource, accounts) is Err,
{
    let pred = |a: AzureAccountSummary| ascii_lower(a.name@) == ascii_lower(resource);
    if accounts.filter(pred).len() > 0 {
        lemma_filter_origin(accounts, pred, 0);
    }
    if exists|i: int, j: int|
        0 <= i < j < accounts.len() && ascii_lower(#[trigger] accounts[i].name@) == ascii_lower(
            resource,
        ) && ascii_lower(#[trigger] accounts[j].name@) == ascii_lower(resource) {
        let (i, j) = choose|i: int, j: int|
            0 <= i < j < accounts.len() && ascii_lower(#[trigger] accounts[i].name@) == ascii_lower(
                resource,
            ) && ascii_lower(#[trigger] accounts[j].name@) == ascii_lower(resource);
        lemma_filter_keeps_two(accounts, pred, i, j);
    }
}

/// Filtering keeps every copy of a matching entry and drops every copy of
/// any other.
proof fn lemma_filter_counts(
    s: Seq<AzureAccountSummary>,
    pred: spec_fn(AzureAccountSummary) -> bool,
    x: AzureAccountSummary,
)
    ensures
        s.filter(pred).to_multiset().count(x) == if pred(x) {
            s.to_multiset().count(x)
        } else {
            0
        },
    decreases s.len(),
{
    broadcast use vstd::seq_lib::group_to_multiset_ensures;

    reveal(Seq::filter);
    if s.len() == 0 {
        assert(!s.contains(x));
        assert(!s.filter(pred).contains(x));
    } else {
        let t = s.drop_last();
        lemma_filter_counts(t, pred, x);
        assert(s =~= t.push(s.last()));
        if pred(s.last()) {
            assert(s.filter(pred) == t.filter(pred).push(s.last()));
        }
    }
}

/// The resource group found, and every message, is the same for any order
/// of the same accounts: no account wins by coming first.
pub proof fn lemma_resource_group_ignores_order(
    resource: Seq<char>,
    accounts: Seq<AzureAccountSummary>,
    reordered: Seq<AzureAccountSummary>,
)
    requires
        accounts.to_multiset() == reordered.to_multiset(),
    ensures
        resource_group_outcome(resource, accounts) == resource_group_outcome(resource, reordered),
{
    broadcast use vstd::seq_lib::group_to_multiset_ensures;

    let pred = |a: AzureAccountSummary| ascii_lower(a.name@) == ascii_lower(resource);
    let f1 = accounts.filter(pred);
    let f2 = reordered.filter(pred);
    assert forall|x: AzureAccountSummary| #[trigger] f1.to_multiset().count(x) == f2.to_multiset().count(x) by {
        lemma_filter_counts(accounts, pred, x);
        lemma_filter_counts(reordered, pred, x);
    }
    assert(f1.to_multiset() =~= f2.to_multiset());
    assert(f1.to_multiset().len() == f2.to_multiset().len());
    if f1.len() == 1 {
        let x = f1[0];
        assert(f1.contains(x));
        assert(f2.to_multiset().count(x) > 0);
        assert(f2.contains(x));
        let k = choose|k: int| 0 <= k < f2.len() && f2[k] == x;
        assert(k == 0);
    }
}

/// Whether and where the resource group is found does not depend on the
/// ASCII case in which the resource is named.
pub proof fn lemma_resource_group_ignores_case(
    resource: Seq<char>,
    other: Seq<char>,
    accounts: Seq<AzureAccountSummary>,
)
    requires
        ascii_lower(resource) == ascii_lower(other),
    ensures
        accounts_named(resource, accounts) == accounts_named(other, accounts),
        resource_group_outcome(resource, accounts) is Ok <==> resource_group_outcome(other, accounts) is Ok,
        resource_group_outcome(resource, accounts) is Ok ==> resource_group_outcome(resource, accounts)
            == resource_group_outcome(other, accounts),
{
    let p = |a: AzureAccountSummary| ascii_lower(a.name@) == ascii_lower(resource);
    let q = |a: AzureAccountSummary| ascii_lower(a.name@) == ascii_lower(other);
    assert(p =~= q);
}

// ---------------------------------------------------------------------------
// The OpenAI model names that deployments serve.
/// A deployment of a model in the OpenAI format, the format's name compared
/// without regard to ASCII case.
pub open spec fn is_openai_deployment(d: AzureDeploymentSummary) -> bool {
    ascii_lower(d.properties.model.format@) == ascii_lower("OpenAI"@)
}

/// The name under which a deployment's model is known: trimmed and
/// lower-cased in ASCII.
pub open spec fn model_key(d: AzureDeploymentSummary) -> Seq<char> {
    ascii_lower(trimmed(d.properties.model.name@))
}

/// The model names of the OpenAI deployments, each non-empty name once, in
/// the order of its first deployment.
pub open spec fn model_names_from(deployments: Seq<AzureDeploymentSummary>) -> Seq<Seq<char>>
    decreases deployments.len(),
{
    if deployments.len() == 0 {
        Seq::empty()
    } else {
        let earlier = model_names_from(deployments.drop_last());
        let d = deployments.last();
        if is_openai_deployment(d) && model_key(d).len() > 0 && !earlier.contains(model_key(d)) {
            earlier.push(model_key(d))
        } else {
            earlier
        }
    }
}

/// The set of names of the models that OpenAI deployments serve.
pub open spec fn openai_model_name_set(deployments: Seq<AzureDeploymentSummary>) -> Set<Seq<char>> {
    Set::new(
        |n: Seq<char>|
            exists|i: int|
                0 <= i < deployments.len() && is_openai_deployment(#[trigger] deployments[i])
                    && model_key(deployments[i]) == n && n.len() > 0,
    )
}

/// Whether some text of `names` equals `name`.
fn contains_text(names: &Vec<String>, name: &String) -> (r: bool)
    ensures
        r == names.deep_view().contains(name@),
{
    let mut i: usize = 0;
    while i < names.len()
        invariant
            i <= names.len(),
            forall|k: int| 0 <= k < i ==> #[trigger] names.deep_view()[k] != name@,
        decreases names.len() - i,
    {
        if names[i] == *name {
            assert(names.deep_view()[i as int] == name@);
            return true;
        }
        i = i + 1;
    }
    false
}

/// The names of the models that the OpenAI-format deployments serve, trimmed
/// and lower-cased; empty names are dropped and each name is kept once.
pub fn openai_model_names(deployments: Vec<AzureDeploymentSummary>) -> (r: Vec<String>)
    ensures
        r.deep_view() == model_names_from(deployments@),
        r.deep_view().no_duplicates(),
        forall|n: Seq<char>|
            #[trigger] r.deep_view().contains(n) <==> exists|i: int|
                0 <= i < deployments@.len() && ascii_lower(
                    (#[trigger] deployments@[i]).properties.model.format@,
                ) == ascii_lower("OpenAI"@) && n == ascii_lower(
                    trimmed(deployments@[i].properties.model.name@),
                ) && n.len() > 0,
{
    proof {
        lemma_model_names_are_trimmed_lowercased_openai_names(deployments@);
    }
    let mut names: Vec<String> = Vec::new();
    let mut i: usize = 0;
    while i < deployments.len()
        invariant
            i <= deployments.len(),
            names.deep_view() == model_names_from(deployments@.take(i as int)),
        decreases deployments.len() - i,
    {
        let model = &deployments[i].properties.model;
        let ghost seen = deployments@.take(i + 1);
        assert(seen.drop_last() =~= deployments@.take(i as int));
        assert(seen.last() == deployments@[i as int]);
        if eq_ignore_ascii_case(model.format.as_str(), "OpenAI") {
            let trimmed_name = trim(model.name.as_str());
            let name = to_ascii_lowercase(trimmed_name.as_str());
            if name.as_str().unicode_len() > 0 && !contains_text(&names, &name) {
                names.push(name);
                assert(names.deep_view() =~= model_names_from(seen));
            }
        }
        i = i + 1;
    }
    assert(deployments@.take(deployments.len() as int) =~= deployments@);
    names
}

/// Each model name is the key of some OpenAI deployment, and each non-empty
/// key of an OpenAI deployment is among the names.
pub proof fn lemma_model_names_are_openai_keys(deployments: Seq<AzureDeploymentSummary>)
    ensures
        model_names_from(deployments).to_set() == openai_model_name_set(deployments),
        model_names_from(deployments).no_duplicates(),
    decreases deployments.len(),
{
    let names = model_names_from(deployments);
    if deployments.len() == 0 {
        assert(names.to_set() =~= openai_model_name_set(deployments));
    } else {
        let before = deployments.drop_last();
        lemma_model_names_are_openai_keys(before);
        let earlier = model_names_from(before);
        let d = deployments.last();
        assert forall|n: Seq<char>| names.to_set().contains(n) <==> openai_model_name_set(
            deployments,
        ).contains(n) by {
            if names.contains(n) {
                if earlier.contains(n) {
                    assert(earlier.to_set().contains(n));
                    let i = choose|i: int|
                        0 <= i < before.len() && is_openai_deployment(#[trigger] before[i])
                            && model_key(before[i]) == n && n.len() > 0;
                    assert(deployments[i] == before[i]);
                } else {
                    assert(names == earlier.push(model_key(d)));
                    assert(n == model_key(d));
                    assert(deployments[deployments.len() - 1] == d);
                }
            }
            if openai_model_name_set(deployments).contains(n) {
                let i = choose|i: int|
                    0 <= i < deployments.len() && is_openai_deployment(#[trigger] deployments[i])
                        && model_key(deployments[i]) == n && n.len() > 0;
                if i < before.len() {
                    assert(before[i] == deployments[i]);
                    assert(openai_model_name_set(before).contains(n));
                    assert(earlier.to_set().contains(n));
                    assert(earlier.contains(n));
                    if names != earlier {
                        assert(names == earlier.push(model_key(d)));
                        assert(names[earlier.index_of(n)] == n);
                    }
                } else {
                    assert(deployments[i] == d);
                    if !earlier.contains(n) {
                        assert(names == earlier.push(n));
                        assert(names[names.len() - 1] == n);
                    }
                }
            }
        }
        assert(names.to_set() =~= openai_model_name_set(deployments));
        if names != earlier {
            assert(names == earlier.push(model_key(d)));
            assert forall|a: int, b: int| 0 <= a < names.len() && 0 <= b < names.len() && a != b
                implies names[a] != names[b] by {
                if a < earlier.len() && b < earlier.len() {
                } else if a < earlier.len() {
                    assert(earlier[a] == names[a]);
                } else {
                    assert(earlier[b] == names[b]);
                }
            }
        }
    }
}

/// The model names are exactly the deployments' model names, trimmed of
/// surrounding white space and lower-cased in ASCII, of the deployments whose
/// format is `OpenAI` in any ASCII case, leaving out those that end up
/// empty; and no name comes twice.
pub proof fn lemma_model_names_are_trimmed_lowercased_openai_names(
    deployments: Seq<AzureDeploymentSummary>,
)
    ensures
        forall|n: Seq<char>|
            #[trigger] model_names_from(deployments).contains(n) <==> exists|i: int|
                0 <= i < deployments.len() && ascii_lower(
                    (#[trigger] deployments[i]).properties.model.format@,
                ) == ascii_lower("OpenAI"@) && n == ascii_lower(
                    trimmed(deployments[i].properties.model.name@),
                ) && n.len() > 0,
        model_names_from(deployments).no_duplicates(),
{
    lemma_model_names_are_openai_keys(deployments);
    let names = model_names_from(deployments);
    assert forall|n: Seq<char>| #[trigger] names.contains(n) <==> exists|i: int|
        0 <= i < deployments.len() && ascii_lower(
            (#[trigger] deployments[i]).properties.model.format@,
        ) == ascii_lower("OpenAI"@) && n == ascii_lower(
            trimmed(deployments[i].properties.model.name@),
        ) && n.len() > 0 by {
        assert(names.contains(n) <==> names.to_set().contains(n));
    }
}

/// Every model name is already trimmed and lower-cased: normalizing it again
/// leaves it as it is.
pub proof fn lemma_model_names_are_normalized(deployments: Seq<AzureDeploymentSummary>, k: int)
    requires
        0 <= k < model_names_from(deployments).len(),
    ensures
        ascii_lower(trimmed(model_names_from(deployments)[k])) == model_names_from(deployments)[k],
        model_names_from(deployments)[k].len() > 0,
    decreases deployments.len(),
{
    let before = deployments.drop_last();
    let earlier = model_names_from(before);
    if k < earlier.len() {
        lemma_model_names_are_normalized(before, k);
    } else {
        let d = deployments.last();
        let t = trimmed(d.properties.model.name@);
        crate::text::lemma_trimmed_idempotent(d.properties.model.name@);
        crate::text::lemma_trimmed_of_lower(t);
        crate::text::lemma_ascii_lower_idempotent(t);
    }
}

} // verus!
