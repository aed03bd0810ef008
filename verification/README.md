# azure_catalog

Verified helpers for Azure OpenAI providers, written in Verus.

- `src/text.rs`: character-level text operations (ASCII lower-casing,
  Unicode white-space trimming, infix search, first label, joining), each
  with a specification over character sequences.
- `src/resource.rs`: the resource name that an Azure base URL exposes (the
  URL itself is parsed by the `url` crate behind one trusted wrapper), the
  resource group of a resource, and the OpenAI model names of a resource's
  deployments.
- `src/cli.rs`: the Azure CLI commands that the lookups run and the messages
  for commands that fail.
- `src/lookup.rs`: a state machine that resolves the deployed model names of a
  base URL; it names the next `az` command and takes its reply.
- `src/auth.rs`: the bearer token from the Azure CLI and the sign-in error.
- `src/models.rs`: the model catalog and how deployments restrict it.
- `app/lib.rs`: runs `az`, parses its JSON with serde and drives the lookups.
