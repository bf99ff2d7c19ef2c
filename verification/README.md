# weebo-authentik

A Kubernetes operator that manages [Authentik](https://goauthentik.io/)
objects (groups, users, applications with their oauth2 or proxy provider,
access policies, brands, flows, scope mappings, outposts) as custom
resources, and an admission webhook that confines applications and access
policies to the namespaces an `AuthentikNamespacePolicy` opens to them.

The decisions the operator takes are written in Verus and proved against
their contracts; the Kubernetes, HTTP and Vault plumbing around them is
ordinary Rust.

## Layout

- `src/` — the verified library:
  - `crd/` — the custom-resource spec types, their manifest defaults, and
    the derivation of an instance's API and web base URLs;
  - `admission` — the namespace allow-list (no policy: allow; otherwise
    default deny, a covering `Deny` wins);
  - `brand_election` — which `AuthentikBrand` holds `default: true`;
  - `status` — reconcile outcomes, the `Ready` condition they patch, and
    requeue delays;
  - `gateway`, `requests` — how a failed Authentik call is classified, how
    ids, grant types and name lookups are read, and what each write sends;
  - `cleanup` — what deleting a resource removes;
  - `secret_k8s`, `secret_vault`, `secret_fanout`, `secret_store_factory`,
    `secret_ref` — where oauth2 credentials go, the Vault KV retry and
    login reuse, and the fan-out over several destinations;
  - `ports` — the values exchanged with the gateway and the stores;
  - `text` — string helpers with their specifications.
- `app/` — the custom resources with their serde/kube derives, the
  Authentik HTTP gateway, the Kubernetes and Vault stores, the factories,
  the controllers and the webhook.
- `tests/` — tests of the library on concrete values.
