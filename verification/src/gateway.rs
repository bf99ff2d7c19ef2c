//! The decisions the Authentik HTTP gateway makes around its API calls:
//! how a failed call is classified, how ids and grant types are parsed,
//! how a name lookup picks its match, how an outpost gains a provider, and
//! how a default instance is elected.
use vstd::prelude::*;
use crate::crd::application::{Oauth2ProviderSpec, ProviderKind};
use crate::crd::instance::{api_suffix, web_base};
use crate::ports::{GatewayError, GatewayFactoryError, Oauth2Credentials};
use crate::text::{
    ascii_lower_seq, chars_of, debug_quoted, debug_text, decimal, decimal_string, join2, join3,
    join4, lower_all, occurs_in, occurs_in_exec, same_text,
};

verus! {

/// A failed Authentik API call, as plain values: the HTTP status and body
/// when the server answered, and the error's rendered text.
#[derive(Clone, Debug, PartialEq, Eq)]
pub struct ApiFailure {
    /// `Some` when the server answered with an error status.
    pub status: Option<u16>,
    /// The response body (empty when the server did not answer).
    pub content: String,
    /// The error's own rendering.
    pub rendered: String,
}

/// The phrase Authentik's validation errors carry for a name/slug collision.
pub open spec fn duplicate_phrase() -> Seq<char> {
    "already exists"@
}

/// Whether a 400 body reports a name/slug collision: it contains
/// `already exists`, in any ASCII letter case.
pub fn is_duplicate_conflict(body: &str) -> (r: bool)
    ensures
        r == occurs_in(ascii_lower_seq(body@), duplicate_phrase()),
{
    let lowered = lower_all(&chars_of(body));
    let phrase = chars_of("already exists");
    occurs_in_exec(&lowered, &phrase)
}

/// How a failed call is classified: a 409, or a 400 reporting a collision,
/// is `AlreadyExists` with the body; a 404 is `NotFound` with the body;
/// anything else is `Api` with the rendered error.
pub open spec fn classify(f: ApiFailure) -> (u8, Seq<char>) {
    match f.status {
        Some(code) => if code == 409 || (code == 400 && occurs_in(
            ascii_lower_seq(f.content@),
            duplicate_phrase(),
        )) {
            (1, f.content@)
        } else if code == 404 {
            (0, f.content@)
        } else {
            (2, f.rendered@)
        },
        None => (2, f.rendered@),
    }
}

/// The plain view of a gateway error: 0 not found, 1 already exists,
/// 2 any other, with its text.
pub open spec fn gateway_error_view(e: GatewayError) -> (u8, Seq<char>) {
    match e {
        GatewayError::NotFound(m) => (0, m@),
        GatewayError::AlreadyExists(m) => (1, m@),
        GatewayError::Api(m) => (2, m@),
    }
}

/// Classifies a failed Authentik API call (see `classify`).
pub fn map_err(f: ApiFailure) -> (e: GatewayError)
    ensures
        gateway_error_view(e) == classify(f),
{
    match f.status {
        Some(code) => {
            if code == 409 || (code == 400 && is_duplicate_conflict(f.content.as_str())) {
                GatewayError::AlreadyExists(f.content)
            } else if code == 404 {
                GatewayError::NotFound(f.content)
            } else {
                GatewayError::Api(f.rendered)
            }
        },
        None => GatewayError::Api(f.rendered),
    }
}

/// Outcome of a delete call: a 404 means the object is already gone, which
/// is success; any other failure is classified.
pub fn ignore_not_found(result: Result<(), ApiFailure>) -> (r: Result<(), GatewayError>)
    ensures
        result is Ok ==> r is Ok,
        result matches Err(f) ==> (classify(f).0 == 0 <==> r is Ok),
        result matches Err(f) ==> (r matches Err(e) ==> gateway_error_view(e) == classify(f)),
{
    match result {
        Ok(()) => Ok(()),
        Err(f) => match map_err(f) {
            GatewayError::NotFound(_) => Ok(()),
            other => Err(other),
        },
    }
}

/// Whether `c` is an ASCII decimal digit.
pub open spec fn is_digit(c: char) -> bool {
    '0' <= c && c <= '9'
}

/// The numeric value of the digit `c`.
pub open spec fn digit_value(c: char) -> int {
    (c as int) - ('0' as int)
}

/// Whether every character of `s` is a digit.
pub open spec fn all_digits(s: Seq<char>) -> bool {
    forall|i: int| 0 <= i < s.len() ==> is_digit(#[trigger] s[i])
}

/// The value of the decimal digits `s`.
pub open spec fn digits_value(s: Seq<char>) -> int
    decreases s.len(),
{
    if s.len() == 0 {
        0
    } else {
        digits_value(s.drop_last()) * 10 + digit_value(s.last())
    }
}

/// The integer `s` spells, as `str::parse` reads one: an optional `+` or
/// `-`, then one or more decimal digits, nothing else.
pub open spec fn int_literal(s: Seq<char>) -> Option<int> {
    if s.len() > 0 && (s[0] == '+' || s[0] == '-') {
        let d = s.drop_first();
        if d.len() > 0 && all_digits(d) {
            Some(
                if s[0] == '-' {
                    -digits_value(d)
                } else {
                    digits_value(d)
                },
            )
        } else {
            None
        }
    } else if s.len() > 0 && all_digits(s) {
        Some(digits_value(s))
    } else {
        None
    }
}

/// The `i32` that `s` spells, when it spells one in range.
pub open spec fn i32_literal(s: Seq<char>) -> Option<i32> {
    match int_literal(s) {
        Some(v) => if i32::MIN <= v <= i32::MAX {
            Some(v as i32)
        } else {
            None
        },
        None => None,
    }
}

/// The error for an id that is not an `i32`.
pub open spec fn bad_id_message(id: Seq<char>) -> Seq<char> {
    "expected an integer id, got "@ + debug_text(id)
}

fn bad_id(id: &str) -> (e: GatewayError)
    ensures
        e matches GatewayError::Api(m) && m@ == bad_id_message(id@),
{
    GatewayError::Api(join2("expected an integer id, got ", debug_quoted(id).as_str()))
}

/// Parses an Authentik integer primary key.
pub fn parse_i32(id: &str) -> (r: Result<i32, GatewayError>)
    ensures
        i32_literal(id@) matches Some(v) ==> r == Ok::<i32, GatewayError>(v),
        i32_literal(id@) is None ==> (r matches Err(GatewayError::Api(m)) && m@ == bad_id_message(id@)),
{
    let v = chars_of(id);
    let n = v.len();
    if n == 0 {
        return Err(bad_id(id));
    }
    let neg = v[0] == '-';
    let start: usize = if v[0] == '-' || v[0] == '+' { 1 } else { 0 };
    if start == n {
        return Err(bad_id(id));
    }
    let ghost d = v@.subrange(start as int, n as int);
    let mut acc: i64 = 0;
    let mut over = false;
    let mut i: usize = start;
    assert(v@.subrange(start as int, start as int) =~= Seq::<char>::empty());
    while i < n
        invariant
            v@ == id@,
            n == v@.len(),
            d == v@.subrange(start as int, n as int),
            start == 1 <==> (id@[0] == '-' || id@[0] == '+'),
            start <= 1,
            0 < n,
            start <= i <= n,
            all_digits(v@.subrange(start as int, i as int)),
            over ==> digits_value(v@.subrange(start as int, i as int)) > 2147483648,
            !over ==> acc == digits_value(v@.subrange(start as int, i as int)) && 0 <= acc
                <= 2147483648,
        decreases n - i,
    {
        let c = v[i];
        if !('0' <= c && c <= '9') {
            proof {
                assert(d[i - start] == c);
                assert(!all_digits(d));
                if start == 1 {
                    assert(id@.drop_first() =~= d);
                } else {
                    assert(id@ =~= d);
                }
            }
            return Err(bad_id(id));
        }
        let ghost pre = v@.subrange(start as int, i as int);
        let ghost next = v@.subrange(start as int, i + 1);
        assert(next.drop_last() =~= pre);
        assert(digits_value(next) == digits_value(pre) * 10 + digit_value(c));
        if !over {
            let dv = (c as u32 - '0' as u32) as i64;
            acc = acc * 10 + dv;
            if acc > 2147483648 {
                over = true;
            }
        }
        i = i + 1;
    }
    proof {
        if start == 1 {
            assert(id@.drop_first() =~= d);
        } else {
            assert(id@ =~= d);
        }
    }
    if over {
        return Err(bad_id(id));
    }
    if neg {
        Ok((-acc) as i32)
    } else if acc <= 2147483647 {
        Ok(acc as i32)
    } else {
        Err(bad_id(id))
    }
}

/// The error for a lookup of `what` named `wanted` that matched nothing.
pub open spec fn not_found_message(what: Seq<char>, wanted: Seq<char>) -> Seq<char> {
    what + " "@ + debug_text(wanted) + " not found"@
}

/// Picks, among the results of a lookup of `what` by name, the first whose
/// name is exactly `wanted`; a miss is `NotFound`.
pub fn pick_by_name(what: &str, names: &Vec<String>, wanted: &str) -> (r: Result<usize, GatewayError>)
    ensures
        r matches Ok(i) ==> i < names@.len() && names@[i as int]@ == wanted@
            && forall|j: int| 0 <= j < i ==> #[trigger] names@[j]@ != wanted@,
        r is Err <==> forall|j: int| 0 <= j < names@.len() ==> #[trigger] names@[j]@ != wanted@,
        r matches Err(e) ==> (e matches GatewayError::NotFound(m) && m@ == not_found_message(what@, wanted@)),
{
    let mut i: usize = 0;
    while i < names.len()
        invariant
            i <= names@.len(),
            forall|j: int| 0 <= j < i ==> #[trigger] names@[j]@ != wanted@,
        decreases names@.len() - i,
    {
        if same_text(names[i].as_str(), wanted) {
            return Ok(i);
        }
        i = i + 1;
    }
    let q = debug_quoted(wanted);
    Err(GatewayError::NotFound(join4(what, " ", q.as_str(), " not found")))
}

/// Name of Authentik's outpost embedded in every installation.
pub open spec fn embedded_outpost_name() -> Seq<char> {
    "authentik Embedded Outpost"@
}

/// The outpost a proxy provider attaches to: the one named by
/// `outpost_ref`, or the embedded outpost when it is unset.
pub fn outpost_name<'a>(outpost_ref: Option<&'a str>) -> (name: &'a str)
    ensures
        outpost_ref matches Some(n) ==> name@ == n@,
        outpost_ref is None ==> name@ == embedded_outpost_name(),
{
    match outpost_ref {
        Some(n) => n,
        None => "authentik Embedded Outpost",
    }
}

/// The provider list of an outpost once `provider_id` is attached: unchanged
/// when already present, otherwise extended with it at the end.
pub fn with_provider(providers: Vec<i32>, provider_id: i32) -> (r: Vec<i32>)
    ensures
        providers@.contains(provider_id) ==> r@ == providers@,
        !providers@.contains(provider_id) ==> r@ == providers@.push(provider_id),
{
    let mut i: usize = 0;
    while i < providers.len()
        invariant
            i <= providers@.len(),
            forall|j: int| 0 <= j < i ==> providers@[j] != provider_id,
        decreases providers@.len() - i,
    {
        if providers[i] == provider_id {
            return providers;
        }
        i = i + 1;
    }
    let mut r = providers;
    r.push(provider_id);
    r
}

/// Attaching a provider is idempotent: attaching it a second time changes
/// nothing, and the provider is present afterwards.
pub proof fn attaching_twice_is_attaching_once(providers: Seq<i32>, provider_id: i32)
    ensures
        ({
            let once = if providers.contains(provider_id) {
                providers
            } else {
                providers.push(provider_id)
            };
            &&& once.contains(provider_id)
            &&& (if once.contains(provider_id) {
                once
            } else {
                once.push(provider_id)
            }) == once
        }),
{
    if !providers.contains(provider_id) {
        assert(providers.push(provider_id)[providers.len() as int] == provider_id);
    }
}

/// The OAuth2 grant types Authentik knows.
#[derive(Clone, Copy, Debug, PartialEq, Eq)]
pub enum GrantType {
    AuthorizationCode,
    Implicit,
    Hybrid,
    RefreshToken,
    ClientCredentials,
    Password,
}

/// The grant type a manifest string names.
pub open spec fn grant_named(s: Seq<char>) -> Option<GrantType> {
    if s == "authorization_code"@ {
        Some(GrantType::AuthorizationCode)
    } else if s == "implicit"@ {
        Some(GrantType::Implicit)
    } else if s == "hybrid"@ {
        Some(GrantType::Hybrid)
    } else if s == "refresh_token"@ {
        Some(GrantType::RefreshToken)
    } else if s == "client_credentials"@ {
        Some(GrantType::ClientCredentials)
    } else if s == "password"@ {
        Some(GrantType::Password)
    } else {
        None
    }
}

/// Parses one grant type name.
pub fn parse_grant_type(s: &str) -> (g: Option<GrantType>)
    ensures
        g == grant_named(s@),
{
    if same_text(s, "authorization_code") {
        Some(GrantType::AuthorizationCode)
    } else if same_text(s, "implicit") {
        Some(GrantType::Implicit)
    } else if same_text(s, "hybrid") {
        Some(GrantType::Hybrid)
    } else if same_text(s, "refresh_token") {
        Some(GrantType::RefreshToken)
    } else if same_text(s, "client_credentials") {
        Some(GrantType::ClientCredentials)
    } else if same_text(s, "password") {
        Some(GrantType::Password)
    } else {
        None
    }
}

/// The name under which Authentik's API and the manifests write a grant
/// type.
pub open spec fn grant_wire_name(g: GrantType) -> Seq<char> {
    match g {
        GrantType::AuthorizationCode => "authorization_code"@,
        GrantType::Implicit => "implicit"@,
        GrantType::Hybrid => "hybrid"@,
        GrantType::RefreshToken => "refresh_token"@,
        GrantType::ClientCredentials => "client_credentials"@,
        GrantType::Password => "password"@,
    }
}

/// Every grant type Authentik knows is accepted under its wire name, and a
/// name is accepted only as the wire name of the grant type it gives.
pub proof fn every_grant_type_is_read_back_from_its_wire_name(g: GrantType, s: Seq<char>)
    ensures
        grant_named(grant_wire_name(g)) == Some(g),
        grant_named(s) == Some(g) <==> s == grant_wire_name(g),
{
    reveal_strlit("authorization_code");
    reveal_strlit("implicit");
    reveal_strlit("hybrid");
    reveal_strlit("refresh_token");
    reveal_strlit("client_credentials");
    reveal_strlit("password");
    let names = seq![
        "authorization_code"@,
        "implicit"@,
        "hybrid"@,
        "refresh_token"@,
        "client_credentials"@,
        "password"@,
    ];
    assert(names[4][0] != names[0][0]);
    assert(names[5][0] != names[1][0]);
    assert forall|i: int, j: int| 0 <= i < j < 6 implies #[trigger] names[i] != #[trigger] names[j] by {
        if names[i].len() == names[j].len() {
            assert(names[i][0] != names[j][0]);
        }
    }
    assert(names[0] != names[1] && names[0] != names[2] && names[0] != names[3] && names[0] != names[4]);
    assert(names[1] != names[2] && names[1] != names[3] && names[1] != names[4] && names[2] != names[3]);
    assert(names[2] != names[4] && names[3] != names[4] && names[0] != names[5] && names[1] != names[5]);
    assert(names[2] != names[5] && names[3] != names[5] && names[4] != names[5]);
}

/// Whether every name in `names` is a known grant type.
pub open spec fn all_grants_known(names: Seq<String>) -> bool {
    forall|i: int| 0 <= i < names.len() ==> grant_named(#[trigger] names[i]@) is Some
}

/// Whether `e` is the error for the first unknown grant type in `names`:
/// an `Api` error naming it.
pub open spec fn unknown_grant_error(names: Seq<String>, e: GatewayError) -> bool {
    exists|i: int| 0 <= i < names.len()
        && grant_named(#[trigger] names[i]@) is None
        && (forall|j: int| 0 <= j < i ==> grant_named(#[trigger] names[j]@) is Some)
        && (e matches GatewayError::Api(m) && m@ == "unsupported oauth2 grant type "@ + debug_text(names[i]@))
}

/// Whether `gs` holds, in order, the grant type each of `names` names.
pub open spec fn grants_named(names: Seq<String>, gs: Seq<GrantType>) -> bool {
    gs.len() == names.len() && forall|i: int| 0 <= i < gs.len() ==> grant_named(names[i]@) == Some(#[trigger] gs[i])
}

/// A manifest listing only wire names of grant types has all its grant
/// types known, and they parse, in order, to the grant types named.
pub proof fn wire_names_parse_to_their_grant_types(names: Seq<String>, gs: Seq<GrantType>)
    requires
        names.len() == gs.len(),
        forall|i: int| 0 <= i < names.len() ==> (#[trigger] names[i])@ == grant_wire_name(gs[i]),
    ensures
        all_grants_known(names),
        grants_named(names, gs),
{
    assert forall|i: int| 0 <= i < names.len() implies grant_named(#[trigger] names[i]@) == Some(gs[i]) by {
        every_grant_type_is_read_back_from_its_wire_name(gs[i], names[i]@);
    }
    assert forall|i: int| 0 <= i < gs.len() implies grant_named(names[i]@) == Some(#[trigger] gs[i]) by {
        every_grant_type_is_read_back_from_its_wire_name(gs[i], names[i]@);
    }
}

/// The grant types of an oauth2 provider: none to send when the manifest
/// lists none (Authentik's default applies), every listed one when all are
/// known, and otherwise an `Api` error naming the first unknown one.
pub fn grant_types(spec: &Oauth2ProviderSpec) -> (r: Result<Option<Vec<GrantType>>, GatewayError>)
    ensures
        spec.grant_types@.len() == 0 ==> r == Ok::<Option<Vec<GrantType>>, GatewayError>(None),
        r matches Ok(g) ==> (g is None <==> spec.grant_types@.len() == 0),
        r matches Ok(Some(gs)) ==> grants_named(spec.grant_types@, gs@),
        r is Ok <==> all_grants_known(spec.grant_types@),
        r matches Err(e) ==> unknown_grant_error(spec.grant_types@, e),
{
    let names = &spec.grant_types;
    if names.len() == 0 {
        return Ok(None);
    }
    let mut out: Vec<GrantType> = Vec::new();
    let mut i: usize = 0;
    while i < names.len()
        invariant
            names@ == spec.grant_types@,
            names@.len() > 0,
            i <= names@.len(),
            out@.len() == i,
            forall|j: int| 0 <= j < i ==> grant_named(names@[j]@) == Some(#[trigger] out@[j]),
        decreases names@.len() - i,
    {
        match parse_grant_type(names[i].as_str()) {
            Some(g) => out.push(g),
            None => {
                let q = debug_quoted(names[i].as_str());
                assert forall|j: int| 0 <= j < i implies grant_named(#[trigger] names@[j]@) is Some by {
                    assert(grant_named(names@[j]@) == Some(out@[j]));
                }
                return Err(GatewayError::Api(join2("unsupported oauth2 grant type ", q.as_str())));
            },
        }
        i = i + 1;
    }
    assert forall|j: int| 0 <= j < names@.len() implies grant_named(#[trigger] names@[j]@) is Some by {
        assert(grant_named(names@[j]@) == Some(out@[j]));
    }
    Ok(Some(out))
}

/// The provider API a delete goes to.
#[derive(Clone, Copy, Debug, PartialEq, Eq)]
pub enum ProviderEndpoint {
    Oauth2,
    Proxy,
}

/// Which endpoint deletes a provider of `kind`. Only oauth2 and proxy
/// providers are ever created by this operator; any other kind is an `Api`
/// error.
pub fn delete_provider_route(kind: ProviderKind) -> (r: Result<ProviderEndpoint, GatewayError>)
    ensures
        kind == ProviderKind::Oauth2 ==> r == Ok::<ProviderEndpoint, GatewayError>(ProviderEndpoint::Oauth2),
        kind == ProviderKind::Proxy ==> r == Ok::<ProviderEndpoint, GatewayError>(ProviderEndpoint::Proxy),
        kind == ProviderKind::Saml ==> (r matches Err(GatewayError::Api(m)) && m@
            == "delete_provider called with unsupported kind Saml — only oauth2/proxy providers are ever created by this operator"@),
        kind == ProviderKind::Ldap ==> (r matches Err(GatewayError::Api(m)) && m@
            == "delete_provider called with unsupported kind Ldap — only oauth2/proxy providers are ever created by this operator"@),
{
    match kind {
        ProviderKind::Oauth2 => Ok(ProviderEndpoint::Oauth2),
        ProviderKind::Proxy => Ok(ProviderEndpoint::Proxy),
        ProviderKind::Saml => Err(GatewayError::Api(String::from_str(
            "delete_provider called with unsupported kind Saml — only oauth2/proxy providers are ever created by this operator",
        ))),
        ProviderKind::Ldap => Err(GatewayError::Api(String::from_str(
            "delete_provider called with unsupported kind Ldap — only oauth2/proxy providers are ever created by this operator",
        ))),
    }
}

/// The OIDC issuer of the application `slug` on the instance whose web base
/// is `web_base`: `<web_base>/application/o/<slug>/`.
pub open spec fn issuer_url(web_base: Seq<char>, slug: Seq<char>) -> Seq<char> {
    web_base + "/application/o/"@ + slug + "/"@
}

/// The credentials an upserted oauth2 provider hands out: its client id and
/// secret (empty when Authentik returned none) and, as `AUTHENTIK_URL`, the
/// user-facing issuer of the application `slug` under the instance's web
/// base `web_base_url`, never the REST base.
pub fn provider_credentials(client_id: Option<String>, client_secret: Option<String>, web_base_url: &str, slug: &str) -> (c: Oauth2Credentials)
    ensures
        c.client_id@ == (match client_id {
            Some(s) => s@,
            None => Seq::<char>::empty(),
        }),
        c.client_secret@ == (match client_secret {
            Some(s) => s@,
            None => Seq::<char>::empty(),
        }),
        c.authentik_url@ == issuer_url(web_base_url@, slug@),
{
    let id = match client_id {
        Some(s) => s,
        None => String::new(),
    };
    let secret = match client_secret {
        Some(s) => s,
        None => String::new(),
    };
    let authentik_url = join4(web_base_url, "/application/o/", slug, "/");
    Oauth2Credentials { client_id: id, client_secret: secret, authentik_url }
}

/// The issuer written into an application's credentials hangs off the web
/// base `split_urls` derives from `spec.url`, and is never the REST base:
/// whether `spec.url` was written as the web base or as the `/api/v3` URL.
pub proof fn issuer_is_never_the_api_base(url: Seq<char>, slug: Seq<char>)
    ensures
        issuer_url(web_base(url), slug).subrange(0, web_base(url).len() as int) == web_base(url),
        issuer_url(web_base(url), slug) != web_base(url) + api_suffix(),
{
    reveal_strlit("/");
    let w = web_base(url);
    let i = issuer_url(w, slug);
    assert(i.subrange(0, w.len() as int) =~= w);
    assert(i.last() == '/');
    assert((w + api_suffix()).last() == '3');
}

/// Elects the single default `AuthentikInstance` among `count` instances:
/// the only one when there is exactly one, an `AmbiguousDefault` error
/// otherwise.
pub fn elect_default_instance(count: usize) -> (r: Result<usize, GatewayFactoryError>)
    ensures
        count == 1 ==> r == Ok::<usize, GatewayFactoryError>(0),
        count == 0 ==> (r matches Err(GatewayFactoryError::AmbiguousDefault(m)) && m@ == "no AuthentikInstance CR exists"@),
        count > 1 ==> (r matches Err(GatewayFactoryError::AmbiguousDefault(m)) && m@ == decimal(count as nat)
            + " AuthentikInstance CRs exist, expected exactly one for a default"@),
{
    if count == 1 {
        Ok(0)
    } else if count == 0 {
        Err(GatewayFactoryError::AmbiguousDefault(String::from_str("no AuthentikInstance CR exists")))
    } else {
        let n = decimal_string(count);
        Err(GatewayFactoryError::AmbiguousDefault(join2(
            n.as_str(),
            " AuthentikInstance CRs exist, expected exactly one for a default",
        )))
    }
}

/// A trust root of the HTTP client, as reqwest holds it.
#[verifier::external_type_specification]
#[verifier::external_body]
pub struct ExCertificate(reqwest::Certificate);

/// The text of every error `reqwest::Certificate::from_pem_bundle` returns.
pub open spec fn pem_error_text() -> Seq<char> {
    "builder error"@
}

/// How many CERTIFICATE sections the PEM bytes `pem` hold, as
/// `rustls-pki-types`' PEM reader, which `reqwest::Certificate::from_pem_bundle`
/// uses, counts them.
pub uninterp spec fn pem_certificate_count(pem: Seq<u8>) -> nat;

/// `reqwest::Certificate::from_pem_bundle`: reads every CERTIFICATE section
/// of a PEM bundle and makes one certificate of each; any section it cannot
/// read or convert fails the whole call. A success therefore holds one
/// certificate per section, `pem_certificate_count(pem@)`; its errors are
/// all of reqwest's builder kind, which renders as `builder error`. Whether
/// a given bundle is accepted is left unsaid: with native TLS each section
/// is handed to the system's TLS library, so acceptance may differ between
/// machines.
#[verifier::external_body]
fn parse_pem_bundle(pem: &[u8]) -> (r: Result<Vec<reqwest::Certificate>, String>)
    ensures
        r matches Ok(certs) ==> certs@.len() == pem_certificate_count(pem@),
        r matches Err(m) ==> m@ == pem_error_text(),
{
    reqwest::Certificate::from_pem_bundle(pem).map_err(|e| e.to_string())
}

/// The extra trust roots a `tls.caSecretRef` PEM bundle gives the API
/// client: one per certificate section of the bundle, once `check_ca_bundle`
/// accepts reqwest's parse. Whatever reqwest makes of the bytes, a refusal
/// is one of the two `check_ca_bundle` gives.
pub fn ca_roots(pem: &[u8]) -> (r: Result<Vec<reqwest::Certificate>, GatewayFactoryError>)
    ensures
        r matches Ok(certs) ==> certs@.len() == pem_certificate_count(pem@) && certs@.len() > 0,
        pem_certificate_count(pem@) == 0 ==> r is Err,
        r matches Err(e) ==> (e matches GatewayFactoryError::ResolutionFailed(m) && (m@
            == "the CA bundle from tls.caSecretRef contains no PEM certificate"@ || m@
            == "parsing the Authentik CA PEM bundle from tls.caSecretRef: "@ + pem_error_text())),
{
    let parsed = parse_pem_bundle(pem);
    let count = match &parsed {
        Ok(certs) => Ok(certs.len()),
        Err(m) => Err(m.clone()),
    };
    match check_ca_bundle(count) {
        Err(e) => Err(e),
        Ok(()) => match parsed {
            Ok(certs) => Ok(certs),
            // Never taken: `check_ca_bundle` refuses every parse error.
            Err(m) => Err(GatewayFactoryError::ResolutionFailed(m)),
        },
    }
}

/// Judges the parse of a `tls.caSecretRef` PEM bundle: an unparseable bundle
/// and a bundle with no certificate are both refused, never silently
/// replaced by the platform roots. `parsed` is the certificate count, or
/// the parser's error text.
pub fn check_ca_bundle(parsed: Result<usize, String>) -> (r: Result<(), GatewayFactoryError>)
    ensures
        parsed matches Ok(n) && n > 0 ==> r is Ok,
        parsed matches Ok(n) && n == 0 ==> (r matches Err(GatewayFactoryError::ResolutionFailed(m))
            && m@ == "the CA bundle from tls.caSecretRef contains no PEM certificate"@),
        parsed matches Err(e) ==> (r matches Err(GatewayFactoryError::ResolutionFailed(m))
            && m@ == "parsing the Authentik CA PEM bundle from tls.caSecretRef: "@ + e@),
{
    match parsed {
        Ok(n) => if n == 0 {
            Err(GatewayFactoryError::ResolutionFailed(String::from_str(
                "the CA bundle from tls.caSecretRef contains no PEM certificate",
            )))
        } else {
            Ok(())
        },
        Err(e) => Err(GatewayFactoryError::ResolutionFailed(join2(
            "parsing the Authentik CA PEM bundle from tls.caSecretRef: ",
            e.as_str(),
        ))),
    }
}

} // verus!
