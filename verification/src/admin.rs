//! The typed façade over the storage service's admin API: address
//! derivation, request planning, quota translation, and the interpretation
//! of the API's quirkier responses. The HTTP transport itself lives in the
//! unverified driver; this module decides what to send and what a reply
//! means.

use vstd::prelude::*;

use crate::errors::Error;
use crate::errors::ErrorView;
use crate::resources::Garage;
use crate::resources::spec_prefixed_name;
use crate::text::dec_of;
use crate::text::u64_to_string;

verus! {

/// Compare two string slices by content.
pub fn str_eq(a: &str, b: &str) -> (r: bool)
    ensures
        r == (a@ == b@),
{
    let sa = String::from_str(a);
    let sb = String::from_str(b);
    sa == sb
}

/// The base address of an instance's admin API: the service endpoint
/// derived from the instance, inside its namespace, on the admin port,
/// under the path of the current API generation.
pub open spec fn spec_admin_url(name: Seq<char>, namespace: Seq<char>, admin_port: u16) -> Seq<
    char,
> {
    "http://"@ + spec_prefixed_name(name, "api"@) + "."@ + namespace + ".svc.cluster.local:"@
        + dec_of(admin_port as nat) + "/v1"@
}

/// The S3 endpoint address of an instance, handed to key holders.
pub open spec fn spec_s3_endpoint_url(name: Seq<char>, namespace: Seq<char>, s3_port: u16) -> Seq<
    char,
> {
    "http://"@ + spec_prefixed_name(name, "api"@) + "."@ + namespace + ".svc.cluster.local:"@
        + dec_of(s3_port as nat)
}

fn service_host_url(garage: &Garage, namespace: &String, port: u16) -> (r: String)
    ensures
        r@ == "http://"@ + spec_prefixed_name(garage.name@, "api"@) + "."@ + namespace@
            + ".svc.cluster.local:"@ + dec_of(port as nat),
{
    proof {
        reveal_strlit("http://");
        reveal_strlit(".");
        reveal_strlit(".svc.cluster.local:");
    }
    let mut url = String::from_str("http://");
    let host = garage.prefixed_name("api");
    url.append(host.as_str());
    url.append(".");
    url.append(namespace.as_str());
    url.append(".svc.cluster.local:");
    let port_text = u64_to_string(port as u64);
    url.append(port_text.as_str());
    url
}

/// The S3 endpoint address of an instance. The instance must carry a
/// namespace; the caller has already rejected one that does not.
pub fn s3_endpoint_url(garage: &Garage, namespace: &String, s3_port: u16) -> (r: String)
    ensures
        r@ == spec_s3_endpoint_url(garage.name@, namespace@, s3_port),
{
    service_host_url(garage, namespace, s3_port)
}

/// A typed handle on one instance's admin API: where to reach it and the
/// bearer token to present. The unverified driver owns the HTTP client.
pub struct GarageAdmin {
    /// The base address all endpoint paths are appended to.
    pub base_url: String,
    /// The bearer token presented on every request.
    pub token: String,
}

pub struct GarageAdminView {
    pub base_url: Seq<char>,
    pub token: Seq<char>,
}

impl View for GarageAdmin {
    type V = GarageAdminView;

    open spec fn view(&self) -> GarageAdminView {
        GarageAdminView { base_url: self.base_url@, token: self.token@ }
    }
}

impl GarageAdmin {
    /// Derive the admin handle for an instance from its declaration and its
    /// admin token. Fails when the instance lacks a namespace.
    pub fn with_secret(garage: &Garage, token: &str) -> (r: Result<GarageAdmin, Error>)
        ensures
            match r {
                Ok(admin) => garage@.namespace matches Some(ns) && admin@.base_url
                    == spec_admin_url(garage.name@, ns, garage.spec.config.ports.admin)
                    && admin@.token == token@,
                Err(e) => garage@.namespace is None && e@ == ErrorView::IllegalGarage(
                    garage.name@,
                    "missing namespace"@,
                ),
            },
    {
        match &garage.namespace {
            Some(ns) => {
                proof {
                    reveal_strlit("/v1");
                }
                let mut url = service_host_url(garage, ns, garage.spec.config.ports.admin);
                url.append("/v1");
                Ok(GarageAdmin { base_url: url, token: String::from_str(token) })
            },
            None => Err(
                Error::IllegalGarage(
                    garage.name.clone(),
                    String::from_str("missing namespace"),
                ),
            ),
        }
    }
}

/// The name of the credential object holding an instance's admin token: the
/// reference given in the declaration when there is one, else the derived
/// default.
pub open spec fn spec_admin_token_secret_name(g: crate::resources::GarageView) -> Seq<char> {
    match g.spec.secrets.admin {
        Some(r) => match r.name {
            Some(n) => n,
            None => spec_prefixed_name(g.name, "admin.key"@),
        },
        None => spec_prefixed_name(g.name, "admin.key"@),
    }
}

/// Resolve where an instance's admin token is kept.
pub fn admin_token_secret_name(garage: &Garage) -> (r: String)
    ensures
        r@ == spec_admin_token_secret_name(garage@),
{
    match &garage.spec.secrets.admin {
        Some(sr) => match &sr.name {
            Some(n) => n.clone(),
            None => garage.prefixed_name("admin.key"),
        },
        None => garage.prefixed_name("admin.key"),
    }
}

/// One entry of a cluster credential object.
pub struct SecretEntry {
    pub name: String,
    pub value: String,
}

pub struct SecretEntryView {
    pub name: Seq<char>,
    pub value: Seq<char>,
}

impl View for SecretEntry {
    type V = SecretEntryView;

    open spec fn view(&self) -> SecretEntryView {
        SecretEntryView { name: self.name@, value: self.value@ }
    }
}

/// Some entry named "key" carries the given token.
pub open spec fn spec_token_in(entries: Seq<SecretEntry>, token: Seq<char>) -> bool {
    exists|i: int|
        0 <= i < entries.len() && (#[trigger] entries[i])@.name == "key"@ && entries[i]@.value
            == token
}

/// Extract an instance's admin token from the credential object fetched
/// under `secret_name`: the value filed under the entry named "key".
///
/// Absence of the object is a missing-secret error; absence of the entry is
/// a missing-data error, both naming the object.
pub fn admin_token(lookup: Option<&Vec<SecretEntry>>, secret_name: &String) -> (r: Result<
    String,
    Error,
>)
    ensures
        match r {
            Ok(token) => lookup matches Some(entries) && spec_token_in(entries@, token@),
            Err(e) => match e@ {
                ErrorView::MissingSecret(n) => lookup is None && n == secret_name@,
                ErrorView::MissingSecretData(n) => n == secret_name@ && (lookup matches Some(
                    entries,
                ) && forall|i: int|
                    0 <= i < entries@.len() ==> (#[trigger] entries@[i])@.name != "key"@),
                _ => false,
            },
        },
{
    match lookup {
        Some(entries) => {
            let n = entries.len();
            let mut i: usize = 0;
            while i < n
                invariant
                    lookup == Some(entries),
                    n == entries@.len(),
                    i <= n,
                    forall|j: int| 0 <= j < i ==> (#[trigger] entries@[j])@.name != "key"@,
                decreases n - i,
            {
                if str_eq(entries[i].name.as_str(), "key") {
                    let value = entries[i].value.clone();
                    proof {
                        assert((entries@[i as int])@.name == "key"@ && entries@[i as int]@.value
                            == value@);
                        assert(spec_token_in(entries@, value@));
                    }
                    return Ok(value);
                }
                i = i + 1;
            }
            Err(Error::MissingSecretData(secret_name.clone()))
        },
        None => Err(Error::MissingSecret(secret_name.clone())),
    }
}

/// Limits sent to the admin API when configuring a bucket, in plain units.
#[derive(Clone, Copy)]
pub struct ApiQuotas {
    /// The largest total size the bucket may reach, in bytes.
    pub max_size: Option<i64>,
    /// The maximum number of objects the bucket may hold.
    pub max_objects: Option<i64>,
}

/// The number of bytes a human-readable quantity ("5Gi", "100M", ...)
/// denotes, when the text parses and the value fits an i64.
pub uninterp spec fn quantity_bytes(s: Seq<char>) -> Option<i64>;

/// Relies on kube_quantity::ParsedQuantity::try_from, its ordering, and
/// ParsedQuantity::to_bytes_i128: all functions of the text alone. Failure
/// to parse, a sub-unit scale, and a byte count outside i64 all come back
/// as absence. The crate's byte conversions multiply unchecked, so the
/// parsed value is clamped to the i64 byte range first; the bounds sit at
/// the largest scale, so the ordering only ever rescales the small bound
/// value, never the parsed one, and within the clamp the conversion cannot
/// overflow.
#[verifier::external_body]
pub(crate) fn parse_quantity_bytes(s: &str) -> (r: Option<i64>)
    ensures
        r == quantity_bytes(s@),
{
    let low = kube_quantity::ParsedQuantity::try_from("-9.2e0E").unwrap();
    let high = kube_quantity::ParsedQuantity::try_from("9.2e0E").unwrap();
    kube_quantity::ParsedQuantity::try_from(s)
        .ok()
        .filter(|q| *q >= low && *q <= high)
        .and_then(|q| q.to_bytes_i128())
        .and_then(|b| i64::try_from(b).ok())
}

/// Translate declared quotas into the plain units the admin API takes.
///
/// The operator is the source of truth for quotas: both limits are passed
/// along even when absent, clearing any remote value. A maximum size whose
/// text does not denote an i64 byte count is a validation error naming the
/// bucket.
pub fn translate_quotas(bucket_name: &String, quotas: &crate::resources::BucketQuotas) -> (r:
    Result<ApiQuotas, Error>)
    requires
        quotas.max_object_count matches Some(c) ==> c <= i64::MAX,
    ensures
        match r {
            Ok(q) => {
                &&& match quotas@.max_size {
                    Some(text) => quantity_bytes(text) matches Some(b) && q.max_size == Some(b),
                    None => q.max_size is None,
                }
                &&& q.max_objects == match quotas@.max_object_count {
                    Some(c) => Some(c as i64),
                    None => None::<i64>,
                }
            },
            Err(e) => quotas@.max_size matches Some(text) && quantity_bytes(text) is None && e@
                == ErrorView::IllegalBucket(bucket_name@, "invalid quantity for maxSize"@),
        },
{
    let max_size = match &quotas.max_size {
        Some(text) => match parse_quantity_bytes(text.as_str()) {
            Some(b) => Some(b),
            None => {
                return Err(
                    Error::IllegalBucket(
                        bucket_name.clone(),
                        String::from_str("invalid quantity for maxSize"),
                    ),
                );
            },
        },
        None => None,
    };
    let max_objects = match quotas.max_object_count {
        Some(c) => Some(c as i64),
        None => None,
    };
    Ok(ApiQuotas { max_size, max_objects })
}

/// A failed admin-API exchange: the HTTP status when the service answered,
/// and a description of what went wrong.
pub struct AdminFailure {
    pub status: Option<u16>,
    pub detail: String,
}

pub struct AdminFailureView {
    pub status: Option<u16>,
    pub detail: Seq<char>,
}

impl View for AdminFailure {
    type V = AdminFailureView;

    open spec fn view(&self) -> AdminFailureView {
        AdminFailureView { status: self.status, detail: self.detail@ }
    }
}

/// What came back from asking the admin API about a bucket by name: on
/// success, the id field of the returned record, as returned.
pub enum BucketLookup {
    Success(Option<String>),
    Failure(AdminFailure),
}

pub enum BucketLookupView {
    Success(Option<Seq<char>>),
    Failure(AdminFailureView),
}

impl View for BucketLookup {
    type V = BucketLookupView;

    open spec fn view(&self) -> BucketLookupView {
        match self {
            BucketLookup::Success(id) => BucketLookupView::Success(
                match id {
                    Some(i) => Some(i@),
                    None => None,
                },
            ),
            BucketLookup::Failure(f) => BucketLookupView::Failure(f@),
        }
    }
}

/// What a bucket lookup means: the admin API reports a miss either as a
/// record without an id or as a plain not-found status; only other failures
/// are errors.
pub open spec fn spec_interpret_bucket_lookup(r: BucketLookupView) -> Result<
    Option<Seq<char>>,
    ErrorView,
> {
    match r {
        BucketLookupView::Success(id) => Ok(id),
        BucketLookupView::Failure(f) => if f.status == Some(404u16) {
            Ok(None)
        } else {
            Err(ErrorView::NetworkError(f.detail))
        },
    }
}

/// Decide whether a bucket exists from the admin API's answer.
pub fn interpret_bucket_lookup(r: BucketLookup) -> (out: Result<Option<String>, Error>)
    ensures
        match (out, spec_interpret_bucket_lookup(r@)) {
            (Ok(Some(id)), Ok(Some(s))) => id@ == s,
            (Ok(None), Ok(None)) => true,
            (Err(e), Err(s)) => e@ == s,
            _ => false,
        },
{
    match r {
        BucketLookup::Success(id) => Ok(id),
        BucketLookup::Failure(f) => match f.status {
            Some(code) => if code == 404 {
                Ok(None)
            } else {
                Err(Error::NetworkError(f.detail))
            },
            None => Err(Error::NetworkError(f.detail)),
        },
    }
}

/// The record the admin API returns for an access key. The secret part is
/// present only when the lookup asked to see it.
pub struct KeyReply {
    pub access_key_id: Option<String>,
    pub name: Option<String>,
    pub secret_access_key: Option<String>,
}

pub struct KeyReplyView {
    pub access_key_id: Option<Seq<char>>,
    pub name: Option<Seq<char>>,
    pub secret_access_key: Option<Seq<char>>,
}

impl View for KeyReply {
    type V = KeyReplyView;

    open spec fn view(&self) -> KeyReplyView {
        KeyReplyView {
            access_key_id: match self.access_key_id {
                Some(ref s) => Some(s@),
                None => None,
            },
            name: match self.name {
                Some(ref s) => Some(s@),
                None => None,
            },
            secret_access_key: match self.secret_access_key {
                Some(ref s) => Some(s@),
                None => None,
            },
        }
    }
}

/// What came back from asking the admin API about a key by name.
pub enum KeyLookup {
    Success(KeyReply),
    Failure(AdminFailure),
}

pub enum KeyLookupView {
    Success(KeyReplyView),
    Failure(AdminFailureView),
}

impl View for KeyLookup {
    type V = KeyLookupView;

    open spec fn view(&self) -> KeyLookupView {
        match self {
            KeyLookup::Success(k) => KeyLookupView::Success(k@),
            KeyLookup::Failure(f) => KeyLookupView::Failure(f@),
        }
    }
}

/// What a key lookup means. The admin API matches names permissively, so a
/// record whose name differs from the one asked for counts as a miss, as do
/// a record without an id and a bad-request status; only other failures are
/// errors.
pub open spec fn spec_interpret_key_lookup(queried: Seq<char>, r: KeyLookupView) -> Result<
    Option<KeyReplyView>,
    ErrorView,
> {
    match r {
        KeyLookupView::Success(k) => if k.access_key_id is None {
            Ok(None)
        } else if k.name == Some(queried) {
            Ok(Some(k))
        } else {
            Ok(None)
        },
        KeyLookupView::Failure(f) => if f.status == Some(400u16) {
            Ok(None)
        } else {
            Err(ErrorView::NetworkError(f.detail))
        },
    }
}

/// Decide whether an access key exists from the admin API's answer.
pub fn interpret_key_lookup(queried: &String, r: KeyLookup) -> (out: Result<
    Option<KeyReply>,
    Error,
>)
    ensures
        match (out, spec_interpret_key_lookup(queried@, r@)) {
            (Ok(Some(k)), Ok(Some(s))) => k@ == s,
            (Ok(None), Ok(None)) => true,
            (Err(e), Err(s)) => e@ == s,
            _ => false,
        },
{
    match r {
        KeyLookup::Success(k) => {
            if k.access_key_id.is_none() {
                return Ok(None);
            }
            match &k.name {
                Some(n) => if *n == *queried {
                    Ok(Some(k))
                } else {
                    Ok(None)
                },
                None => Ok(None),
            }
        },
        KeyLookup::Failure(f) => match f.status {
            Some(code) => if code == 400 {
                Ok(None)
            } else {
                Err(Error::NetworkError(f.detail))
            },
            None => Err(Error::NetworkError(f.detail)),
        },
    }
}

} // verus!
