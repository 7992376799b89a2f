//! Declarative resource model: the three namespaced kinds (instance, bucket,
//! access key), their specs, observed statuses and defaults.
//!
//! Every type carries a mathematical view so that contracts elsewhere can
//! speak about field contents as sequences and plain values.

use vstd::prelude::*;

verus! {

/// Reference to a namespaced object.
pub struct NamespacedReference {
    /// The name of the resource.
    pub name: String,
    /// The containing namespace.
    pub namespace: String,
}

pub struct NamespacedReferenceView {
    pub name: Seq<char>,
    pub namespace: Seq<char>,
}

impl View for NamespacedReference {
    type V = NamespacedReferenceView;

    open spec fn view(&self) -> NamespacedReferenceView {
        NamespacedReferenceView { name: self.name@, namespace: self.namespace@ }
    }
}

impl NamespacedReference {
    pub fn duplicate(&self) -> (r: NamespacedReference)
        ensures
            r@ == self@,
    {
        NamespacedReference { name: self.name.clone(), namespace: self.namespace.clone() }
    }
}

/// Reference to a cluster credential object; either part may be left open.
pub struct SecretRef {
    pub name: Option<String>,
    pub namespace: Option<String>,
}

pub struct SecretRefView {
    pub name: Option<Seq<char>>,
    pub namespace: Option<Seq<char>>,
}

impl View for SecretRef {
    type V = SecretRefView;

    open spec fn view(&self) -> SecretRefView {
        SecretRefView {
            name: match self.name {
                Some(ref n) => Some(n@),
                None => None,
            },
            namespace: match self.namespace {
                Some(ref n) => Some(n@),
                None => None,
            },
        }
    }
}

/// Listening port configuration of an instance.
#[derive(Clone, Copy, PartialEq, Eq, Structural, Debug)]
pub struct PortConfig {
    /// Port used for the admin API.
    pub admin: u16,
    /// Port used for the inter-instance RPC.
    pub rpc: u16,
    /// Port used for handling S3 API traffic.
    pub s3_api: u16,
    /// Port used for hosting buckets as web pages.
    pub s3_web: u16,
}

impl Default for PortConfig {
    /// The stock ports of the storage service.
    fn default() -> (r: PortConfig)
        ensures
            r == (PortConfig { admin: 3903, rpc: 3901, s3_api: 3900, s3_web: 3902 }),
    {
        PortConfig { admin: 3903, rpc: 3901, s3_api: 3900, s3_web: 3902 }
    }
}

/// The default region of an instance.
pub fn region() -> (r: String)
    ensures
        r@ == "garage"@,
{
    String::from_str("garage")
}

/// The default replication mode of an instance.
pub fn replication() -> (r: String)
    ensures
        r@ == "none"@,
{
    String::from_str("none")
}

/// Configuration for an instance of the storage service.
pub struct GarageConfig {
    /// Listening port configuration.
    pub ports: PortConfig,
    /// The S3 region of this instance.
    pub region: String,
    /// The replication mode of this instance.
    pub replication_mode: String,
}

pub struct GarageConfigView {
    pub ports: PortConfig,
    pub region: Seq<char>,
    pub replication_mode: Seq<char>,
}

impl View for GarageConfig {
    type V = GarageConfigView;

    open spec fn view(&self) -> GarageConfigView {
        GarageConfigView {
            ports: self.ports,
            region: self.region@,
            replication_mode: self.replication_mode@,
        }
    }
}

impl Default for GarageConfig {
    /// Stock ports, region "garage", replication mode "none".
    fn default() -> (r: GarageConfig)
        ensures
            r@.ports == (PortConfig { admin: 3903, rpc: 3901, s3_api: 3900, s3_web: 3902 }),
            r@.region == "garage"@,
            r@.replication_mode == "none"@,
    {
        GarageConfig { ports: Default::default(), region: region(), replication_mode: replication() }
    }
}

/// Where the credentials needed for talking to an instance are kept.
pub struct GarageSecrets {
    /// Reference to the admin API credential object, when user-supplied.
    pub admin: Option<SecretRef>,
    /// Reference to the inter-instance RPC credential object, when user-supplied.
    pub rpc: Option<SecretRef>,
}

pub struct GarageSecretsView {
    pub admin: Option<SecretRefView>,
    pub rpc: Option<SecretRefView>,
}

impl View for GarageSecrets {
    type V = GarageSecretsView;

    open spec fn view(&self) -> GarageSecretsView {
        GarageSecretsView {
            admin: match self.admin {
                Some(ref s) => Some(s@),
                None => None,
            },
            rpc: match self.rpc {
                Some(ref s) => Some(s@),
                None => None,
            },
        }
    }
}

/// The storage backing for an instance.
pub struct GarageStorage {
    /// Name of the pre-existing claim holding block metadata.
    pub meta: String,
    /// Ordered list of claim names for data volumes; the index decides the
    /// mount path.
    pub data: Vec<String>,
}

pub struct GarageStorageView {
    pub meta: Seq<char>,
    pub data: Seq<Seq<char>>,
}

impl View for GarageStorage {
    type V = GarageStorageView;

    open spec fn view(&self) -> GarageStorageView {
        GarageStorageView {
            meta: self.meta@,
            data: self.data@.map_values(|s: String| s@),
        }
    }
}

/// Specification of an instance of the storage service.
pub struct GarageSpec {
    /// Whether the operator should register the node into the service's
    /// internal topology on its own.
    pub auto_layout: bool,
    /// The configuration of the instance.
    pub config: GarageConfig,
    /// Where the credentials for the instance are kept.
    pub secrets: GarageSecrets,
    /// The storage backing of the instance.
    pub storage: GarageStorage,
}

pub struct GarageSpecView {
    pub auto_layout: bool,
    pub config: GarageConfigView,
    pub secrets: GarageSecretsView,
    pub storage: GarageStorageView,
}

impl View for GarageSpec {
    type V = GarageSpecView;

    open spec fn view(&self) -> GarageSpecView {
        GarageSpecView {
            auto_layout: self.auto_layout,
            config: self.config@,
            secrets: self.secrets@,
            storage: self.storage@,
        }
    }
}

/// The possible states of an instance.
#[derive(Clone, Copy, PartialEq, Eq, Structural, Debug)]
pub enum GarageState {
    /// The instance is being created.
    Creating,
    /// The instance is undergoing layout changes.
    LayingOut,
    /// The instance is ready to receive traffic.
    Ready,
    /// The instance encountered an error.
    Errored,
}

impl Default for GarageState {
    fn default() -> (r: GarageState)
        ensures
            r == GarageState::Creating,
    {
        GarageState::Creating
    }
}

/// The observed status of an instance.
#[derive(Clone, Copy, PartialEq, Eq, Structural, Debug)]
pub struct GarageStatus {
    /// The total capacity of the instance, in bytes.
    pub capacity: i64,
    /// The current state of the instance.
    pub state: GarageState,
}

impl Default for GarageStatus {
    fn default() -> (r: GarageStatus)
        ensures
            r == (GarageStatus { capacity: 0, state: GarageState::Creating }),
    {
        GarageStatus { capacity: 0, state: GarageState::Creating }
    }
}

/// A declared instance of the storage service, as observed on the cluster.
pub struct Garage {
    /// The object's name.
    pub name: String,
    /// The object's namespace, when set.
    pub namespace: Option<String>,
    /// The declared specification.
    pub spec: GarageSpec,
    /// The observed status, when one has been written.
    pub status: Option<GarageStatus>,
}

pub struct GarageView {
    pub name: Seq<char>,
    pub namespace: Option<Seq<char>>,
    pub spec: GarageSpecView,
    pub status: Option<GarageStatus>,
}

impl View for Garage {
    type V = GarageView;

    open spec fn view(&self) -> GarageView {
        GarageView {
            name: self.name@,
            namespace: match self.namespace {
                Some(ref n) => Some(n@),
                None => None,
            },
            spec: self.spec@,
            status: self.status,
        }
    }
}

/// The name of a sub-object derived from an instance: the instance's own
/// name, a dash, then the given suffix.
pub open spec fn spec_prefixed_name(name: Seq<char>, rest: Seq<char>) -> Seq<char> {
    name + seq!['-'] + rest
}

impl Garage {
    /// Generate a name with this instance as a prefix.
    pub fn prefixed_name(&self, rest: &str) -> (r: String)
        ensures
            r@ == spec_prefixed_name(self.name@, rest@),
    {
        proof {
            reveal_strlit("-");
        }
        let mut s = self.name.clone();
        s.append("-");
        s.append(rest);
        s
    }
}

/// Quotas declared for a bucket. The maximum size is kept in the
/// human-readable quantity notation it was written in ("5Gi", "100M", ...).
pub struct BucketQuotas {
    /// The largest total size the bucket may reach.
    pub max_size: Option<String>,
    /// The maximum number of objects the bucket may hold.
    pub max_object_count: Option<usize>,
}

pub struct BucketQuotasView {
    pub max_size: Option<Seq<char>>,
    pub max_object_count: Option<usize>,
}

impl View for BucketQuotas {
    type V = BucketQuotasView;

    open spec fn view(&self) -> BucketQuotasView {
        BucketQuotasView {
            max_size: match self.max_size {
                Some(ref s) => Some(s@),
                None => None,
            },
            max_object_count: self.max_object_count,
        }
    }
}

/// Specification of a bucket in an instance.
pub struct BucketSpec {
    /// A reference to the instance owning this bucket.
    pub garage_ref: NamespacedReference,
    /// Quotas for this bucket.
    pub quotas: BucketQuotas,
}

pub struct BucketSpecView {
    pub garage_ref: NamespacedReferenceView,
    pub quotas: BucketQuotasView,
}

impl View for BucketSpec {
    type V = BucketSpecView;

    open spec fn view(&self) -> BucketSpecView {
        BucketSpecView { garage_ref: self.garage_ref@, quotas: self.quotas@ }
    }
}

/// The possible states of a bucket.
#[derive(Clone, Copy, PartialEq, Eq, Structural, Debug)]
pub enum BucketState {
    /// The bucket is in the process of being created.
    Creating,
    /// Configuration changes are being applied.
    Configuring,
    /// The bucket is ready to operate.
    Ready,
    /// The bucket encountered an error.
    Errored,
}

impl Default for BucketState {
    fn default() -> (r: BucketState)
        ensures
            r == BucketState::Creating,
    {
        BucketState::Creating
    }
}

/// The observed status of a bucket.
pub struct BucketStatus {
    /// The storage service's internal id for this bucket.
    pub id: String,
    /// The state of the bucket.
    pub state: BucketState,
}

pub struct BucketStatusView {
    pub id: Seq<char>,
    pub state: BucketState,
}

impl View for BucketStatus {
    type V = BucketStatusView;

    open spec fn view(&self) -> BucketStatusView {
        BucketStatusView { id: self.id@, state: self.state }
    }
}

impl Default for BucketStatus {
    fn default() -> (r: BucketStatus)
        ensures
            r@.id == Seq::<char>::empty(),
            r@.state == BucketState::Creating,
    {
        BucketStatus { id: String::new(), state: BucketState::Creating }
    }
}

/// A declared bucket, as observed on the cluster.
pub struct Bucket {
    /// The object's name; doubles as the bucket's global alias.
    pub name: String,
    /// The object's namespace, when set.
    pub namespace: Option<String>,
    /// The declared specification.
    pub spec: BucketSpec,
    /// The observed status, when one has been written.
    pub status: Option<BucketStatus>,
}

pub struct BucketView {
    pub name: Seq<char>,
    pub namespace: Option<Seq<char>>,
    pub spec: BucketSpecView,
    pub status: Option<BucketStatusView>,
}

impl View for Bucket {
    type V = BucketView;

    open spec fn view(&self) -> BucketView {
        BucketView {
            name: self.name@,
            namespace: match self.namespace {
                Some(ref n) => Some(n@),
                None => None,
            },
            spec: self.spec@,
            status: match self.status {
                Some(ref s) => Some(s@),
                None => None,
            },
        }
    }
}

/// The permissions requested for an access key.
#[derive(Clone, Copy, PartialEq, Eq, Structural, Debug)]
pub struct AccessKeyPermissions {
    /// Allow reading files from the bucket.
    pub read: bool,
    /// Allow writing files to the bucket.
    pub write: bool,
    /// Allow modifying the configuration of the bucket.
    pub owner: bool,
}

/// The friendly rendering of a permission triple: one character each for
/// read, write and owner, with a dash for an absent permission.
pub open spec fn spec_friendly(p: AccessKeyPermissions) -> Seq<char> {
    seq![
        if p.read { 'R' } else { '-' },
        if p.write { 'W' } else { '-' },
        if p.owner { 'O' } else { '-' },
    ]
}

impl AccessKeyPermissions {
    /// Render the permissions in the three-character "RWO" style.
    pub fn friendly(&self) -> (r: String)
        ensures
            r@ == spec_friendly(*self),
    {
        proof {
            reveal_strlit("R");
            reveal_strlit("W");
            reveal_strlit("O");
            reveal_strlit("-");
        }
        let mut s = String::from_str(if self.read { "R" } else { "-" });
        s.append(if self.write { "W" } else { "-" });
        s.append(if self.owner { "O" } else { "-" });
        s
    }
}

/// Specification of an access key for one bucket.
pub struct AccessKeySpec {
    /// A reference to the instance the bucket lives in.
    pub garage_ref: NamespacedReference,
    /// A reference to the bucket this key opens.
    pub bucket_ref: NamespacedReference,
    /// Permissions associated with the key.
    pub permissions: AccessKeyPermissions,
    /// Where the issued credential pair is to be persisted.
    pub secret_ref: SecretRef,
}

pub struct AccessKeySpecView {
    pub garage_ref: NamespacedReferenceView,
    pub bucket_ref: NamespacedReferenceView,
    pub permissions: AccessKeyPermissions,
    pub secret_ref: SecretRefView,
}

impl View for AccessKeySpec {
    type V = AccessKeySpecView;

    open spec fn view(&self) -> AccessKeySpecView {
        AccessKeySpecView {
            garage_ref: self.garage_ref@,
            bucket_ref: self.bucket_ref@,
            permissions: self.permissions,
            secret_ref: self.secret_ref@,
        }
    }
}

/// The possible states of an access key.
#[derive(Clone, Copy, PartialEq, Eq, Structural, Debug)]
pub enum AccessKeyState {
    /// The access key is in the process of being created.
    Creating,
    /// The access key is being tied to its bucket.
    Configuring,
    /// The access key is ready for use.
    Ready,
    /// The access key encountered an error.
    Errored,
}

impl Default for AccessKeyState {
    fn default() -> (r: AccessKeyState)
        ensures
            r == AccessKeyState::Creating,
    {
        AccessKeyState::Creating
    }
}

/// The observed status of an access key.
pub struct AccessKeyStatus {
    /// The storage service's internal id for this key.
    pub id: String,
    /// The current state of the key.
    pub state: AccessKeyState,
    /// The friendly rendering of the granted permissions.
    pub permissions_friendly: String,
}

pub struct AccessKeyStatusView {
    pub id: Seq<char>,
    pub state: AccessKeyState,
    pub permissions_friendly: Seq<char>,
}

impl View for AccessKeyStatus {
    type V = AccessKeyStatusView;

    open spec fn view(&self) -> AccessKeyStatusView {
        AccessKeyStatusView {
            id: self.id@,
            state: self.state,
            permissions_friendly: self.permissions_friendly@,
        }
    }
}

impl Default for AccessKeyStatus {
    fn default() -> (r: AccessKeyStatus)
        ensures
            r@.id == Seq::<char>::empty(),
            r@.state == AccessKeyState::Creating,
            r@.permissions_friendly == Seq::<char>::empty(),
    {
        AccessKeyStatus {
            id: String::new(),
            state: AccessKeyState::Creating,
            permissions_friendly: String::new(),
        }
    }
}

/// A declared access key, as observed on the cluster.
pub struct AccessKey {
    /// The object's name; doubles as the key's name in the storage service.
    pub name: String,
    /// The object's namespace, when set.
    pub namespace: Option<String>,
    /// The declared specification.
    pub spec: AccessKeySpec,
    /// The observed status, when one has been written.
    pub status: Option<AccessKeyStatus>,
}

pub struct AccessKeyView {
    pub name: Seq<char>,
    pub namespace: Option<Seq<char>>,
    pub spec: AccessKeySpecView,
    pub status: Option<AccessKeyStatusView>,
}

impl View for AccessKey {
    type V = AccessKeyView;

    open spec fn view(&self) -> AccessKeyView {
        AccessKeyView {
            name: self.name@,
            namespace: match self.namespace {
                Some(ref n) => Some(n@),
                None => None,
            },
            spec: self.spec@,
            status: match self.status {
                Some(ref s) => Some(s@),
                None => None,
            },
        }
    }
}

} // verus!
