//! The desired-state projector: pure functions from an instance declaration
//! to the sub-objects the operator maintains for it — the configuration
//! text, the generated credentials, the service endpoint and the workload.
//! The unverified driver turns these plans into cluster API calls.

use vstd::prelude::*;

use crate::admin::quantity_bytes;
use crate::errors::Error;
use crate::errors::ErrorView;
use crate::admin::spec_admin_token_secret_name;
use crate::resources::Garage;
use crate::resources::spec_prefixed_name;
use crate::resources::GarageConfig;
use crate::text::dec_int_of;
use crate::text::dec_of;
use crate::text::i64_to_string;
use crate::text::u64_to_string;

verus! {

/// The byte counts a claim's capacity entries denote, when every entry
/// parses; absence when any does not.
pub open spec fn spec_capacity_bytes(texts: Seq<Seq<char>>) -> Option<Seq<i64>>
    decreases texts.len(),
{
    if texts.len() == 0 {
        Some(Seq::empty())
    } else {
        match (spec_capacity_bytes(texts.drop_last()), quantity_bytes(texts.last())) {
            (Some(init), Some(b)) => Some(init.push(b)),
            _ => None,
        }
    }
}

/// The exact sum of a sequence of byte counts, as an unbounded integer.
pub open spec fn spec_sum(caps: Seq<i64>) -> int
    decreases caps.len(),
{
    if caps.len() == 0 {
        0
    } else {
        spec_sum(caps.drop_last()) + caps.last()
    }
}

/// The capacity of one referenced storage claim, as observed: `None` when
/// the claim does not exist, else the capacity entries of its status in
/// quantity notation.
pub struct ClaimObservation {
    /// The claim's name, as referenced by the instance.
    pub name: String,
    /// The values of the claim's capacity entries, absent with the claim.
    pub capacities: Option<Vec<String>>,
}

pub struct ClaimObservationView {
    pub name: Seq<char>,
    pub capacities: Option<Seq<Seq<char>>>,
}

impl View for ClaimObservation {
    type V = ClaimObservationView;

    open spec fn view(&self) -> ClaimObservationView {
        ClaimObservationView {
            name: self.name@,
            capacities: match self.capacities {
                Some(ref v) => Some(v@.map_values(|s: String| s@)),
                None => None,
            },
        }
    }
}

/// The claim exists, every capacity entry denotes a byte count, and the
/// exact sum fits an i64.
pub open spec fn spec_claim_ok(c: ClaimObservationView) -> bool {
    &&& c.capacities matches Some(texts)
    &&& spec_capacity_bytes(c.capacities.unwrap()) matches Some(bytes)
    &&& i64::MIN <= spec_sum(spec_capacity_bytes(c.capacities.unwrap()).unwrap()) <= i64::MAX
}

/// The byte count of a well-formed claim observation.
pub open spec fn spec_claim_total(c: ClaimObservationView) -> int {
    spec_sum(spec_capacity_bytes(c.capacities.unwrap()).unwrap())
}

/// The error an ill-formed claim observation ends in: absence of the claim
/// is a missing data source; anything else is a coding failure. Both name
/// the claim.
pub open spec fn spec_claim_error(c: ClaimObservationView) -> ErrorView {
    if c.capacities is None {
        ErrorView::MissingDataSource(c.name)
    } else {
        ErrorView::SerializationError(c.name)
    }
}

/// One entry that does not denote a byte count spoils the whole parse.
proof fn lemma_capacity_bytes_none(texts: Seq<Seq<char>>, i: int)
    requires
        0 <= i < texts.len(),
        quantity_bytes(texts[i]) is None,
    ensures
        spec_capacity_bytes(texts) is None,
    decreases texts.len(),
{
    if i < texts.len() - 1 {
        lemma_capacity_bytes_none(texts.drop_last(), i);
    }
}

/// The capacity in bytes of one claim: the sum of its capacity entries.
///
/// A claim that does not exist is a missing-data-source error naming it; an
/// entry that does not denote an i64 byte count, or a sum outside i64, is a
/// coding error naming the claim too.
pub fn claim_capacity_bytes(claim: &ClaimObservation) -> (r: Result<i64, Error>)
    ensures
        match r {
            Ok(total) => spec_claim_ok(claim@) && total == spec_claim_total(claim@),
            Err(e) => !spec_claim_ok(claim@) && e@ == spec_claim_error(claim@),
        },
{
    match &claim.capacities {
        Some(texts) => {
            let n = texts.len();
            let mut i: usize = 0;
            let mut total: i128 = 0;
            let ghost mut bytes_seen: Seq<i64> = Seq::empty();
            while i < n
                invariant
                    claim@.capacities == Some(texts@.map_values(|s: String| s@)),
                    claim@.capacities matches Some(m) && m.len() == n,
                    i <= n,
                    spec_capacity_bytes(texts@.map_values(|s: String| s@).take(i as int)) == Some(
                        bytes_seen,
                    ),
                    total == spec_sum(bytes_seen),
                    i64::MIN * i <= total <= i64::MAX * i,
                decreases n - i,
            {
                proof {
                    assert(texts@.map_values(|s: String| s@).len() == texts@.len());
                }
                let parsed = crate::admin::parse_quantity_bytes(texts[i].as_str());
                match parsed {
                    Some(b) => {
                        proof {
                            let mapped = texts@.map_values(|s: String| s@);
                            assert(mapped.take(i + 1).drop_last() =~= mapped.take(i as int));
                            assert(mapped.take(i + 1).last() == texts@[i as int]@);
                            bytes_seen = bytes_seen.push(b);
                            assert(bytes_seen.drop_last() =~= spec_capacity_bytes(
                                mapped.take(i as int),
                            ).unwrap());
                        }
                        total = total + b as i128;
                        i = i + 1;
                    },
                    None => {
                        proof {
                            let mapped = texts@.map_values(|s: String| s@);
                            lemma_capacity_bytes_none(mapped, i as int);
                        }
                        return Err(Error::SerializationError(claim.name.clone()));
                    },
                }
            }
            proof {
                assert(texts@.map_values(|s: String| s@).take(n as int) =~= texts@.map_values(
                    |s: String| s@,
                ));
            }
            if total < i64::MIN as i128 || total > i64::MAX as i128 {
                return Err(Error::SerializationError(claim.name.clone()));
            }
            Ok(total as i64)
        },
        None => Err(Error::MissingDataSource(claim.name.clone())),
    }
}

/// The capacities in bytes of every referenced claim, in declaration order.
/// Fails exactly when some claim is absent or ill-formed, with that claim's
/// error.
pub fn claim_capacities(claims: &Vec<ClaimObservation>) -> (r: Result<Vec<i64>, Error>)
    ensures
        match r {
            Ok(caps) => caps@.len() == claims@.len() && forall|i: int|
                0 <= i < claims@.len() ==> spec_claim_ok((#[trigger] claims@[i])@) && caps@[i]
                    == spec_claim_total(claims@[i]@),
            Err(e) => exists|i: int|
                {
                    &&& 0 <= i < claims@.len()
                    &&& !spec_claim_ok((#[trigger] claims@[i])@)
                    &&& forall|j: int| 0 <= j < i ==> spec_claim_ok((#[trigger] claims@[j])@)
                    &&& e@ == spec_claim_error(claims@[i]@)
                },
        },
{
    let n = claims.len();
    let mut out: Vec<i64> = Vec::new();
    let mut i: usize = 0;
    while i < n
        invariant
            n == claims@.len(),
            i <= n,
            out@.len() == i,
            forall|j: int|
                0 <= j < i ==> spec_claim_ok((#[trigger] claims@[j])@) && out@[j]
                    == spec_claim_total(claims@[j]@),
        decreases n - i,
    {
        match claim_capacity_bytes(&claims[i]) {
            Ok(b) => {
                out.push(b);
                i = i + 1;
            },
            Err(e) => {
                proof {
                    assert(!spec_claim_ok((claims@[i as int])@) && e@ == spec_claim_error(
                        claims@[i as int]@,
                    ));
                }
                return Err(e);
            },
        }
    }
    Ok(out)
}

/// The total capacity of an instance: the exact sum of its data claims'
/// byte counts. A sum outside i64 is a coding error naming the instance.
pub fn total_capacity(instance_name: &String, caps: &Vec<i64>) -> (r: Result<i64, Error>)
    ensures
        match r {
            Ok(total) => total == spec_sum(caps@) && i64::MIN <= spec_sum(caps@) <= i64::MAX,
            Err(e) => e@ == ErrorView::SerializationError(instance_name@) && !(i64::MIN
                <= spec_sum(caps@) <= i64::MAX),
        },
{
    let n = caps.len();
    let mut i: usize = 0;
    let mut total: i128 = 0;
    while i < n
        invariant
            n == caps@.len(),
            i <= n,
            total == spec_sum(caps@.take(i as int)),
            i64::MIN * i <= total <= i64::MAX * i,
        decreases n - i,
    {
        proof {
            assert(caps@.take(i + 1).drop_last() =~= caps@.take(i as int));
        }
        total = total + caps[i] as i128;
        i = i + 1;
    }
    proof {
        assert(caps@.take(n as int) =~= caps@);
    }
    if total < i64::MIN as i128 || total > i64::MAX as i128 {
        return Err(Error::SerializationError(instance_name.clone()));
    }
    Ok(total as i64)
}

/// One data directory entry of the configuration text: the mount path for
/// the claim at `index` and its capacity in bytes.
pub open spec fn spec_data_dir_entry(index: int, cap: i64) -> Seq<char> {
    "{ path = \"/mnt/disk"@ + dec_of(index as nat) + "\", capacity = \""@ + dec_int_of(cap as int)
        + "B\" }"@
}

/// The comma-joined data directory entries, one per claim, in order.
pub open spec fn spec_data_dir_list(caps: Seq<i64>) -> Seq<char>
    decreases caps.len(),
{
    if caps.len() == 0 {
        Seq::empty()
    } else if caps.len() == 1 {
        spec_data_dir_entry(0, caps[0])
    } else {
        spec_data_dir_list(caps.drop_last()) + ","@ + spec_data_dir_entry(
            caps.len() - 1,
            caps.last(),
        )
    }
}

/// The configuration text of an instance: the fixed template with the data
/// directories, ports, region and replication mode filled in.
pub open spec fn spec_config_toml(c: crate::resources::GarageConfigView, caps: Seq<i64>) -> Seq<
    char,
> {
    "metadata_dir = \"/mnt/meta\"\ndata_dir     = [ "@ + spec_data_dir_list(caps)
        + " ]\ndb_engine    = \"lmdb\"\n\nreplication_mode = \""@ + c.replication_mode
        + "\"\n\n# RPC info\nrpc_secret_file = \"/secrets/rpc.key\"\nrpc_bind_addr   = \"[::]:"@
        + dec_of(c.ports.rpc as nat) + "\"\n\n[s3_api]\ns3_region = \""@ + c.region
        + "\"\napi_bind_addr = \"[::]:"@ + dec_of(c.ports.s3_api as nat)
        + "\"\n\n[s3_web]\nbind_addr = \"[::]:"@ + dec_of(c.ports.s3_web as nat)
        + "\"\nroot_domain = \".web.garage.localhost\"\nindex = \"index.html\"\n\n[admin]\napi_bind_addr = \"0.0.0.0:"@
        + dec_of(c.ports.admin as nat) + "\"\nadmin_token_file = \"/secrets/admin.key\"\n"@
}

fn data_dir_entry(index: usize, cap: i64) -> (r: String)
    ensures
        r@ == spec_data_dir_entry(index as int, cap),
{
    let mut s = String::from_str("{ path = \"/mnt/disk");
    let index_text = u64_to_string(index as u64);
    s.append(index_text.as_str());
    s.append("\", capacity = \"");
    let cap_text = i64_to_string(cap);
    s.append(cap_text.as_str());
    s.append("B\" }");
    proof {
        assert(s@ =~= spec_data_dir_entry(index as int, cap));
    }
    s
}

fn data_dir_list(caps: &Vec<i64>) -> (r: String)
    ensures
        r@ == spec_data_dir_list(caps@),
{
    let n = caps.len();
    let mut s = String::new();
    let mut i: usize = 0;
    while i < n
        invariant
            n == caps@.len(),
            i <= n,
            s@ == spec_data_dir_list(caps@.take(i as int)),
        decreases n - i,
    {
        proof {
            assert(caps@.take(i + 1).drop_last() =~= caps@.take(i as int));
        }
        if i > 0 {
            s.append(",");
        }
        let entry = data_dir_entry(i, caps[i]);
        s.append(entry.as_str());
        proof {
            if i == 0 {
                assert(s@ =~= spec_data_dir_list(caps@.take(1)));
            } else {
                assert(s@ =~= spec_data_dir_list(caps@.take(i + 1)));
            }
        }
        i = i + 1;
    }
    proof {
        assert(caps@.take(n as int) =~= caps@);
    }
    s
}

/// Render the configuration text for an instance, given the byte capacities
/// of its data claims in declaration order.
pub fn config_toml(config: &GarageConfig, caps: &Vec<i64>) -> (r: String)
    ensures
        r@ == spec_config_toml(config@, caps@),
{
    let mut s = String::from_str("metadata_dir = \"/mnt/meta\"\ndata_dir     = [ ");
    let entries = data_dir_list(caps);
    s.append(entries.as_str());
    s.append(" ]\ndb_engine    = \"lmdb\"\n\nreplication_mode = \"");
    s.append(config.replication_mode.as_str());
    s.append("\"\n\n# RPC info\nrpc_secret_file = \"/secrets/rpc.key\"\nrpc_bind_addr   = \"[::]:");
    let rpc_text = u64_to_string(config.ports.rpc as u64);
    s.append(rpc_text.as_str());
    s.append("\"\n\n[s3_api]\ns3_region = \"");
    s.append(config.region.as_str());
    s.append("\"\napi_bind_addr = \"[::]:");
    let s3_text = u64_to_string(config.ports.s3_api as u64);
    s.append(s3_text.as_str());
    s.append("\"\n\n[s3_web]\nbind_addr = \"[::]:");
    let web_text = u64_to_string(config.ports.s3_web as u64);
    s.append(web_text.as_str());
    s.append(
        "\"\nroot_domain = \".web.garage.localhost\"\nindex = \"index.html\"\n\n[admin]\napi_bind_addr = \"0.0.0.0:",
    );
    let admin_text = u64_to_string(config.ports.admin as u64);
    s.append(admin_text.as_str());
    s.append("\"\nadmin_token_file = \"/secrets/admin.key\"\n");
    proof {
        assert(s@ =~= spec_config_toml(config@, caps@));
    }
    s
}

/// One label attached to every projected sub-object.
pub struct LabelPair {
    pub name: String,
    pub value: String,
}

pub struct LabelPairView {
    pub name: Seq<char>,
    pub value: Seq<char>,
}

impl View for LabelPair {
    type V = LabelPairView;

    open spec fn view(&self) -> LabelPairView {
        LabelPairView { name: self.name@, value: self.value@ }
    }
}

/// The labels every projected sub-object carries: the owning instance's
/// name, and the managed service version.
pub open spec fn spec_instance_labels(name: Seq<char>) -> Seq<LabelPairView> {
    seq![
        LabelPairView { name: "app.kubernetes.io/name"@, value: name },
        LabelPairView { name: "app.kubernetes.io/version"@, value: crate::GARAGE_VERSION@ },
    ]
}

/// The pod selector of the service endpoint: the instance's name label
/// alone. The version label stays off the selector, so that endpoints keep
/// selecting the pods across a version upgrade.
pub open spec fn spec_selector_labels(name: Seq<char>) -> Seq<LabelPairView> {
    seq![LabelPairView { name: "app.kubernetes.io/name"@, value: name }]
}

/// The common labels for sub-objects of an instance.
pub fn instance_labels(garage: &Garage) -> (r: Vec<LabelPair>)
    ensures
        r@.map_values(|l: LabelPair| l@) == spec_instance_labels(garage.name@),
{
    let mut labels: Vec<LabelPair> = Vec::new();
    labels.push(
        LabelPair {
            name: String::from_str("app.kubernetes.io/name"),
            value: garage.name.clone(),
        },
    );
    labels.push(
        LabelPair {
            name: String::from_str("app.kubernetes.io/version"),
            value: String::from_str(crate::GARAGE_VERSION),
        },
    );
    proof {
        assert(labels@.map_values(|l: LabelPair| l@) =~= spec_instance_labels(garage.name@));
    }
    labels
}

/// One named port of the service endpoint or the workload container.
pub struct PortPlan {
    pub name: String,
    pub port: u16,
}

pub struct PortPlanView {
    pub name: Seq<char>,
    pub port: u16,
}

impl View for PortPlan {
    type V = PortPlanView;

    open spec fn view(&self) -> PortPlanView {
        PortPlanView { name: self.name@, port: self.port }
    }
}

/// The service endpoint projected for an instance: all four TCP ports under
/// one object, selecting the instance's pods by name label.
pub struct ServicePlan {
    /// The object's name.
    pub name: String,
    /// The exposed TCP ports, in declaration order.
    pub ports: Vec<PortPlan>,
    /// The pod selector: the instance's name label alone.
    pub selector: Vec<LabelPair>,
    /// The labels on the object itself.
    pub labels: Vec<LabelPair>,
}

/// The four ports of the service endpoint, in its declaration order.
pub open spec fn spec_service_ports(p: crate::resources::PortConfig) -> Seq<PortPlanView> {
    seq![
        PortPlanView { name: "admin"@, port: p.admin },
        PortPlanView { name: "rpc"@, port: p.rpc },
        PortPlanView { name: "s3-api"@, port: p.s3_api },
        PortPlanView { name: "s3-web"@, port: p.s3_web },
    ]
}

/// Project the service endpoint of an instance: its four ports under the
/// derived name, selecting the instance's pods by name label alone.
pub fn service_plan(garage: &Garage) -> (r: ServicePlan)
    ensures
        r.name@ == spec_prefixed_name(garage.name@, "api"@),
        r.ports@.map_values(|p: PortPlan| p@) == spec_service_ports(garage.spec.config.ports),
        r.selector@.map_values(|l: LabelPair| l@) == spec_selector_labels(garage.name@),
        r.labels@.map_values(|l: LabelPair| l@) == spec_instance_labels(garage.name@),
{
    let ports = &garage.spec.config.ports;
    let mut port_plans: Vec<PortPlan> = Vec::new();
    port_plans.push(PortPlan { name: String::from_str("admin"), port: ports.admin });
    port_plans.push(PortPlan { name: String::from_str("rpc"), port: ports.rpc });
    port_plans.push(PortPlan { name: String::from_str("s3-api"), port: ports.s3_api });
    port_plans.push(PortPlan { name: String::from_str("s3-web"), port: ports.s3_web });
    proof {
        assert(port_plans@.map_values(|p: PortPlan| p@) =~= spec_service_ports(
            garage.spec.config.ports,
        ));
    }
    let mut selector: Vec<LabelPair> = Vec::new();
    selector.push(
        LabelPair {
            name: String::from_str("app.kubernetes.io/name"),
            value: garage.name.clone(),
        },
    );
    proof {
        assert(selector@.map_values(|l: LabelPair| l@) =~= spec_selector_labels(garage.name@));
    }
    ServicePlan {
        name: garage.prefixed_name("api"),
        ports: port_plans,
        selector,
        labels: instance_labels(garage),
    }
}

/// Where a projected volume draws its contents from.
pub enum VolumeSource {
    /// The configuration object of the given name.
    Config(String),
    /// The credential object of the given name, mounted with mode 0600.
    Credential(String),
    /// The pre-existing storage claim of the given name.
    Claim(String),
}

pub enum VolumeSourceView {
    Config(Seq<char>),
    Credential(Seq<char>),
    Claim(Seq<char>),
}

impl View for VolumeSource {
    type V = VolumeSourceView;

    open spec fn view(&self) -> VolumeSourceView {
        match self {
            VolumeSource::Config(n) => VolumeSourceView::Config(n@),
            VolumeSource::Credential(n) => VolumeSourceView::Credential(n@),
            VolumeSource::Claim(n) => VolumeSourceView::Claim(n@),
        }
    }
}

/// One volume of the projected workload.
pub struct VolumePlan {
    pub name: String,
    pub source: VolumeSource,
}

pub struct VolumePlanView {
    pub name: Seq<char>,
    pub source: VolumeSourceView,
}

impl View for VolumePlan {
    type V = VolumePlanView;

    open spec fn view(&self) -> VolumePlanView {
        VolumePlanView { name: self.name@, source: self.source@ }
    }
}

/// One volume mount of the projected workload's container.
pub struct MountPlan {
    pub name: String,
    pub mount_path: String,
    pub sub_path: Option<String>,
    pub read_only: bool,
}

pub struct MountPlanView {
    pub name: Seq<char>,
    pub mount_path: Seq<char>,
    pub sub_path: Option<Seq<char>>,
    pub read_only: bool,
}

impl View for MountPlan {
    type V = MountPlanView;

    open spec fn view(&self) -> MountPlanView {
        MountPlanView {
            name: self.name@,
            mount_path: self.mount_path@,
            sub_path: match self.sub_path {
                Some(ref s) => Some(s@),
                None => None,
            },
            read_only: self.read_only,
        }
    }
}

/// The name of the credential object backing the RPC secret volume: the
/// user-supplied reference when there is one, else the derived default.
pub open spec fn spec_rpc_secret_name(g: crate::resources::GarageView) -> Seq<char> {
    match g.spec.secrets.rpc {
        Some(r) => match r.name {
            Some(n) => n,
            None => spec_prefixed_name(g.name, "rpc.key"@),
        },
        None => spec_prefixed_name(g.name, "rpc.key"@),
    }
}

fn rpc_secret_name(garage: &Garage) -> (r: String)
    ensures
        r@ == spec_rpc_secret_name(garage@),
{
    match &garage.spec.secrets.rpc {
        Some(sr) => match &sr.name {
            Some(n) => n.clone(),
            None => garage.prefixed_name("rpc.key"),
        },
        None => garage.prefixed_name("rpc.key"),
    }
}

/// The volume name for the data claim at `index`.
pub open spec fn spec_data_volume_name(index: int) -> Seq<char> {
    "data-pvc-"@ + dec_of(index as nat)
}

/// The container path the data claim at `index` is mounted on.
pub open spec fn spec_data_mount_path(index: int) -> Seq<char> {
    "/mnt/data"@ + dec_of(index as nat)
}

/// The four fixed mounts of the workload container: the configuration file,
/// the two credentials, and the metadata claim.
pub open spec fn spec_fixed_mounts() -> Seq<MountPlanView> {
    seq![
        MountPlanView {
            name: "config"@,
            mount_path: "/etc/garage.toml"@,
            sub_path: Some("garage.toml"@),
            read_only: true,
        },
        MountPlanView {
            name: "admin-secret"@,
            mount_path: "/secrets/admin.key"@,
            sub_path: Some("key"@),
            read_only: true,
        },
        MountPlanView {
            name: "rpc-secret"@,
            mount_path: "/secrets/rpc.key"@,
            sub_path: Some("key"@),
            read_only: true,
        },
        MountPlanView {
            name: "meta-pvc"@,
            mount_path: "/mnt/meta"@,
            sub_path: None,
            read_only: false,
        },
    ]
}

/// The four fixed volumes of the workload, for an instance `g`.
pub open spec fn spec_fixed_volumes(g: crate::resources::GarageView) -> Seq<VolumePlanView> {
    seq![
        VolumePlanView {
            name: "config"@,
            source: VolumeSourceView::Config(spec_prefixed_name(g.name, "config"@)),
        },
        VolumePlanView {
            name: "admin-secret"@,
            source: VolumeSourceView::Credential(spec_admin_token_secret_name(g)),
        },
        VolumePlanView {
            name: "rpc-secret"@,
            source: VolumeSourceView::Credential(spec_rpc_secret_name(g)),
        },
        VolumePlanView { name: "meta-pvc"@, source: VolumeSourceView::Claim(g.spec.storage.meta) },
    ]
}

/// The four container ports of the workload, in its declaration order.
pub open spec fn spec_container_ports(p: crate::resources::PortConfig) -> Seq<PortPlanView> {
    seq![
        PortPlanView { name: "s3-api"@, port: p.s3_api },
        PortPlanView { name: "rpc"@, port: p.rpc },
        PortPlanView { name: "s3-web"@, port: p.s3_web },
        PortPlanView { name: "admin"@, port: p.admin },
    ]
}

/// The workload projected for an instance: one replica of the upstream
/// container image with the config, credentials and claims mounted.
pub struct WorkloadPlan {
    /// The object's name: the instance's own name.
    pub name: String,
    /// The container image, tagged with the configured service version.
    pub image: String,
    /// The labels on the object, also used as its pod selector.
    pub labels: Vec<LabelPair>,
    /// The container ports, in declaration order.
    pub ports: Vec<PortPlan>,
    /// The container's volume mounts: the four fixed ones, then one per
    /// data claim in order.
    pub mounts: Vec<MountPlan>,
    /// The pod's volumes: the four fixed ones, then one per data claim.
    pub volumes: Vec<VolumePlan>,
}

/// Project the workload of an instance, with the container image tagged
/// `version`.
pub fn workload_plan(garage: &Garage, version: &String) -> (r: WorkloadPlan)
    ensures
        r.name@ == garage.name@,
        r.image@ == "dxflrs/garage:"@ + version@,
        r.labels@.map_values(|l: LabelPair| l@) == spec_instance_labels(garage.name@),
        r.ports@.map_values(|p: PortPlan| p@) == spec_container_ports(garage.spec.config.ports),
        r.mounts@.len() == 4 + garage.spec.storage.data@.len(),
        r.mounts@.map_values(|m: MountPlan| m@).take(4) == spec_fixed_mounts(),
        forall|i: int|
            0 <= i < garage.spec.storage.data@.len() ==> (#[trigger] r.mounts@[4 + i])@
                == (MountPlanView {
                name: spec_data_volume_name(i),
                mount_path: spec_data_mount_path(i),
                sub_path: None,
                read_only: false,
            }),
        r.volumes@.len() == 4 + garage.spec.storage.data@.len(),
        r.volumes@.map_values(|v: VolumePlan| v@).take(4) == spec_fixed_volumes(garage@),
        forall|i: int|
            0 <= i < garage.spec.storage.data@.len() ==> (#[trigger] r.volumes@[4 + i])@
                == (VolumePlanView {
                name: spec_data_volume_name(i),
                source: VolumeSourceView::Claim(garage@.spec.storage.data[i]),
            }),
{
    proof {
        reveal_strlit("dxflrs/garage:");
    }
    let mut image = String::from_str("dxflrs/garage:");
    image.append(version.as_str());

    let ports = &garage.spec.config.ports;
    let mut port_plans: Vec<PortPlan> = Vec::new();
    port_plans.push(PortPlan { name: String::from_str("s3-api"), port: ports.s3_api });
    port_plans.push(PortPlan { name: String::from_str("rpc"), port: ports.rpc });
    port_plans.push(PortPlan { name: String::from_str("s3-web"), port: ports.s3_web });
    port_plans.push(PortPlan { name: String::from_str("admin"), port: ports.admin });
    proof {
        assert(port_plans@.map_values(|p: PortPlan| p@) =~= spec_container_ports(
            garage.spec.config.ports,
        ));
    }

    let mut mounts: Vec<MountPlan> = Vec::new();
    mounts.push(
        MountPlan {
            name: String::from_str("config"),
            mount_path: String::from_str("/etc/garage.toml"),
            sub_path: Some(String::from_str("garage.toml")),
            read_only: true,
        },
    );
    mounts.push(
        MountPlan {
            name: String::from_str("admin-secret"),
            mount_path: String::from_str("/secrets/admin.key"),
            sub_path: Some(String::from_str("key")),
            read_only: true,
        },
    );
    mounts.push(
        MountPlan {
            name: String::from_str("rpc-secret"),
            mount_path: String::from_str("/secrets/rpc.key"),
            sub_path: Some(String::from_str("key")),
            read_only: true,
        },
    );
    mounts.push(
        MountPlan {
            name: String::from_str("meta-pvc"),
            mount_path: String::from_str("/mnt/meta"),
            sub_path: None,
            read_only: false,
        },
    );

    let mut volumes: Vec<VolumePlan> = Vec::new();
    volumes.push(
        VolumePlan {
            name: String::from_str("config"),
            source: VolumeSource::Config(garage.prefixed_name("config")),
        },
    );
    volumes.push(
        VolumePlan {
            name: String::from_str("admin-secret"),
            source: VolumeSource::Credential(crate::admin::admin_token_secret_name(garage)),
        },
    );
    volumes.push(
        VolumePlan {
            name: String::from_str("rpc-secret"),
            source: VolumeSource::Credential(rpc_secret_name(garage)),
        },
    );
    volumes.push(
        VolumePlan {
            name: String::from_str("meta-pvc"),
            source: VolumeSource::Claim(garage.spec.storage.meta.clone()),
        },
    );
    proof {
        assert(mounts@.map_values(|m: MountPlan| m@) =~= spec_fixed_mounts());
        assert(volumes@.map_values(|v: VolumePlan| v@) =~= spec_fixed_volumes(garage@));
    }

    let data = &garage.spec.storage.data;
    let n = data.len();
    let mut i: usize = 0;
    while i < n
        invariant
            data@ == garage.spec.storage.data@,
            n == data@.len(),
            i <= n,
            mounts@.len() == 4 + i,
            volumes@.len() == 4 + i,
            mounts@.map_values(|m: MountPlan| m@).take(4) == spec_fixed_mounts(),
            volumes@.map_values(|v: VolumePlan| v@).take(4) == spec_fixed_volumes(garage@),
            forall|j: int|
                0 <= j < i ==> (#[trigger] mounts@[4 + j])@ == (MountPlanView {
                    name: spec_data_volume_name(j),
                    mount_path: spec_data_mount_path(j),
                    sub_path: None,
                    read_only: false,
                }),
            forall|j: int|
                0 <= j < i ==> (#[trigger] volumes@[4 + j])@ == (VolumePlanView {
                    name: spec_data_volume_name(j),
                    source: VolumeSourceView::Claim(garage@.spec.storage.data[j]),
                }),
        decreases n - i,
    {
        proof {
            reveal_strlit("data-pvc-");
            reveal_strlit("/mnt/data");
        }
        let index_text = u64_to_string(i as u64);
        let mut volume_name = String::from_str("data-pvc-");
        volume_name.append(index_text.as_str());
        let mut mount_path = String::from_str("/mnt/data");
        mount_path.append(index_text.as_str());
        let ghost mounts_before = mounts@.map_values(|m: MountPlan| m@);
        let ghost volumes_before = volumes@.map_values(|v: VolumePlan| v@);
        mounts.push(
            MountPlan {
                name: volume_name.clone(),
                mount_path,
                sub_path: None,
                read_only: false,
            },
        );
        volumes.push(VolumePlan { name: volume_name, source: VolumeSource::Claim(data[i].clone()) });
        proof {
            assert(mounts@.map_values(|m: MountPlan| m@).take(4) =~= mounts_before.take(4));
            assert(volumes@.map_values(|v: VolumePlan| v@).take(4) =~= volumes_before.take(4));
            assert(garage@.spec.storage.data[i as int] == data@[i as int]@);
            assert((volumes@[4 + i as int])@ == (VolumePlanView {
                name: spec_data_volume_name(i as int),
                source: VolumeSourceView::Claim(garage@.spec.storage.data[i as int]),
            }));
            assert((mounts@[4 + i as int])@ == (MountPlanView {
                name: spec_data_volume_name(i as int),
                mount_path: spec_data_mount_path(i as int),
                sub_path: None,
                read_only: false,
            }));
        }
        i = i + 1;
    }

    WorkloadPlan {
        name: garage.name.clone(),
        image,
        labels: instance_labels(garage),
        ports: port_plans,
        mounts,
        volumes,
    }
}

/// A lowercase hexadecimal character.
pub open spec fn spec_is_lower_hex(c: char) -> bool {
    ('0' <= c && c <= '9') || ('a' <= c && c <= 'f')
}

/// Every character of the sequence is lowercase hexadecimal.
pub open spec fn spec_all_lower_hex(s: Seq<char>) -> bool {
    forall|i: int| 0 <= i < s.len() ==> spec_is_lower_hex(#[trigger] s[i])
}

/// Relies on uuid::Uuid::new_v4 and its simple formatting: a fresh random
/// identifier always renders as exactly 32 lowercase hexadecimal
/// characters. Nothing else can be said of a random value.
#[verifier::external_body]
fn fresh_uuid_simple() -> (r: String)
    ensures
        r@.len() == 32,
        spec_all_lower_hex(r@),
{
    format!("{}", uuid::Uuid::new_v4().simple())
}

/// Draw a fresh credential value: 64 lowercase hexadecimal characters, the
/// size the storage service expects for its RPC secret.
pub fn generate_secret_value() -> (r: String)
    ensures
        r@.len() == 64,
        spec_all_lower_hex(r@),
{
    let mut value = fresh_uuid_simple();
    let second = fresh_uuid_simple();
    value.append(second.as_str());
    proof {
        assert forall|i: int| 0 <= i < value@.len() implies spec_is_lower_hex(
            #[trigger] value@[i],
        ) by {
            if i < 32 {
            } else {
                assert(value@[i] == second@[i - 32]);
            }
        }
    }
    value
}

/// A credential object the operator is to create: a single entry named
/// "key" holding the generated value.
pub struct GeneratedSecretPlan {
    /// The object's name.
    pub name: String,
    /// The value filed under the entry named "key".
    pub value: String,
}

/// A credential is generated exactly when the declaration supplies no
/// reference for it and no object of the derived name exists yet.
pub open spec fn spec_needs_generation(reference: Option<crate::resources::SecretRefView>, exists: bool) -> bool {
    reference is None && !exists
}

/// Decide which credentials to generate for an instance, given whether the
/// derived admin and RPC credential objects already exist.
///
/// One plan per needed credential, admin first: a fresh 64-character
/// hexadecimal value under the derived name. A credential that is
/// user-referenced or already present is never regenerated.
pub fn plan_generated_secrets(garage: &Garage, admin_exists: bool, rpc_exists: bool) -> (r: Vec<
    GeneratedSecretPlan,
>)
    ensures
        ({
            let need_admin = spec_needs_generation(garage@.spec.secrets.admin, admin_exists);
            let need_rpc = spec_needs_generation(garage@.spec.secrets.rpc, rpc_exists);
            &&& r@.len() == (if need_admin { 1int } else { 0 }) + (if need_rpc { 1int } else { 0 })
            &&& need_admin ==> r@[0].name@ == spec_prefixed_name(garage.name@, "admin.key"@)
                && r@[0].value@.len() == 64 && spec_all_lower_hex(r@[0].value@)
            &&& need_rpc ==> {
                let at = if need_admin { 1int } else { 0 };
                r@[at].name@ == spec_prefixed_name(garage.name@, "rpc.key"@) && r@[at].value@.len()
                    == 64 && spec_all_lower_hex(r@[at].value@)
            }
        }),
{
    let mut plans: Vec<GeneratedSecretPlan> = Vec::new();
    if garage.spec.secrets.admin.is_none() && !admin_exists {
        plans.push(
            GeneratedSecretPlan {
                name: garage.prefixed_name("admin.key"),
                value: generate_secret_value(),
            },
        );
    }
    if garage.spec.secrets.rpc.is_none() && !rpc_exists {
        plans.push(
            GeneratedSecretPlan {
                name: garage.prefixed_name("rpc.key"),
                value: generate_secret_value(),
            },
        );
    }
    plans
}

/// Everything the operator maintains for an instance, projected as one
/// value: the configuration object, the credentials to generate, the
/// service endpoint and the workload.
pub struct Projection {
    /// The configuration object's name.
    pub config_name: String,
    /// The configuration text, filed under "garage.toml" in that object.
    pub config_text: String,
    /// The credentials to generate, admin first.
    pub secrets: Vec<GeneratedSecretPlan>,
    /// The service endpoint.
    pub service: ServicePlan,
    /// The workload.
    pub workload: WorkloadPlan,
}

/// Project the full desired state of an instance: a pure function of the
/// declaration, the observed claim capacities, the presence of the derived
/// credential objects, and the configured service version. The projection
/// carries all four sub-objects in full: the configuration object, the
/// credentials still to be generated, the service endpoint with its ports
/// and selector, and the workload with its ports, mounts and volumes.
pub fn project(
    garage: &Garage,
    caps: &Vec<i64>,
    admin_secret_exists: bool,
    rpc_secret_exists: bool,
    version: &String,
) -> (r: Projection)
    ensures
        r.config_name@ == spec_prefixed_name(garage.name@, "config"@),
        r.config_text@ == spec_config_toml(garage.spec.config@, caps@),
        ({
            let need_admin = spec_needs_generation(garage@.spec.secrets.admin, admin_secret_exists);
            let need_rpc = spec_needs_generation(garage@.spec.secrets.rpc, rpc_secret_exists);
            &&& r.secrets@.len() == (if need_admin { 1int } else { 0 }) + (if need_rpc {
                1int
            } else {
                0
            })
            &&& need_admin ==> r.secrets@[0].name@ == spec_prefixed_name(
                garage.name@,
                "admin.key"@,
            ) && r.secrets@[0].value@.len() == 64 && spec_all_lower_hex(r.secrets@[0].value@)
            &&& need_rpc ==> {
                let at = if need_admin { 1int } else { 0 };
                r.secrets@[at].name@ == spec_prefixed_name(garage.name@, "rpc.key"@)
                    && r.secrets@[at].value@.len() == 64 && spec_all_lower_hex(
                    r.secrets@[at].value@,
                )
            }
        }),
        r.service.name@ == spec_prefixed_name(garage.name@, "api"@),
        r.service.ports@.map_values(|p: PortPlan| p@) == spec_service_ports(
            garage.spec.config.ports,
        ),
        r.service.selector@.map_values(|l: LabelPair| l@) == spec_selector_labels(garage.name@),
        r.service.labels@.map_values(|l: LabelPair| l@) == spec_instance_labels(garage.name@),
        r.workload.name@ == garage.name@,
        r.workload.image@ == "dxflrs/garage:"@ + version@,
        r.workload.labels@.map_values(|l: LabelPair| l@) == spec_instance_labels(garage.name@),
        r.workload.ports@.map_values(|p: PortPlan| p@) == spec_container_ports(
            garage.spec.config.ports,
        ),
        r.workload.mounts@.len() == 4 + garage.spec.storage.data@.len(),
        r.workload.mounts@.map_values(|m: MountPlan| m@).take(4) == spec_fixed_mounts(),
        forall|i: int|
            0 <= i < garage.spec.storage.data@.len() ==> (#[trigger] r.workload.mounts@[4 + i])@
                == (MountPlanView {
                name: spec_data_volume_name(i),
                mount_path: spec_data_mount_path(i),
                sub_path: None,
                read_only: false,
            }),
        r.workload.volumes@.len() == 4 + garage.spec.storage.data@.len(),
        r.workload.volumes@.map_values(|v: VolumePlan| v@).take(4) == spec_fixed_volumes(garage@),
        forall|i: int|
            0 <= i < garage.spec.storage.data@.len() ==> (#[trigger] r.workload.volumes@[4 + i])@
                == (VolumePlanView {
                name: spec_data_volume_name(i),
                source: VolumeSourceView::Claim(garage@.spec.storage.data[i]),
            }),
{
    Projection {
        config_name: garage.prefixed_name("config"),
        config_text: config_toml(&garage.spec.config, caps),
        secrets: plan_generated_secrets(garage, admin_secret_exists, rpc_secret_exists),
        service: service_plan(garage),
        workload: workload_plan(garage, version),
    }
}

} // verus!
