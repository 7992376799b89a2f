//! The three reconciliation state machines. Each is a pure step function
//! from the declared resource, its observed status and one event to the
//! next action: a remote call to make, or the status and requeue delay to
//! persist. The unverified driver performs the action, feeds the outcome
//! back in as the next event, and stops when told to persist.

use vstd::prelude::*;

use crate::admin::ApiQuotas;
use crate::admin::KeyReply;
use crate::admin::KeyReplyView;
use crate::admin::SecretEntry;
use crate::admin::SecretEntryView;
use crate::admin::quantity_bytes;
use crate::admin::translate_quotas;
use crate::errors::Error;
use crate::errors::ErrorView;
use crate::resources::AccessKey;
use crate::resources::AccessKeyPermissions;
use crate::resources::AccessKeyState;
use crate::resources::AccessKeyStatus;
use crate::resources::AccessKeyStatusView;
use crate::resources::AccessKeyView;
use crate::resources::Bucket;
use crate::resources::BucketState;
use crate::resources::BucketStatus;
use crate::resources::BucketStatusView;
use crate::resources::BucketView;
use crate::resources::GarageState;
use crate::resources::GarageStatus;
use crate::resources::NamespacedReference;
use crate::resources::spec_friendly;

verus! {

/// The persisted state of a bucket, creating until one is recorded.
pub open spec fn spec_bucket_state(b: BucketView) -> BucketState {
    match b.status {
        Some(s) => s.state,
        None => BucketState::Creating,
    }
}

/// The persisted id of a bucket, empty until one has been recorded.
pub open spec fn spec_bucket_id(b: BucketView) -> Seq<char> {
    match b.status {
        Some(s) => s.id,
        None => Seq::empty(),
    }
}

/// What the bucket machine decided on one event.
pub enum BucketAction {
    /// Ask the admin API for the bucket under its global alias.
    Lookup,
    /// Create the bucket under its global alias.
    Create,
    /// Overwrite the remote quotas of the bucket with the given id.
    SetQuotas(String, ApiQuotas),
    /// Write this status back and run again after this many seconds.
    Persist(BucketStatus, u64),
    /// Give up this pass with an error.
    Fail(Error),
}

pub enum BucketActionView {
    Lookup,
    Create,
    SetQuotas(Seq<char>, Option<i64>, Option<i64>),
    Persist(BucketStatusView, u64),
    Fail(ErrorView),
}

impl View for BucketAction {
    type V = BucketActionView;

    open spec fn view(&self) -> BucketActionView {
        match self {
            BucketAction::Lookup => BucketActionView::Lookup,
            BucketAction::Create => BucketActionView::Create,
            BucketAction::SetQuotas(id, q) => BucketActionView::SetQuotas(
                id@,
                q.max_size,
                q.max_objects,
            ),
            BucketAction::Persist(s, d) => BucketActionView::Persist(s@, *d),
            BucketAction::Fail(e) => BucketActionView::Fail(e@),
        }
    }
}

/// What the driver reports back to the bucket machine.
pub enum BucketEvent {
    /// The pass begins; nothing has been asked yet.
    Begin,
    /// The lookup answered: the bucket's id when it exists.
    Looked(Option<String>),
    /// The creation answered with the new bucket's id.
    Created(String),
    /// The quota write succeeded.
    QuotasSet,
}

pub enum BucketEventView {
    Begin,
    Looked(Option<Seq<char>>),
    Created(Seq<char>),
    QuotasSet,
}

impl View for BucketEvent {
    type V = BucketEventView;

    open spec fn view(&self) -> BucketEventView {
        match self {
            BucketEvent::Begin => BucketEventView::Begin,
            BucketEvent::Looked(id) => BucketEventView::Looked(
                match id {
                    Some(i) => Some(i@),
                    None => None,
                },
            ),
            BucketEvent::Created(id) => BucketEventView::Created(id@),
            BucketEvent::QuotasSet => BucketEventView::QuotasSet,
        }
    }
}

/// The events the driver may feed a bucket in the given state: answers to
/// the lookup and creation only while creating, the quota acknowledgement
/// only while configuring.
pub open spec fn spec_bucket_event_fits(state: BucketState, e: BucketEventView) -> bool {
    match e {
        BucketEventView::Begin => true,
        BucketEventView::Looked(_) => state is Creating,
        BucketEventView::Created(_) => state is Creating,
        BucketEventView::QuotasSet => state is Configuring,
    }
}

/// The translated quotas of a bucket, or the validation error, as the step
/// function sends them.
pub open spec fn spec_quota_action(b: BucketView) -> BucketActionView {
    let objs = match b.spec.quotas.max_object_count {
        Some(c) => Some(c as i64),
        None => None::<i64>,
    };
    match b.spec.quotas.max_size {
        Some(text) => match quantity_bytes(text) {
            Some(bytes) => BucketActionView::SetQuotas(spec_bucket_id(b), Some(bytes), objs),
            None => BucketActionView::Fail(
                ErrorView::IllegalBucket(b.name, "invalid quantity for maxSize"@),
            ),
        },
        None => BucketActionView::SetQuotas(spec_bucket_id(b), None, objs),
    }
}

/// The bucket machine: creation adopts the existing bucket or creates one
/// and persists its id; configuration overwrites the quotas
/// unconditionally; a ready bucket only re-checks after an hour; an errored
/// one starts over.
pub open spec fn spec_bucket_next(b: BucketView, e: BucketEventView) -> BucketActionView {
    match (spec_bucket_state(b), e) {
        (BucketState::Creating, BucketEventView::Begin) => BucketActionView::Lookup,
        (BucketState::Creating, BucketEventView::Looked(Some(id))) => BucketActionView::Persist(
            BucketStatusView { id, state: BucketState::Configuring },
            2,
        ),
        (BucketState::Creating, BucketEventView::Looked(None)) => BucketActionView::Create,
        (BucketState::Creating, BucketEventView::Created(id)) => BucketActionView::Persist(
            BucketStatusView { id, state: BucketState::Configuring },
            2,
        ),
        (BucketState::Configuring, BucketEventView::Begin) => spec_quota_action(b),
        (BucketState::Configuring, BucketEventView::QuotasSet) => BucketActionView::Persist(
            BucketStatusView { id: spec_bucket_id(b), state: BucketState::Ready },
            1,
        ),
        (BucketState::Ready, BucketEventView::Begin) => BucketActionView::Persist(
            BucketStatusView { id: spec_bucket_id(b), state: BucketState::Ready },
            3600,
        ),
        (BucketState::Errored, BucketEventView::Begin) => BucketActionView::Persist(
            BucketStatusView { id: Seq::empty(), state: BucketState::Creating },
            15,
        ),
        _ => BucketActionView::Fail(ErrorView::IllegalBucket(b.name, "unexpected event"@)),
    }
}

/// Run the bucket machine one step.
pub fn bucket_next(bucket: &Bucket, event: &BucketEvent) -> (r: BucketAction)
    requires
        bucket@.spec.quotas.max_object_count matches Some(c) ==> c <= i64::MAX,
        spec_bucket_event_fits(spec_bucket_state(bucket@), event@),
    ensures
        r@ == spec_bucket_next(bucket@, event@),
{
    let current_id = match &bucket.status {
        Some(s) => s.id.clone(),
        None => String::new(),
    };
    let state = match &bucket.status {
        Some(s) => s.state,
        None => BucketState::Creating,
    };
    match (state, event) {
        (BucketState::Creating, BucketEvent::Begin) => BucketAction::Lookup,
        (BucketState::Creating, BucketEvent::Looked(found)) => match found {
            Some(id) => BucketAction::Persist(
                BucketStatus { id: id.clone(), state: BucketState::Configuring },
                2,
            ),
            None => BucketAction::Create,
        },
        (BucketState::Creating, BucketEvent::Created(id)) => BucketAction::Persist(
            BucketStatus { id: id.clone(), state: BucketState::Configuring },
            2,
        ),
        (BucketState::Configuring, BucketEvent::Begin) => match translate_quotas(
            &bucket.name,
            &bucket.spec.quotas,
        ) {
            Ok(q) => BucketAction::SetQuotas(current_id, q),
            Err(e) => BucketAction::Fail(e),
        },
        (BucketState::Configuring, BucketEvent::QuotasSet) => BucketAction::Persist(
            BucketStatus { id: current_id, state: BucketState::Ready },
            1,
        ),
        (BucketState::Ready, BucketEvent::Begin) => BucketAction::Persist(
            BucketStatus { id: current_id, state: BucketState::Ready },
            3600,
        ),
        (BucketState::Errored, BucketEvent::Begin) => BucketAction::Persist(
            Default::default(),
            15,
        ),
        _ => BucketAction::Fail(
            Error::IllegalBucket(bucket.name.clone(), String::from_str("unexpected event")),
        ),
    }
}

/// Whether a reference points at the object of the given namespace and
/// name: both parts match. A ready instance reconciles exactly the buckets
/// whose owning reference points at it, and a bucket's keys are exactly
/// those whose bucket reference points at the bucket.
pub fn references(reference: &NamespacedReference, namespace: &String, name: &String) -> (r: bool)
    ensures
        r == (reference@.name == name@ && reference@.namespace == namespace@),
{
    reference.name == *name && reference.namespace == *namespace
}

/// Map a bucket or access-key change back to the owning instance's queue
/// key. A reference with an empty name or namespace is malformed and maps
/// to nothing.
pub fn reconcile_target(reference: &NamespacedReference) -> (t: Option<NamespacedReference>)
    ensures
        match t {
            Some(k) => k@ == reference@ && reference@.name.len() > 0 && reference@.namespace.len()
                > 0,
            None => reference@.name.len() == 0 || reference@.namespace.len() == 0,
        },
{
    if reference.name.as_str().unicode_len() == 0 || reference.namespace.as_str().unicode_len()
        == 0 {
        None
    } else {
        Some(reference.duplicate())
    }
}

/// What one pass of the instance machine observed of the node's topology:
/// the node's own id, the committed layout version, and the ids whose role
/// changes are currently staged.
pub struct NodesObservation {
    pub node_id: String,
    pub layout_version: i64,
    pub staged_ids: Vec<String>,
}

pub struct NodesObservationView {
    pub node_id: Seq<char>,
    pub layout_version: i64,
    pub staged_ids: Seq<Seq<char>>,
}

impl View for NodesObservation {
    type V = NodesObservationView;

    open spec fn view(&self) -> NodesObservationView {
        NodesObservationView {
            node_id: self.node_id@,
            layout_version: self.layout_version,
            staged_ids: self.staged_ids@.map_values(|s: String| s@),
        }
    }
}

/// The role the operator stages for its node: the node's id, the declared
/// capacity, the region as the zone, and the ownership tags.
pub struct LayoutRole {
    pub id: String,
    pub capacity: i64,
    pub zone: String,
    pub tags: Vec<String>,
}

pub struct LayoutRoleView {
    pub id: Seq<char>,
    pub capacity: i64,
    pub zone: Seq<char>,
    pub tags: Seq<Seq<char>>,
}

impl View for LayoutRole {
    type V = LayoutRoleView;

    open spec fn view(&self) -> LayoutRoleView {
        LayoutRoleView {
            id: self.id@,
            capacity: self.capacity,
            zone: self.zone@,
            tags: self.tags@.map_values(|s: String| s@),
        }
    }
}

/// The version committed on the first layout.
pub const FIRST_LAYOUT_VERSION: i64 = 1;

/// The tags every role staged by the operator carries: the owner mark and
/// the owning instance's name.
pub open spec fn spec_layout_tags(name: Seq<char>) -> Seq<Seq<char>> {
    seq!["owned-by/garage-operator"@, "garage-instance/"@ + name]
}

/// What to do about the node's topology this pass.
pub enum LayoutPlan {
    /// A layout is already committed; nothing to do.
    AlreadyLaidOut,
    /// Stage this role, then commit the first version.
    Stage(LayoutRole),
    /// The role is already staged; commit the first version.
    ApplyOnly,
}

pub enum LayoutPlanView {
    AlreadyLaidOut,
    Stage(LayoutRoleView),
    ApplyOnly,
}

impl View for LayoutPlan {
    type V = LayoutPlanView;

    open spec fn view(&self) -> LayoutPlanView {
        match self {
            LayoutPlan::AlreadyLaidOut => LayoutPlanView::AlreadyLaidOut,
            LayoutPlan::Stage(role) => LayoutPlanView::Stage(role@),
            LayoutPlan::ApplyOnly => LayoutPlanView::ApplyOnly,
        }
    }
}

/// One of the sequences equals the given one.
pub open spec fn spec_seq_has(items: Seq<Seq<char>>, x: Seq<char>) -> bool {
    exists|i: int| 0 <= i < items.len() && items[i] == x
}

/// The layout decision: done once a version is committed; otherwise stage
/// the node's role unless it is already staged, and commit the first
/// version either way. Re-staging the same role is a no-op remotely, so the
/// plan is safe to repeat.
pub open spec fn spec_plan_layout(
    name: Seq<char>,
    zone: Seq<char>,
    capacity: i64,
    obs: NodesObservationView,
) -> LayoutPlanView {
    if obs.layout_version != 0 {
        LayoutPlanView::AlreadyLaidOut
    } else if spec_seq_has(obs.staged_ids, obs.node_id) {
        LayoutPlanView::ApplyOnly
    } else {
        LayoutPlanView::Stage(
            LayoutRoleView {
                id: obs.node_id,
                capacity,
                zone,
                tags: spec_layout_tags(name),
            },
        )
    }
}

fn vec_has_string(items: &Vec<String>, x: &String) -> (r: bool)
    ensures
        r == spec_seq_has(items@.map_values(|s: String| s@), x@),
{
    let n = items.len();
    let mut i: usize = 0;
    while i < n
        invariant
            n == items@.len(),
            i <= n,
            forall|j: int| 0 <= j < i ==> (#[trigger] items@[j])@ != x@,
        decreases n - i,
    {
        if items[i] == *x {
            proof {
                assert(items@.map_values(|s: String| s@)[i as int] == x@);
                assert(spec_seq_has(items@.map_values(|s: String| s@), x@));
            }
            return true;
        }
        i = i + 1;
    }
    proof {
        let mapped = items@.map_values(|s: String| s@);
        assert forall|j: int| 0 <= j < mapped.len() implies (#[trigger] mapped[j]) != x@ by {
            assert(mapped[j] == (items@[j])@);
        }
    }
    false
}

/// Decide what to do about the topology of the instance named `name`, with
/// the given declared capacity and zone, from what the admin API reported.
pub fn plan_layout(name: &String, zone: &String, capacity: i64, obs: &NodesObservation) -> (r:
    LayoutPlan)
    ensures
        r@ == spec_plan_layout(name@, zone@, capacity, obs@),
{
    if obs.layout_version != 0 {
        return LayoutPlan::AlreadyLaidOut;
    }
    if vec_has_string(&obs.staged_ids, &obs.node_id) {
        return LayoutPlan::ApplyOnly;
    }
    proof {
        reveal_strlit("owned-by/garage-operator");
        reveal_strlit("garage-instance/");
    }
    let mut instance_tag = String::from_str("garage-instance/");
    instance_tag.append(name.as_str());
    let mut tags: Vec<String> = Vec::new();
    tags.push(String::from_str("owned-by/garage-operator"));
    tags.push(instance_tag);
    proof {
        assert(tags@.map_values(|s: String| s@) =~= spec_layout_tags(name@));
    }
    LayoutPlan::Stage(
        LayoutRole { id: obs.node_id.clone(), capacity, zone: zone.clone(), tags },
    )
}

/// Whether the plan says the topology is already committed, which is what
/// ends the laying-out state.
pub fn layout_done(plan: &LayoutPlan) -> (r: bool)
    ensures
        r == (plan@ is AlreadyLaidOut),
{
    match plan {
        LayoutPlan::AlreadyLaidOut => true,
        _ => false,
    }
}

/// The state an instance moves to and the seconds until its next pass.
#[derive(Clone, Copy, PartialEq, Eq, Structural, Debug)]
pub struct InstanceOutcome {
    pub next_state: GarageState,
    pub requeue_secs: u64,
}

/// The persisted state of an instance, creating until one is recorded.
pub open spec fn spec_instance_state(status: Option<GarageStatus>) -> GarageState {
    match status {
        Some(s) => s.state,
        None => GarageState::Creating,
    }
}

/// The instance machine: a freshly created instance moves to laying out
/// when it is to register its own topology, else straight to ready; a
/// laying-out instance becomes ready once a committed layout is observed;
/// a ready instance re-checks after an hour; an errored one starts over.
pub open spec fn spec_instance_next(
    state: GarageState,
    auto_layout: bool,
    laid_out: bool,
) -> InstanceOutcome {
    match state {
        GarageState::Creating => InstanceOutcome {
            next_state: if auto_layout {
                GarageState::LayingOut
            } else {
                GarageState::Ready
            },
            requeue_secs: 2,
        },
        GarageState::LayingOut => InstanceOutcome {
            next_state: if laid_out {
                GarageState::Ready
            } else {
                GarageState::LayingOut
            },
            requeue_secs: 2,
        },
        GarageState::Ready => InstanceOutcome { next_state: GarageState::Ready, requeue_secs: 3600 },
        GarageState::Errored => InstanceOutcome {
            next_state: GarageState::Creating,
            requeue_secs: 15,
        },
    }
}

/// Run the instance machine one step. `laid_out` is what this pass
/// observed of the topology (the layout plan came back already-laid-out);
/// it is only read in the laying-out state. The status written back always
/// carries the freshly recomputed capacity.
pub fn instance_next(
    status: Option<GarageStatus>,
    auto_layout: bool,
    laid_out: bool,
    capacity: i64,
) -> (r: (GarageStatus, u64))
    ensures
        ({
            let outcome = spec_instance_next(spec_instance_state(status), auto_layout, laid_out);
            r.0.state == outcome.next_state && r.0.capacity == capacity && r.1
                == outcome.requeue_secs
        }),
{
    let state = match status {
        Some(s) => s.state,
        None => GarageState::Creating,
    };
    match state {
        GarageState::Creating => (
            GarageStatus {
                state: if auto_layout {
                    GarageState::LayingOut
                } else {
                    GarageState::Ready
                },
                capacity,
            },
            2,
        ),
        GarageState::LayingOut => (
            GarageStatus {
                state: if laid_out {
                    GarageState::Ready
                } else {
                    GarageState::LayingOut
                },
                capacity,
            },
            2,
        ),
        GarageState::Ready => (GarageStatus { state: GarageState::Ready, capacity }, 3600),
        GarageState::Errored => (GarageStatus { state: GarageState::Creating, capacity }, 15),
    }
}

/// The persisted state of an access key, creating until one is recorded.
pub open spec fn spec_access_state(k: AccessKeyView) -> AccessKeyState {
    match k.status {
        Some(s) => s.state,
        None => AccessKeyState::Creating,
    }
}

/// The persisted id of an access key, empty until one has been recorded.
pub open spec fn spec_access_id(k: AccessKeyView) -> Seq<char> {
    match k.status {
        Some(s) => s.id,
        None => Seq::empty(),
    }
}

/// The persisted friendly permissions of an access key.
pub open spec fn spec_access_friendly(k: AccessKeyView) -> Seq<char> {
    match k.status {
        Some(s) => s.permissions_friendly,
        None => Seq::empty(),
    }
}

/// The name of the credential object an access key's pair is persisted in:
/// the declared reference when it names one, else the derived default.
pub open spec fn spec_access_secret_name(k: AccessKeyView) -> Seq<char> {
    match k.spec.secret_ref.name {
        Some(n) => n,
        None => k.name + "."@ + k.spec.bucket_ref.name + ".key"@,
    }
}

/// Resolve where an access key's credential pair is persisted.
pub fn access_secret_name(key: &AccessKey) -> (r: String)
    ensures
        r@ == spec_access_secret_name(key@),
{
    match &key.spec.secret_ref.name {
        Some(n) => n.clone(),
        None => {
            let mut s = key.name.clone();
            s.append(".");
            s.append(key.spec.bucket_ref.name.as_str());
            s.append(".key");
            proof {
                reveal_strlit(".");
                reveal_strlit(".key");
            }
            s
        },
    }
}

/// The four entries of an access key's credential object: the issued pair,
/// the instance's region, and its S3 endpoint address.
pub open spec fn spec_access_secret_entries(
    key_id: Seq<char>,
    secret_key: Seq<char>,
    region: Seq<char>,
    endpoint: Seq<char>,
) -> Seq<SecretEntryView> {
    seq![
        SecretEntryView { name: "AWS_ACCESS_KEY_ID"@, value: key_id },
        SecretEntryView { name: "AWS_SECRET_ACCESS_KEY"@, value: secret_key },
        SecretEntryView { name: "AWS_DEFAULT_REGION"@, value: region },
        SecretEntryView { name: "AWS_ENDPOINT_URL"@, value: endpoint },
    ]
}

/// What the access-key machine decided on one event.
pub enum AccessKeyAction {
    /// Ask the admin API for the key under its name; fetch the secret part
    /// when the flag is set.
    LookupKey(bool),
    /// Create the key under its name.
    CreateKey,
    /// Tie the key to the bucket with the given permissions: key id, bucket
    /// id, permissions.
    Allow(String, String, AccessKeyPermissions),
    /// Write the credential object of the given name with these entries.
    WriteSecret(String, Vec<SecretEntry>),
    /// Write this status back and run again after this many seconds.
    Persist(AccessKeyStatus, u64),
    /// Give up this pass with an error.
    Fail(Error),
}

pub enum AccessKeyActionView {
    LookupKey(bool),
    CreateKey,
    Allow(Seq<char>, Seq<char>, AccessKeyPermissions),
    WriteSecret(Seq<char>, Seq<SecretEntryView>),
    Persist(AccessKeyStatusView, u64),
    Fail(ErrorView),
}

impl View for AccessKeyAction {
    type V = AccessKeyActionView;

    open spec fn view(&self) -> AccessKeyActionView {
        match self {
            AccessKeyAction::LookupKey(s) => AccessKeyActionView::LookupKey(*s),
            AccessKeyAction::CreateKey => AccessKeyActionView::CreateKey,
            AccessKeyAction::Allow(k, b, p) => AccessKeyActionView::Allow(k@, b@, *p),
            AccessKeyAction::WriteSecret(n, entries) => AccessKeyActionView::WriteSecret(
                n@,
                entries@.map_values(|e: SecretEntry| e@),
            ),
            AccessKeyAction::Persist(s, d) => AccessKeyActionView::Persist(s@, *d),
            AccessKeyAction::Fail(e) => AccessKeyActionView::Fail(e@),
        }
    }
}

/// What the driver reports back to the access-key machine.
pub enum AccessKeyEvent {
    /// The pass begins; nothing has been asked yet.
    Begin,
    /// The creation-time lookup answered: the key's id when it exists.
    Looked(Option<String>),
    /// The creation answered with the new key's id.
    Created(String),
    /// The permission grant succeeded.
    Allowed,
    /// The with-secret lookup answered with the key's record.
    Fetched(KeyReply),
    /// The credential object write succeeded.
    SecretWritten,
}

pub enum AccessKeyEventView {
    Begin,
    Looked(Option<Seq<char>>),
    Created(Seq<char>),
    Allowed,
    Fetched(KeyReplyView),
    SecretWritten,
}

impl View for AccessKeyEvent {
    type V = AccessKeyEventView;

    open spec fn view(&self) -> AccessKeyEventView {
        match self {
            AccessKeyEvent::Begin => AccessKeyEventView::Begin,
            AccessKeyEvent::Looked(id) => AccessKeyEventView::Looked(
                match id {
                    Some(i) => Some(i@),
                    None => None,
                },
            ),
            AccessKeyEvent::Created(id) => AccessKeyEventView::Created(id@),
            AccessKeyEvent::Allowed => AccessKeyEventView::Allowed,
            AccessKeyEvent::Fetched(k) => AccessKeyEventView::Fetched(k@),
            AccessKeyEvent::SecretWritten => AccessKeyEventView::SecretWritten,
        }
    }
}

/// The events the driver may feed an access key in the given state, and
/// what each event must carry: the fetched record must hold the issued
/// pair, since the machine persists it.
pub open spec fn spec_access_event_fits(state: AccessKeyState, e: AccessKeyEventView) -> bool {
    match e {
        AccessKeyEventView::Begin => true,
        AccessKeyEventView::Looked(_) => state is Creating,
        AccessKeyEventView::Created(_) => state is Creating,
        AccessKeyEventView::Allowed => state is Configuring,
        AccessKeyEventView::Fetched(k) => state is Ready && k.access_key_id is Some
            && k.secret_access_key is Some,
        AccessKeyEventView::SecretWritten => state is Ready,
    }
}

/// The access-key machine: creation adopts the existing key or creates one,
/// persisting its id and the friendly permissions; configuration grants the
/// declared permissions on the referenced bucket, and blocks unless that
/// bucket carries a persisted, nonempty id; a ready key re-writes its
/// credential object every pass, so an object deleted out of band
/// reappears; an errored key starts over.
pub open spec fn spec_access_next(
    k: AccessKeyView,
    bucket: BucketView,
    g: crate::resources::GarageView,
    e: AccessKeyEventView,
) -> AccessKeyActionView {
    match (spec_access_state(k), e) {
        (AccessKeyState::Creating, AccessKeyEventView::Begin) => AccessKeyActionView::LookupKey(
            false,
        ),
        (AccessKeyState::Creating, AccessKeyEventView::Looked(Some(id))) =>
            AccessKeyActionView::Persist(
            AccessKeyStatusView {
                id,
                state: AccessKeyState::Configuring,
                permissions_friendly: spec_friendly(k.spec.permissions),
            },
            2,
        ),
        (AccessKeyState::Creating, AccessKeyEventView::Looked(None)) =>
            AccessKeyActionView::CreateKey,
        (AccessKeyState::Creating, AccessKeyEventView::Created(id)) =>
            AccessKeyActionView::Persist(
            AccessKeyStatusView {
                id,
                state: AccessKeyState::Configuring,
                permissions_friendly: spec_friendly(k.spec.permissions),
            },
            2,
        ),
        (AccessKeyState::Configuring, AccessKeyEventView::Begin) => match bucket.status {
            Some(bs) => if bs.id.len() > 0 {
                AccessKeyActionView::Allow(spec_access_id(k), bs.id, k.spec.permissions)
            } else {
                AccessKeyActionView::Fail(
                    ErrorView::IllegalAccessKey(k.name, "bucket has no persisted id"@),
                )
            },
            None => AccessKeyActionView::Fail(
                ErrorView::IllegalAccessKey(k.name, "bucket has no persisted id"@),
            ),
        },
        (AccessKeyState::Configuring, AccessKeyEventView::Allowed) => AccessKeyActionView::Persist(
            AccessKeyStatusView {
                id: spec_access_id(k),
                state: AccessKeyState::Ready,
                permissions_friendly: spec_access_friendly(k),
            },
            2,
        ),
        (AccessKeyState::Ready, AccessKeyEventView::Begin) => AccessKeyActionView::LookupKey(true),
        (AccessKeyState::Ready, AccessKeyEventView::Fetched(fetched)) => match g.namespace {
            Some(ns) => AccessKeyActionView::WriteSecret(
                spec_access_secret_name(k),
                spec_access_secret_entries(
                    fetched.access_key_id.unwrap(),
                    fetched.secret_access_key.unwrap(),
                    g.spec.config.region,
                    crate::admin::spec_s3_endpoint_url(g.name, ns, g.spec.config.ports.s3_api),
                ),
            ),
            None => AccessKeyActionView::Fail(
                ErrorView::IllegalGarage(g.name, "missing namespace"@),
            ),
        },
        (AccessKeyState::Ready, AccessKeyEventView::SecretWritten) => AccessKeyActionView::Persist(
            AccessKeyStatusView {
                id: spec_access_id(k),
                state: AccessKeyState::Ready,
                permissions_friendly: spec_access_friendly(k),
            },
            3600,
        ),
        (AccessKeyState::Errored, AccessKeyEventView::Begin) => AccessKeyActionView::Persist(
            AccessKeyStatusView {
                id: Seq::empty(),
                state: AccessKeyState::Creating,
                permissions_friendly: Seq::empty(),
            },
            15,
        ),
        _ => AccessKeyActionView::Fail(ErrorView::IllegalAccessKey(k.name, "unexpected event"@)),
    }
}

/// Run the access-key machine one step, for a key of `bucket` in the
/// instance `garage`.
pub fn access_key_next(
    key: &AccessKey,
    bucket: &Bucket,
    garage: &crate::resources::Garage,
    event: AccessKeyEvent,
) -> (r: AccessKeyAction)
    requires
        spec_access_event_fits(spec_access_state(key@), event@),
    ensures
        r@ == spec_access_next(key@, bucket@, garage@, event@),
{
    let state = match &key.status {
        Some(s) => s.state,
        None => AccessKeyState::Creating,
    };
    let current_id = match &key.status {
        Some(s) => s.id.clone(),
        None => String::new(),
    };
    let current_friendly = match &key.status {
        Some(s) => s.permissions_friendly.clone(),
        None => String::new(),
    };
    match (state, event) {
        (AccessKeyState::Creating, AccessKeyEvent::Begin) => AccessKeyAction::LookupKey(false),
        (AccessKeyState::Creating, AccessKeyEvent::Looked(found)) => match found {
            Some(id) => AccessKeyAction::Persist(
                AccessKeyStatus {
                    id,
                    state: AccessKeyState::Configuring,
                    permissions_friendly: key.spec.permissions.friendly(),
                },
                2,
            ),
            None => AccessKeyAction::CreateKey,
        },
        (AccessKeyState::Creating, AccessKeyEvent::Created(id)) => AccessKeyAction::Persist(
            AccessKeyStatus {
                id,
                state: AccessKeyState::Configuring,
                permissions_friendly: key.spec.permissions.friendly(),
            },
            2,
        ),
        (AccessKeyState::Configuring, AccessKeyEvent::Begin) => match &bucket.status {
            Some(bs) => if bs.id.as_str().unicode_len() > 0 {
                AccessKeyAction::Allow(current_id, bs.id.clone(), key.spec.permissions)
            } else {
                AccessKeyAction::Fail(
                    Error::IllegalAccessKey(
                        key.name.clone(),
                        String::from_str("bucket has no persisted id"),
                    ),
                )
            },
            None => AccessKeyAction::Fail(
                Error::IllegalAccessKey(
                    key.name.clone(),
                    String::from_str("bucket has no persisted id"),
                ),
            ),
        },
        (AccessKeyState::Configuring, AccessKeyEvent::Allowed) => AccessKeyAction::Persist(
            AccessKeyStatus {
                id: current_id,
                state: AccessKeyState::Ready,
                permissions_friendly: current_friendly,
            },
            2,
        ),
        (AccessKeyState::Ready, AccessKeyEvent::Begin) => AccessKeyAction::LookupKey(true),
        (AccessKeyState::Ready, AccessKeyEvent::Fetched(fetched)) => match &garage.namespace {
            Some(ns) => {
                let ghost fetched_view = fetched@;
                let endpoint = crate::admin::s3_endpoint_url(
                    garage,
                    ns,
                    garage.spec.config.ports.s3_api,
                );
                let key_id = match fetched.access_key_id {
                    Some(id) => id,
                    None => String::new(),
                };
                let secret_key = match fetched.secret_access_key {
                    Some(sk) => sk,
                    None => String::new(),
                };
                let mut entries: Vec<SecretEntry> = Vec::new();
                entries.push(
                    SecretEntry { name: String::from_str("AWS_ACCESS_KEY_ID"), value: key_id },
                );
                entries.push(
                    SecretEntry {
                        name: String::from_str("AWS_SECRET_ACCESS_KEY"),
                        value: secret_key,
                    },
                );
                entries.push(
                    SecretEntry {
                        name: String::from_str("AWS_DEFAULT_REGION"),
                        value: garage.spec.config.region.clone(),
                    },
                );
                entries.push(
                    SecretEntry { name: String::from_str("AWS_ENDPOINT_URL"), value: endpoint },
                );
                proof {
                    assert(entries@.map_values(|e: SecretEntry| e@) =~= spec_access_secret_entries(
                        fetched_view.access_key_id.unwrap(),
                        fetched_view.secret_access_key.unwrap(),
                        garage@.spec.config.region,
                        crate::admin::spec_s3_endpoint_url(
                            garage@.name,
                            garage@.namespace.unwrap(),
                            garage.spec.config.ports.s3_api,
                        ),
                    ));
                }
                AccessKeyAction::WriteSecret(access_secret_name(key), entries)
            },
            None => AccessKeyAction::Fail(
                Error::IllegalGarage(garage.name.clone(), String::from_str("missing namespace")),
            ),
        },
        (AccessKeyState::Ready, AccessKeyEvent::SecretWritten) => AccessKeyAction::Persist(
            AccessKeyStatus {
                id: current_id,
                state: AccessKeyState::Ready,
                permissions_friendly: current_friendly,
            },
            3600,
        ),
        (AccessKeyState::Errored, AccessKeyEvent::Begin) => AccessKeyAction::Persist(
            Default::default(),
            15,
        ),
        _ => AccessKeyAction::Fail(
            Error::IllegalAccessKey(key.name.clone(), String::from_str("unexpected event")),
        ),
    }
}

/// The finalizer the operator attaches to every instance, so deletion
/// passes through it once before cluster-level cleanup runs.
pub const GARAGE_FINALIZER: &'static str = "garage.deuxfleurs.fr";

/// The note of the event published when an instance's deletion is
/// observed. No remote teardown is performed: buckets and access keys
/// created in the storage service deliberately outlive their declarations.
pub fn delete_requested_note(name: &String) -> (r: String)
    ensures
        r@ == "Delete `"@ + name@ + "`"@,
{
    proof {
        reveal_strlit("Delete `");
        reveal_strlit("`");
    }
    let mut s = String::from_str("Delete `");
    s.append(name.as_str());
    s.append("`");
    s
}

/// The note of the event published when an instance's layout is first
/// configured.
pub fn layout_requested_note(name: &String) -> (r: String)
    ensures
        r@ == "Configuring layout for `"@ + name@ + "`"@,
{
    proof {
        reveal_strlit("Configuring layout for `");
        reveal_strlit("`");
    }
    let mut s = String::from_str("Configuring layout for `");
    s.append(name.as_str());
    s.append("`");
    s
}

} // verus!
