//! What holds of the machines across passes: the layout, identity,
//! credential and idempotence guarantees, proved over the machines' own
//! transition functions against small models of the admin API's state.

use vstd::prelude::*;

use crate::machine::AccessKeyActionView;
use crate::machine::AccessKeyEventView;
use crate::machine::BucketActionView;
use crate::machine::BucketEventView;
use crate::machine::NodesObservationView;
use crate::machine::spec_access_event_fits;
use crate::machine::spec_access_id;
use crate::machine::spec_access_friendly;
use crate::machine::spec_access_next;
use crate::machine::spec_access_secret_entries;
use crate::machine::spec_access_secret_name;
use crate::machine::spec_access_state;
use crate::machine::spec_bucket_event_fits;
use crate::machine::spec_bucket_id;
use crate::machine::spec_bucket_next;
use crate::machine::spec_bucket_state;
use crate::machine::spec_instance_next;
use crate::machine::spec_plan_layout;
use crate::admin::KeyReplyView;
use crate::admin::spec_s3_endpoint_url;
use crate::project::spec_claim_ok;
use crate::project::spec_claim_total;
use crate::project::spec_sum;
use crate::project::ClaimObservationView;
use crate::resources::AccessKeyState;
use crate::resources::AccessKeyStatusView;
use crate::resources::AccessKeyView;
use crate::resources::BucketState;
use crate::resources::BucketStatusView;
use crate::resources::BucketView;
use crate::resources::GarageState;
use crate::resources::GarageView;
use crate::resources::spec_prefixed_name;

verus! {

/// Derived sub-object names are injective in the suffix for a fixed
/// instance name: two suffixes that prefix to the same name are equal.
pub proof fn lemma_prefixed_name_injective(name: Seq<char>, a: Seq<char>, b: Seq<char>)
    requires
        spec_prefixed_name(name, a) == spec_prefixed_name(name, b),
    ensures
        a == b,
{
    let pa = spec_prefixed_name(name, a);
    let pb = spec_prefixed_name(name, b);
    assert(pa.len() == name.len() + 1 + a.len());
    assert(pb.len() == name.len() + 1 + b.len());
    assert(a.len() == b.len());
    assert forall|i: int| 0 <= i < a.len() implies a[i] == b[i] by {
        assert(pa[name.len() + 1 + i] == a[i]);
        assert(pb[name.len() + 1 + i] == b[i]);
    }
    assert(a =~= b);
}

/// The storage service's topology, as far as the machines touch it: the
/// committed layout version and the node ids with staged role changes.
pub struct TopologyModel {
    pub layout_version: i64,
    pub staged: Set<Seq<char>>,
}

/// The admin API's answer describes the model: the same committed version,
/// and the node reported staged exactly when the model stages it.
pub open spec fn spec_nodes_faithful(obs: NodesObservationView, m: TopologyModel) -> bool {
    &&& obs.layout_version == m.layout_version
    &&& (crate::machine::spec_seq_has(obs.staged_ids, obs.node_id) <==> m.staged.contains(
        obs.node_id,
    ))
}

/// What performing a layout plan does to the topology: nothing when the
/// layout is already committed; otherwise the role is staged if needed and
/// the first version is committed.
pub open spec fn spec_topology_after_plan(
    m: TopologyModel,
    plan: crate::machine::LayoutPlanView,
) -> TopologyModel {
    match plan {
        crate::machine::LayoutPlanView::AlreadyLaidOut => m,
        crate::machine::LayoutPlanView::Stage(role) => TopologyModel {
            layout_version: crate::machine::FIRST_LAYOUT_VERSION as i64,
            staged: m.staged.insert(role.id),
        },
        crate::machine::LayoutPlanView::ApplyOnly => TopologyModel {
            layout_version: crate::machine::FIRST_LAYOUT_VERSION as i64,
            staged: m.staged,
        },
    }
}

/// An instance whose topology the operator manages is in Ready only with a
/// committed layout: one pass of the instance machine, run against a
/// faithful observation of the topology, preserves the invariant that a
/// Ready state implies a nonzero layout version.
pub proof fn lemma_instance_pass_preserves_layout_invariant(
    state: GarageState,
    obs: NodesObservationView,
    m: TopologyModel,
    name: Seq<char>,
    zone: Seq<char>,
    capacity: i64,
)
    requires
        spec_nodes_faithful(obs, m),
        state is Ready ==> m.layout_version != 0,
    ensures
        ({
            let plan = spec_plan_layout(name, zone, capacity, obs);
            let after = if state is LayingOut {
                spec_topology_after_plan(m, plan)
            } else {
                m
            };
            spec_instance_next(state, true, plan is AlreadyLaidOut).next_state is Ready
                ==> after.layout_version != 0
        }),
{
}

/// Out of the laying-out state, the machine reaches Ready exactly when the
/// admin API reported a committed (nonzero) layout version.
pub proof fn lemma_laying_out_ends_on_committed_version(
    auto_layout: bool,
    obs: NodesObservationView,
    name: Seq<char>,
    zone: Seq<char>,
    capacity: i64,
)
    ensures
        spec_instance_next(
            GarageState::LayingOut,
            auto_layout,
            spec_plan_layout(name, zone, capacity, obs) is AlreadyLaidOut,
        ).next_state is Ready <==> obs.layout_version != 0,
{
}

/// The buckets the storage service holds, as far as the machines touch
/// them: the existing ids and the alias directory.
pub struct BucketDirectory {
    pub ids: Set<Seq<char>>,
    pub aliases: Map<Seq<char>, Seq<char>>,
}

/// Every alias resolves to an existing, nonempty id.
pub open spec fn spec_bucket_dir_wf(d: BucketDirectory) -> bool {
    forall|a: Seq<char>|
        d.aliases.contains_key(a) ==> d.ids.contains(#[trigger] d.aliases[a]) && d.aliases[a].len()
            > 0
}

/// The event the driver feeds a bucket machine describes the directory:
/// lookups answer from the aliases, and a creation registers a fresh,
/// nonempty id under the bucket's alias.
pub open spec fn spec_bucket_event_faithful(
    b: BucketView,
    e: BucketEventView,
    d: BucketDirectory,
) -> bool {
    match e {
        BucketEventView::Looked(Some(id)) => d.aliases.contains_key(b.name) && d.aliases[b.name]
            == id,
        BucketEventView::Looked(None) => !d.aliases.contains_key(b.name),
        BucketEventView::Created(id) => id.len() > 0,
        _ => true,
    }
}

/// The directory after the event's side effect: a creation registers the
/// new bucket; nothing else changes it. The operator never deletes.
pub open spec fn spec_bucket_dir_after(
    b: BucketView,
    e: BucketEventView,
    d: BucketDirectory,
) -> BucketDirectory {
    match e {
        BucketEventView::Created(id) => BucketDirectory {
            ids: d.ids.insert(id),
            aliases: d.aliases.insert(b.name, id),
        },
        _ => d,
    }
}

/// A bucket's persisted id invariant: in Configuring or Ready the id is
/// nonempty and names an existing bucket.
pub open spec fn spec_bucket_id_invariant(status: BucketStatusView, d: BucketDirectory) -> bool {
    (status.state is Configuring || status.state is Ready) ==> status.id.len() > 0
        && d.ids.contains(status.id)
}

/// One pass of the bucket machine, run against faithful events, keeps the
/// directory well-formed and every status it persists satisfies the id
/// invariant: a bucket in Configuring or Ready records a nonempty id of an
/// existing bucket.
pub proof fn lemma_bucket_pass_preserves_id_invariant(
    b: BucketView,
    e: BucketEventView,
    d: BucketDirectory,
)
    requires
        spec_bucket_dir_wf(d),
        spec_bucket_event_fits(spec_bucket_state(b), e),
        spec_bucket_event_faithful(b, e, d),
        b.status matches Some(s) ==> spec_bucket_id_invariant(s, d),
    ensures
        spec_bucket_dir_wf(spec_bucket_dir_after(b, e, d)),
        match spec_bucket_next(b, e) {
            BucketActionView::Persist(status, _) => spec_bucket_id_invariant(
                status,
                spec_bucket_dir_after(b, e, d),
            ),
            _ => true,
        },
{
    let after = spec_bucket_dir_after(b, e, d);
    if e matches BucketEventView::Created(id) {
        assert forall|a: Seq<char>| after.aliases.contains_key(a) implies after.ids.contains(
            #[trigger] after.aliases[a],
        ) && after.aliases[a].len() > 0 by {
            if a == b.name {
            } else {
                assert(d.aliases.contains_key(a));
            }
        }
    }
}

/// A ready bucket's pass is idempotent: the machine asks for nothing
/// remote and persists the status unchanged, to be seen again in an hour.
pub proof fn lemma_bucket_ready_pass_idempotent(b: BucketView)
    requires
        spec_bucket_state(b) is Ready,
    ensures
        spec_bucket_next(b, BucketEventView::Begin) == BucketActionView::Persist(
            BucketStatusView { id: spec_bucket_id(b), state: BucketState::Ready },
            3600,
        ),
{
}

/// A ready instance's pass is idempotent: whatever the topology looked
/// like and whether or not the declaration still asks for automatic
/// layout, the machine stays in Ready and changes nothing remotely.
pub proof fn lemma_instance_ready_pass_idempotent(
    auto_layout_before: bool,
    auto_layout_now: bool,
    laid_out: bool,
)
    ensures
        spec_instance_next(GarageState::Ready, auto_layout_before, laid_out)
            == spec_instance_next(GarageState::Ready, auto_layout_now, laid_out),
        spec_instance_next(GarageState::Ready, auto_layout_now, laid_out).next_state is Ready,
        spec_instance_next(GarageState::Ready, auto_layout_now, laid_out).requeue_secs == 3600,
{
}

/// A ready access key's pass writes its credential object with exactly the
/// four entries key holders need — the issued pair, the region and the S3
/// endpoint — under the declared or derived object name. The entries are a
/// function of the fetched record and the instance alone, so a pass after
/// an out-of-band deletion recreates the object with the same pair.
pub proof fn lemma_access_ready_pass_writes_full_credentials(
    k: AccessKeyView,
    bucket: BucketView,
    g: GarageView,
    fetched: KeyReplyView,
)
    requires
        spec_access_state(k) is Ready,
        spec_access_event_fits(spec_access_state(k), AccessKeyEventView::Fetched(fetched)),
        g.namespace is Some,
    ensures
        ({
            let action = spec_access_next(k, bucket, g, AccessKeyEventView::Fetched(fetched));
            let entries = spec_access_secret_entries(
                fetched.access_key_id.unwrap(),
                fetched.secret_access_key.unwrap(),
                g.spec.config.region,
                spec_s3_endpoint_url(g.name, g.namespace.unwrap(), g.spec.config.ports.s3_api),
            );
            &&& action == AccessKeyActionView::WriteSecret(spec_access_secret_name(k), entries)
            &&& entries.len() == 4
            &&& entries[0].name == "AWS_ACCESS_KEY_ID"@
            &&& entries[1].name == "AWS_SECRET_ACCESS_KEY"@
            &&& entries[2].name == "AWS_DEFAULT_REGION"@
            &&& entries[3].name == "AWS_ENDPOINT_URL"@
        }),
{
}

/// A ready access key's pass ends by persisting its status unchanged.
pub proof fn lemma_access_ready_pass_idempotent(k: AccessKeyView, bucket: BucketView, g: GarageView)
    requires
        spec_access_state(k) is Ready,
    ensures
        spec_access_next(k, bucket, g, AccessKeyEventView::SecretWritten)
            == AccessKeyActionView::Persist(
            AccessKeyStatusView {
                id: spec_access_id(k),
                state: AccessKeyState::Ready,
                permissions_friendly: spec_access_friendly(k),
            },
            3600,
        ),
{
}

/// The sum of the per-claim byte counts, over the claims themselves.
pub open spec fn spec_claims_total(claims: Seq<ClaimObservationView>) -> int
    decreases claims.len(),
{
    if claims.len() == 0 {
        0
    } else {
        spec_claims_total(claims.drop_last()) + spec_claim_total(claims.last())
    }
}

/// The capacity an instance persists equals the sum of its data claims'
/// capacities: byte counts taken claim by claim sum to the claims' total.
pub proof fn lemma_capacity_is_claim_sum(claims: Seq<ClaimObservationView>, caps: Seq<i64>)
    requires
        caps.len() == claims.len(),
        forall|i: int|
            0 <= i < claims.len() ==> spec_claim_ok(#[trigger] claims[i]) && caps[i]
                == spec_claim_total(claims[i]),
    ensures
        spec_sum(caps) == spec_claims_total(claims),
    decreases claims.len(),
{
    if claims.len() > 0 {
        lemma_capacity_is_claim_sum(claims.drop_last(), caps.drop_last());
    }
}

/// A bucket view with its status replaced.
pub open spec fn spec_with_status(b: BucketView, status: Option<BucketStatusView>) -> BucketView {
    BucketView { name: b.name, namespace: b.namespace, spec: b.spec, status }
}

/// The status a bucket step persists, when it persists one.
pub open spec fn spec_persisted_status(b: BucketView, e: BucketEventView) -> Option<
    BucketStatusView,
> {
    match spec_bucket_next(b, e) {
        BucketActionView::Persist(status, _) => Some(status),
        _ => None,
    }
}

/// The id invariant, on a possibly still unwritten status.
pub open spec fn spec_bucket_inv_opt(
    status: Option<BucketStatusView>,
    d: BucketDirectory,
) -> bool {
    match status {
        Some(s) => spec_bucket_id_invariant(s, d),
        None => true,
    }
}

/// The statuses a bucket runs through: the one persisted by each step, or
/// the previous one where the step persisted nothing.
pub open spec fn spec_bucket_statuses(
    b: BucketView,
    events: Seq<BucketEventView>,
    from: Option<BucketStatusView>,
) -> Option<BucketStatusView>
    decreases events.len(),
{
    if events.len() == 0 {
        from
    } else {
        let prior = spec_bucket_statuses(b, events.drop_last(), from);
        match spec_persisted_status(spec_with_status(b, prior), events.last()) {
            Some(s) => Some(s),
            None => prior,
        }
    }
}

/// One step of a run is coherent when its event fits the state reached so
/// far and faithfully describes a well-formed directory, and the directory
/// up to the next step only ever gains ids — the operator deletes none,
/// and other actors only create.
pub open spec fn spec_bucket_step_ok(
    b: BucketView,
    events: Seq<BucketEventView>,
    dirs: Seq<BucketDirectory>,
    i: int,
) -> bool {
    let here = spec_with_status(b, spec_bucket_statuses(b, events.take(i), b.status));
    &&& spec_bucket_dir_wf(dirs[i])
    &&& spec_bucket_event_fits(spec_bucket_state(here), events[i])
    &&& spec_bucket_event_faithful(here, events[i], dirs[i])
    &&& spec_bucket_dir_after(here, events[i], dirs[i]).ids.subset_of(dirs[i + 1].ids)
}

/// A run of bucket reconcile steps is coherent when every step is.
pub open spec fn spec_bucket_run_ok(
    b: BucketView,
    events: Seq<BucketEventView>,
    dirs: Seq<BucketDirectory>,
) -> bool {
    &&& dirs.len() == events.len() + 1
    &&& forall|i: int| 0 <= i < events.len() ==> #[trigger] spec_bucket_step_ok(b, events, dirs, i)
}

/// An established id invariant survives the directory gaining ids.
pub proof fn lemma_bucket_invariant_survives_growth(
    status: BucketStatusView,
    narrow: BucketDirectory,
    wide: BucketDirectory,
)
    requires
        spec_bucket_id_invariant(status, narrow),
        narrow.ids.subset_of(wide.ids),
    ensures
        spec_bucket_id_invariant(status, wide),
{
}

/// The id invariant holds after any number of reconciles: run the bucket
/// machine through any coherent sequence of steps, starting from a status
/// that satisfies the invariant (a fresh bucket has none and satisfies it
/// trivially), and the status reached still records a nonempty id of an
/// existing bucket whenever it is in Configuring or Ready.
pub proof fn lemma_bucket_invariant_after_any_run(
    b: BucketView,
    events: Seq<BucketEventView>,
    dirs: Seq<BucketDirectory>,
)
    requires
        spec_bucket_run_ok(b, events, dirs),
        spec_bucket_inv_opt(b.status, dirs[0]),
    ensures
        spec_bucket_inv_opt(spec_bucket_statuses(b, events, b.status), dirs[events.len() as int]),
    decreases events.len(),
{
    if events.len() > 0 {
        let n = events.len() as int;
        let init = events.drop_last();
        let front = dirs.take(n);
        assert forall|i: int| 0 <= i < init.len() implies #[trigger] spec_bucket_step_ok(
            b,
            init,
            front,
            i,
        ) by {
            assert(spec_bucket_step_ok(b, events, dirs, i));
            assert(init.take(i) =~= events.take(i));
            assert(front[i] == dirs[i] && front[i + 1] == dirs[i + 1] && init[i] == events[i]);
        }
        lemma_bucket_invariant_after_any_run(b, init, front);
        let prior = spec_bucket_statuses(b, init, b.status);
        let here = spec_with_status(b, prior);
        let last = events.last();
        assert(spec_bucket_step_ok(b, events, dirs, n - 1));
        assert(events.take(n - 1) =~= init);
        assert(spec_bucket_inv_opt(prior, dirs[n - 1]));
        lemma_bucket_pass_preserves_id_invariant(here, last, dirs[n - 1]);
        let after = spec_bucket_dir_after(here, last, dirs[n - 1]);
        match spec_persisted_status(here, last) {
            Some(status) => {
                assert(spec_bucket_id_invariant(status, after));
                lemma_bucket_invariant_survives_growth(status, after, dirs[n]);
                assert(spec_bucket_statuses(b, events, b.status) == Some(status));
            },
            None => {
                match prior {
                    Some(status) => {
                        assert(spec_bucket_id_invariant(status, dirs[n - 1]));
                        assert(dirs[n - 1].ids.subset_of(after.ids));
                        lemma_bucket_invariant_survives_growth(status, dirs[n - 1], after);
                        lemma_bucket_invariant_survives_growth(status, after, dirs[n]);
                    },
                    None => {},
                }
            },
        }
    }
}

/// The instance states reached by running the machine through a sequence
/// of passes, each with what that pass observed of the topology.
pub open spec fn spec_instance_states(
    from: GarageState,
    auto_layout: bool,
    laid: Seq<bool>,
) -> GarageState
    decreases laid.len(),
{
    if laid.len() == 0 {
        from
    } else {
        spec_instance_next(
            spec_instance_states(from, auto_layout, laid.drop_last()),
            auto_layout,
            laid.last(),
        ).next_state
    }
}

/// A run of instance passes is coherent when each pass's done-flag is what
/// its layout plan said of a faithful observation of the topology of that
/// moment, and a committed layout is never uncommitted between passes —
/// the machine never lowers the version, and the storage service does not
/// either.
pub open spec fn spec_instance_run_ok(
    laid: Seq<bool>,
    versions: Seq<i64>,
) -> bool {
    &&& versions.len() == laid.len() + 1
    &&& forall|i: int| 0 <= i < laid.len() ==> (#[trigger] laid[i]) == (versions[i] != 0)
    &&& forall|i: int|
        0 <= i < laid.len() && (#[trigger] versions[i]) != 0 ==> versions[i + 1] != 0
}

/// An instance whose topology the operator manages is in Ready only with a
/// committed layout, after any number of reconciles: run the machine
/// through any coherent sequence of passes from the creating state, and
/// whenever the state reached is Ready the layout version of that moment
/// is nonzero.
pub proof fn lemma_instance_ready_laid_out_after_any_run(laid: Seq<bool>, versions: Seq<i64>)
    requires
        spec_instance_run_ok(laid, versions),
    ensures
        spec_instance_states(GarageState::Creating, true, laid) is Ready ==> versions[laid.len() as int]
            != 0,
    decreases laid.len(),
{
    if laid.len() > 0 {
        let n = laid.len() as int;
        let init = laid.drop_last();
        assert(spec_instance_run_ok(init, versions.take(n)));
        lemma_instance_ready_laid_out_after_any_run(init, versions.take(n));
        let prior = spec_instance_states(GarageState::Creating, true, init);
        if spec_instance_states(GarageState::Creating, true, laid) is Ready {
            match prior {
                GarageState::Ready => {
                    assert(versions[n - 1] != 0);
                },
                GarageState::LayingOut => {
                    assert(laid[n - 1]);
                    assert(versions[n - 1] != 0);
                },
                _ => {
                    assert(false);
                },
            }
        }
    }
}

/// The entry names of a credential object's content.
pub open spec fn spec_entry_names(entries: Seq<crate::admin::SecretEntryView>) -> Set<Seq<char>>
    decreases entries.len(),
{
    if entries.len() == 0 {
        Set::empty()
    } else {
        spec_entry_names(entries.drop_last()).insert(entries.last().name)
    }
}

/// The four entries every access credential object carries.
pub open spec fn spec_aws_entry_names() -> Set<Seq<char>> {
    set![
        "AWS_ACCESS_KEY_ID"@,
        "AWS_SECRET_ACCESS_KEY"@,
        "AWS_DEFAULT_REGION"@,
        "AWS_ENDPOINT_URL"@,
    ]
}

/// The cluster's credential objects, as far as the key machine touches
/// them: each object's name mapped to its entry names.
pub struct CredentialModel {
    pub objects: Map<Seq<char>, Set<Seq<char>>>,
}

/// What carrying out an action does to the credential objects: a write
/// files the entries under the object's name; nothing else touches them,
/// and the machine never deletes one.
pub open spec fn spec_credentials_after(
    m: CredentialModel,
    action: AccessKeyActionView,
) -> CredentialModel {
    match action {
        AccessKeyActionView::WriteSecret(name, entries) => CredentialModel {
            objects: m.objects.insert(name, spec_entry_names(entries)),
        },
        _ => m,
    }
}

/// After the write of a ready access key's pass, the referenced credential
/// object exists and holds exactly the four entries key holders need. The
/// same holds after a pass that follows an out-of-band deletion of the
/// object: the machine writes it afresh.
pub proof fn lemma_access_ready_pass_restores_credentials(
    k: AccessKeyView,
    bucket: BucketView,
    g: GarageView,
    fetched: KeyReplyView,
    m: CredentialModel,
)
    requires
        spec_access_state(k) is Ready,
        spec_access_event_fits(spec_access_state(k), AccessKeyEventView::Fetched(fetched)),
        g.namespace is Some,
    ensures
        ({
            let action = spec_access_next(k, bucket, g, AccessKeyEventView::Fetched(fetched));
            let after = spec_credentials_after(m, action);
            &&& after.objects.contains_key(spec_access_secret_name(k))
            &&& after.objects[spec_access_secret_name(k)] == spec_aws_entry_names()
        }),
{
    let entries = spec_access_secret_entries(
        fetched.access_key_id.unwrap(),
        fetched.secret_access_key.unwrap(),
        g.spec.config.region,
        spec_s3_endpoint_url(g.name, g.namespace.unwrap(), g.spec.config.ports.s3_api),
    );
    assert(spec_entry_names(entries) =~= spec_aws_entry_names()) by {
        reveal_with_fuel(spec_entry_names, 5);
        assert(entries.drop_last().drop_last().drop_last().drop_last() =~= Seq::empty());
        assert(entries.drop_last().drop_last().drop_last() =~= seq![entries[0]]);
        assert(entries.drop_last().drop_last() =~= seq![entries[0], entries[1]]);
        assert(entries.drop_last() =~= seq![entries[0], entries[1], entries[2]]);
    }
}

} // verus!
