//! Device verifications that are under way, and how they are told to the subscribers.

use vstd::prelude::*;
use vstd::string::*;
use vstd::utf8::*;

use crate::json;
use crate::json::{Json, JsonView};
use crate::text;

verus! {

/// How far a verification has come.
pub struct VerificationSnapshot {
    pub flow_id: String,
    pub user_id: String,
    pub device_id: Option<String>,
    pub stage: String,
    pub sas: Option<Json>,
}

/// How far a verification has come, as a mathematical value.
#[verifier::ext_equal]
pub struct SnapshotView {
    pub flow_id: Seq<char>,
    pub user_id: Seq<char>,
    pub device_id: Option<Seq<char>>,
    pub stage: Seq<char>,
    pub sas: Option<JsonView>,
}

impl View for VerificationSnapshot {
    type V = SnapshotView;

    open spec fn view(&self) -> SnapshotView {
        SnapshotView {
            flow_id: self.flow_id@,
            user_id: self.user_id@,
            device_id: text::opt_text(self.device_id),
            stage: self.stage@,
            sas: json::opt_view(self.sas),
        }
    }
}

impl VerificationSnapshot {
    /// A copy of the snapshot.
    pub fn copy(&self) -> (r: VerificationSnapshot)
        ensures
            r@ == self@,
    {
        VerificationSnapshot {
            flow_id: self.flow_id.clone(),
            user_id: self.user_id.clone(),
            device_id: text::clone_opt(&self.device_id),
            stage: self.stage.clone(),
            sas: json::copy_opt(&self.sas),
        }
    }
}

/// The views of a list of snapshots.
pub open spec fn snapshot_views(list: Seq<VerificationSnapshot>) -> Seq<SnapshotView> {
    list.map_values(|s: VerificationSnapshot| s@)
}

/// A verification of an account.
struct Flow {
    account_id: String,
    snapshot: VerificationSnapshot,
}

/// A verification of an account, as a mathematical value.
#[verifier::ext_equal]
pub struct FlowView {
    pub account_id: Seq<char>,
    pub snapshot: SnapshotView,
}

impl View for Flow {
    type V = FlowView;

    closed spec fn view(&self) -> FlowView {
        FlowView { account_id: self.account_id@, snapshot: self.snapshot@ }
    }
}

/// Whether an entry is that of the given account and flow.
pub open spec fn is_flow(entry: FlowView, account: Seq<char>, flow_id: Seq<char>) -> bool {
    entry.account_id == account && entry.snapshot.flow_id == flow_id
}

/// The place of the first entry of the given account and flow, or the length of the list.
pub open spec fn flow_place(flows: Seq<FlowView>, account: Seq<char>, flow_id: Seq<char>) -> nat
    decreases flows.len(),
{
    if flows.len() == 0 {
        0
    } else if is_flow(flows[0], account, flow_id) {
        0
    } else {
        1 + flow_place(flows.drop_first(), account, flow_id)
    }
}

/// The verification of the given account and flow.
pub open spec fn find_flow(flows: Seq<FlowView>, account: Seq<char>, flow_id: Seq<char>) -> Option<
    SnapshotView,
> {
    let at = flow_place(flows, account, flow_id);
    if at < flows.len() {
        Some(flows[at as int].snapshot)
    } else {
        None
    }
}

/// Whether each account has at most one entry of each flow.
pub open spec fn one_per_flow(flows: Seq<FlowView>) -> bool {
    forall|i: int, j: int|
        0 <= i < j < flows.len() ==> !is_flow(
            #[trigger] flows[i],
            (#[trigger] flows[j]).account_id,
            flows[j].snapshot.flow_id,
        )
}

/// The entries with the given one in place of that of the same account and flow, or at the
/// end where there is none.
pub open spec fn flow_stored(
    flows: Seq<FlowView>,
    account: Seq<char>,
    snapshot: SnapshotView,
) -> Seq<FlowView> {
    let at = flow_place(flows, account, snapshot.flow_id);
    let entry = FlowView { account_id: account, snapshot };
    if at < flows.len() {
        flows.update(at as int, entry)
    } else {
        flows.push(entry)
    }
}

/// The entries without that of the given account and flow.
pub open spec fn flow_removed(
    flows: Seq<FlowView>,
    account: Seq<char>,
    flow_id: Seq<char>,
) -> Seq<FlowView> {
    let at = flow_place(flows, account, flow_id);
    if at < flows.len() {
        flows.remove(at as int)
    } else {
        flows
    }
}

/// The snapshot of a flow once its short authentication string is there.
pub open spec fn sas_snapshot(
    before: Option<SnapshotView>,
    flow_id: Seq<char>,
    user_id: Seq<char>,
    sas: JsonView,
) -> SnapshotView {
    match before {
        Some(s) => SnapshotView { stage: "sas"@, sas: Some(sas), ..s },
        None => SnapshotView { flow_id, user_id, device_id: None, stage: "sas"@, sas: Some(sas) },
    }
}

/// Whether a flow has its short authentication string already.
pub open spec fn has_sas(flows: Seq<FlowView>, account: Seq<char>, flow_id: Seq<char>) -> bool {
    match find_flow(flows, account, flow_id) {
        Some(s) => s.sas is Some,
        None => false,
    }
}

/// The entries once the flow has its short authentication string: the first one stays.
pub open spec fn sas_stored(
    flows: Seq<FlowView>,
    account: Seq<char>,
    flow_id: Seq<char>,
    user_id: Seq<char>,
    sas: JsonView,
) -> Seq<FlowView> {
    if has_sas(flows, account, flow_id) {
        flows
    } else {
        flow_stored(
            flows,
            account,
            sas_snapshot(find_flow(flows, account, flow_id), flow_id, user_id, sas),
        )
    }
}

/// The verifications of an account, in order.
pub open spec fn flows_of(flows: Seq<FlowView>, account: Seq<char>) -> Seq<SnapshotView>
    decreases flows.len(),
{
    if flows.len() == 0 {
        Seq::empty()
    } else {
        let before = flows_of(flows.drop_last(), account);
        if flows.last().account_id == account {
            before.push(flows.last().snapshot)
        } else {
            before
        }
    }
}

/// Where a search ends: at an entry of the flow with none before it, or at the end with
/// none in the list.
pub proof fn lemma_flow_place(flows: Seq<FlowView>, account: Seq<char>, flow_id: Seq<char>)
    ensures
        flow_place(flows, account, flow_id) <= flows.len(),
        flow_place(flows, account, flow_id) < flows.len() ==> is_flow(
            flows[flow_place(flows, account, flow_id) as int],
            account,
            flow_id,
        ),
        forall|i: int|
            0 <= i < flow_place(flows, account, flow_id) ==> !is_flow(
                #[trigger] flows[i],
                account,
                flow_id,
            ),
    decreases flows.len(),
{
    if flows.len() > 0 && !is_flow(flows[0], account, flow_id) {
        let rest = flows.drop_first();
        lemma_flow_place(rest, account, flow_id);
        assert forall|i: int| 0 <= i < flow_place(flows, account, flow_id) implies !is_flow(
            #[trigger] flows[i],
            account,
            flow_id,
        ) by {
            if i > 0 {
                assert(rest[i - 1] == flows[i]);
            }
        }
    }
}

proof fn lemma_flow_place_is(
    flows: Seq<FlowView>,
    account: Seq<char>,
    flow_id: Seq<char>,
    at: int,
)
    requires
        0 <= at <= flows.len(),
        at < flows.len() ==> is_flow(flows[at], account, flow_id),
        forall|i: int| 0 <= i < at ==> !is_flow(#[trigger] flows[i], account, flow_id),
    ensures
        flow_place(flows, account, flow_id) == at,
{
    lemma_flow_place(flows, account, flow_id);
    let found = flow_place(flows, account, flow_id) as int;
    if found < at {
        assert(!is_flow(flows[found], account, flow_id));
    } else if at < found {
        assert(!is_flow(flows[at], account, flow_id));
    }
}

/// Storing a verification keeps one entry per flow; it is found afterwards, and every other
/// flow is as it was.
pub proof fn law_flow_stored(
    flows: Seq<FlowView>,
    account: Seq<char>,
    snapshot: SnapshotView,
    other: Seq<char>,
    other_flow: Seq<char>,
)
    ensures
        one_per_flow(flows) ==> one_per_flow(flow_stored(flows, account, snapshot)),
        find_flow(flow_stored(flows, account, snapshot), account, snapshot.flow_id) == Some(
            snapshot,
        ),
        other != account || other_flow != snapshot.flow_id ==> find_flow(
            flow_stored(flows, account, snapshot),
            other,
            other_flow,
        ) == find_flow(flows, other, other_flow),
{
    let flow_id = snapshot.flow_id;
    let after = flow_stored(flows, account, snapshot);
    let at = flow_place(flows, account, flow_id) as int;
    lemma_flow_place(flows, account, flow_id);
    lemma_flow_place(flows, other, other_flow);
    let there = flow_place(flows, other, other_flow) as int;
    lemma_flow_place_is(after, account, flow_id, at);
    if other != account || other_flow != flow_id {
        if there < flows.len() {
            lemma_flow_place_is(after, other, other_flow, there);
        } else {
            lemma_flow_place_is(after, other, other_flow, after.len() as int);
        }
    }
}

/// After a removal the flow is gone, the list keeps one entry per flow, and every other
/// flow is as it was.
pub proof fn law_flow_removed(
    flows: Seq<FlowView>,
    account: Seq<char>,
    flow_id: Seq<char>,
    other: Seq<char>,
    other_flow: Seq<char>,
)
    requires
        one_per_flow(flows),
    ensures
        one_per_flow(flow_removed(flows, account, flow_id)),
        find_flow(flow_removed(flows, account, flow_id), account, flow_id) is None,
        other != account || other_flow != flow_id ==> find_flow(
            flow_removed(flows, account, flow_id),
            other,
            other_flow,
        ) == find_flow(flows, other, other_flow),
{
    let after = flow_removed(flows, account, flow_id);
    let at = flow_place(flows, account, flow_id) as int;
    lemma_flow_place(flows, account, flow_id);
    lemma_flow_place(flows, other, other_flow);
    let there = flow_place(flows, other, other_flow) as int;
    if at < flows.len() {
        assert forall|i: int| 0 <= i < after.len() implies #[trigger] after[i] == flows[if i < at {
            i
        } else {
            i + 1
        }] by {}
        assert forall|i: int| 0 <= i < after.len() implies !is_flow(
            #[trigger] after[i],
            account,
            flow_id,
        ) by {
            if i >= at {
                assert(is_flow(flows[at], account, flow_id));
                assert(!is_flow(flows[at], flows[i + 1].account_id, flows[i + 1].snapshot.flow_id));
            }
        }
        lemma_flow_place_is(after, account, flow_id, after.len() as int);
        if other != account || other_flow != flow_id {
            if there < at {
                lemma_flow_place_is(after, other, other_flow, there);
            } else {
                assert(there > at);
                lemma_flow_place_is(after, other, other_flow, there - 1);
            }
        }
    } else {
        lemma_flow_place_is(after, account, flow_id, after.len() as int);
    }
}

/// A verification that was stored is listed among those of its account, and of no other.
pub proof fn law_stored_flow_is_listed(
    flows: Seq<FlowView>,
    account: Seq<char>,
    snapshot: SnapshotView,
    other: Seq<char>,
)
    ensures
        flows_of(flow_stored(flows, account, snapshot), account).contains(snapshot),
        other != account ==> flows_of(flow_stored(flows, account, snapshot), other) == flows_of(
            flows,
            other,
        ),
{
    let after = flow_stored(flows, account, snapshot);
    let at = flow_place(flows, account, snapshot.flow_id) as int;
    lemma_flow_place(flows, account, snapshot.flow_id);
    assert(after[at] == (FlowView { account_id: account, snapshot }));
    lemma_listed(after, account, at);
    if at < flows.len() {
        lemma_update_elsewhere(flows, at, after[at], other);
    } else {
        assert(after.drop_last() =~= flows);
    }
}

proof fn lemma_listed(flows: Seq<FlowView>, account: Seq<char>, at: int)
    requires
        0 <= at < flows.len(),
        flows[at].account_id == account,
    ensures
        flows_of(flows, account).contains(flows[at].snapshot),
    decreases flows.len(),
{
    let before = flows_of(flows.drop_last(), account);
    let all = flows_of(flows, account);
    if at == flows.len() - 1 {
        assert(all.last() == flows[at].snapshot);
    } else {
        lemma_listed(flows.drop_last(), account, at);
        let k = choose|k: int| 0 <= k < before.len() && before[k] == flows[at].snapshot;
        assert(all[k] == flows[at].snapshot);
    }
}

proof fn lemma_update_elsewhere(flows: Seq<FlowView>, at: int, entry: FlowView, other: Seq<char>)
    requires
        0 <= at < flows.len(),
        flows[at].account_id == entry.account_id,
    ensures
        other != entry.account_id ==> flows_of(flows.update(at, entry), other) == flows_of(
            flows,
            other,
        ),
    decreases flows.len(),
{
    let after = flows.update(at, entry);
    if at == flows.len() - 1 {
        assert(after.drop_last() =~= flows.drop_last());
    } else {
        assert(after.drop_last() =~= flows.drop_last().update(at, entry));
        lemma_update_elsewhere(flows.drop_last(), at, entry, other);
    }
}

/// A flow gets its short authentication string once: a second one changes nothing.
pub proof fn law_sas_is_set_once(
    flows: Seq<FlowView>,
    account: Seq<char>,
    flow_id: Seq<char>,
    user_id: Seq<char>,
    sas: JsonView,
    second_user: Seq<char>,
    second: JsonView,
)
    ensures
        ({
            let once = sas_stored(flows, account, flow_id, user_id, sas);
            &&& has_sas(once, account, flow_id)
            &&& sas_stored(once, account, flow_id, second_user, second) == once
            &&& !has_sas(flows, account, flow_id) ==> find_flow(once, account, flow_id)->0.sas
                == Some(sas)
            &&& one_per_flow(flows) ==> one_per_flow(once)
        }),
{
    if !has_sas(flows, account, flow_id) {
        lemma_flow_place(flows, account, flow_id);
        let snapshot = sas_snapshot(
            find_flow(flows, account, flow_id),
            flow_id,
            user_id,
            sas,
        );
        law_flow_stored(flows, account, snapshot, account, flow_id);
    }
}

/// The verifications that are under way.
pub struct Verifications {
    flows: Vec<Flow>,
}

spec fn flow_views(list: Seq<Flow>) -> Seq<FlowView> {
    list.map_values(|f: Flow| f@)
}

impl View for Verifications {
    type V = Seq<FlowView>;

    closed spec fn view(&self) -> Seq<FlowView> {
        flow_views(self.flows@)
    }
}

impl Verifications {
    /// Each account has at most one entry of each flow.
    #[verifier::type_invariant]
    spec fn keyed(self) -> bool {
        one_per_flow(self@)
    }

    /// No verifications.
    pub fn new() -> (r: Verifications)
        ensures
            r@ == Seq::<FlowView>::empty(),
    {
        let r = Verifications { flows: Vec::new() };
        assert(r@ =~= Seq::<FlowView>::empty());
        r
    }

    fn place(&self, account_id: &str, flow_id: &str) -> (r: usize)
        ensures
            r <= self.flows.len(),
            r == flow_place(self@, account_id@, flow_id@),
    {
        let mut i: usize = 0;
        while i < self.flows.len()
            invariant
                i <= self.flows.len(),
                forall|k: int| 0 <= k < i ==> !is_flow(#[trigger] self@[k], account_id@, flow_id@),
            decreases self.flows.len() - i,
        {
            let f: &Flow = &self.flows[i];
            assert(self@[i as int] == f@);
            if text::str_eq(f.account_id.as_str(), account_id) && text::str_eq(
                f.snapshot.flow_id.as_str(),
                flow_id,
            ) {
                proof {
                    lemma_flow_place_is(self@, account_id@, flow_id@, i as int);
                }
                return i;
            }
            i = i + 1;
        }
        proof {
            lemma_flow_place_is(self@, account_id@, flow_id@, i as int);
        }
        i
    }

    /// The verification of the given account and flow.
    pub fn find(&self, account_id: &str, flow_id: &str) -> (r: Option<&VerificationSnapshot>)
        ensures
            match r {
                Some(s) => find_flow(self@, account_id@, flow_id@) == Some(s@),
                None => find_flow(self@, account_id@, flow_id@) is None,
            },
            one_per_flow(self@),
    {
        proof {
            use_type_invariant(&*self);
        }
        let i: usize = self.place(account_id, flow_id);
        if i < self.flows.len() {
            assert(self@[i as int] == self.flows@[i as int]@);
            Some(&self.flows[i].snapshot)
        } else {
            None
        }
    }

    /// Stores a verification in place of that of the same account and flow.
    pub fn store(&mut self, account_id: &str, snapshot: VerificationSnapshot)
        ensures
            final(self)@ == flow_stored(old(self)@, account_id@, snapshot@),
            one_per_flow(final(self)@),
    {
        proof {
            use_type_invariant(&*self);
        }
        let ghost before = self@;
        let ghost entry = FlowView { account_id: account_id@, snapshot: snapshot@ };
        proof {
            law_flow_stored(before, account_id@, snapshot@, account_id@, snapshot@.flow_id);
        }
        let at: usize = self.place(account_id, snapshot.flow_id.as_str());
        let mut flows: Vec<Flow> = Vec::new();
        assert(flow_views(flows@) =~= Seq::<FlowView>::empty());
        std::mem::swap(&mut flows, &mut self.flows);
        let flow = Flow { account_id: account_id.to_owned(), snapshot };
        if at < flows.len() {
            flows.set(at, flow);
            assert(flow_views(flows@) =~= before.update(at as int, entry));
        } else {
            flows.push(flow);
            assert(flow_views(flows@) =~= before.push(entry));
        }
        self.flows = flows;
    }

    /// Removes a verification, and says whether there was one.
    pub fn remove(&mut self, account_id: &str, flow_id: &str) -> (r: bool)
        ensures
            r == (find_flow(old(self)@, account_id@, flow_id@) is Some),
            final(self)@ == flow_removed(old(self)@, account_id@, flow_id@),
            one_per_flow(final(self)@),
    {
        proof {
            use_type_invariant(&*self);
        }
        let ghost before = self@;
        proof {
            law_flow_removed(before, account_id@, flow_id@, account_id@, flow_id@);
        }
        let at: usize = self.place(account_id, flow_id);
        if at < self.flows.len() {
            let mut flows: Vec<Flow> = Vec::new();
            assert(flow_views(flows@) =~= Seq::<FlowView>::empty());
            std::mem::swap(&mut flows, &mut self.flows);
            let _ = flows.remove(at);
            assert(flow_views(flows@) =~= before.remove(at as int));
            self.flows = flows;
            true
        } else {
            false
        }
    }

    /// Gives a flow its short authentication string, unless it has one, and says whether it
    /// did.
    pub fn set_sas_snapshot(
        &mut self,
        account_id: &str,
        flow_id: &str,
        user_id: &str,
        sas: &Json,
    ) -> (r: bool)
        ensures
            r == !has_sas(old(self)@, account_id@, flow_id@),
            final(self)@ == sas_stored(old(self)@, account_id@, flow_id@, user_id@, sas@),
            one_per_flow(final(self)@),
    {
        proof {
            use_type_invariant(&*self);
            lemma_flow_place(self@, account_id@, flow_id@);
        }
        let mut snapshot: VerificationSnapshot = match self.find(account_id, flow_id) {
            Some(s) => s.copy(),
            None => VerificationSnapshot {
                flow_id: flow_id.to_owned(),
                user_id: user_id.to_owned(),
                device_id: None,
                stage: "sas".to_owned(),
                sas: None,
            },
        };
        if snapshot.sas.is_some() {
            return false;
        }
        snapshot.stage = "sas".to_owned();
        snapshot.sas = Some(sas.copy());
        assert(snapshot@ == sas_snapshot(
            find_flow(self@, account_id@, flow_id@),
            flow_id@,
            user_id@,
            sas@,
        ));
        self.store(account_id, snapshot);
        true
    }

    /// The verifications of an account, in order.
    pub fn of_account(&self, account_id: &str) -> (r: Vec<VerificationSnapshot>)
        ensures
            snapshot_views(r@) == flows_of(self@, account_id@),
    {
        let mut out: Vec<VerificationSnapshot> = Vec::new();
        let mut i: usize = 0;
        assert(snapshot_views(out@) =~= flows_of(self@.take(0), account_id@));
        while i < self.flows.len()
            invariant
                i <= self.flows.len(),
                snapshot_views(out@) == flows_of(self@.take(i as int), account_id@),
            decreases self.flows.len() - i,
        {
            let f: &Flow = &self.flows[i];
            assert(self@.take(i + 1).drop_last() =~= self@.take(i as int));
            assert(self@.take(i + 1).last() == f@);
            let ghost before = out@;
            if text::str_eq(f.account_id.as_str(), account_id) {
                out.push(f.snapshot.copy());
                assert(snapshot_views(out@) =~= snapshot_views(before).push(f@.snapshot));
            }
            i = i + 1;
        }
        assert(self@.take(self@.len() as int) =~= self@);
        out
    }
}

/// Whether the short form of a flow's id can be cut off: its eighth byte ends a character.
pub open spec fn can_shorten(flow_id: Seq<char>) -> bool {
    encode_utf8(flow_id).len() > 8 ==> is_char_boundary(encode_utf8(flow_id), 8)
}

/// The short form of a flow's id: its first eight bytes.
pub open spec fn short_id(flow_id: Seq<char>) -> Seq<char> {
    if encode_utf8(flow_id).len() > 8 {
        decode_utf8(encode_utf8(flow_id).subrange(0, 8))
    } else {
        flow_id
    }
}

/// Whether the short form of a flow's id can be cut off.
pub fn is_shortenable(flow_id: &str) -> (r: bool)
    ensures
        r == can_shorten(flow_id@),
{
    flow_id.as_bytes().len() <= 8 || flow_id.is_char_boundary(8)
}

/// The short form of a flow's id.
pub fn shorten(flow_id: &str) -> (r: String)
    requires
        can_shorten(flow_id@),
    ensures
        r@ == short_id(flow_id@),
{
    broadcast use encode_utf8_decode_utf8;

    if flow_id.as_bytes().len() > 8 {
        let (head, _tail) = flow_id.split_at(8);
        assert(decode_utf8(encode_utf8(head@)) == head@);
        head.to_owned()
    } else {
        flow_id.to_owned()
    }
}

/// Whose verification it is.
pub open spec fn flow_json(flow_id: Seq<char>, user_id: Seq<char>) -> JsonView {
    JsonView::object().with("flow_id"@, JsonView::Text(flow_id)).with(
        "user_id"@,
        JsonView::Text(user_id),
    )
}

/// The stage of a verification.
pub open spec fn stage_json(flow_id: Seq<char>, user_id: Seq<char>, stage: Seq<char>) -> JsonView {
    flow_json(flow_id, user_id).with("stage"@, JsonView::Text(stage))
}

/// The stage of a verification with a device, or without one.
pub open spec fn device_stage_json(
    flow_id: Seq<char>,
    user_id: Seq<char>,
    device_id: Option<Seq<char>>,
    stage: Seq<char>,
) -> JsonView {
    flow_json(flow_id, user_id).with("device_id"@, json::opt_text_view(device_id)).with(
        "stage"@,
        JsonView::Text(stage),
    )
}

/// How a verification ended.
pub open spec fn ended_json(flow_id: Seq<char>, user_id: Seq<char>, reason: Seq<char>) -> JsonView {
    flow_json(flow_id, user_id).with("reason"@, JsonView::Text(reason))
}

/// The short authentication string of a verification.
pub open spec fn sas_event_json(flow_id: Seq<char>, user_id: Seq<char>, sas: JsonView) -> JsonView {
    flow_json(flow_id, user_id).with("supports_emoji"@, sas.get_or_null("supports_emoji"@)).with(
        "can_be_presented"@,
        sas.get_or_null("can_be_presented"@),
    ).with("emoji"@, sas.get_or_null("emoji"@)).with("decimals"@, sas.get_or_null("decimals"@))
}

fn flow_data(flow_id: &str, user_id: &str) -> (r: Json)
    ensures
        r is Object,
        r@ == flow_json(flow_id@, user_id@),
{
    Json::object().with("flow_id", Json::text(flow_id)).with("user_id", Json::text(user_id))
}

/// The stage of a verification.
pub fn stage_data(flow_id: &str, user_id: &str, stage: &str) -> (r: Json)
    ensures
        r@ == stage_json(flow_id@, user_id@, stage@),
{
    flow_data(flow_id, user_id).with("stage", Json::text(stage))
}

/// The stage of a verification with a device, or without one.
pub fn device_stage_data(
    flow_id: &str,
    user_id: &str,
    device_id: &Option<String>,
    stage: &str,
) -> (r: Json)
    ensures
        r@ == device_stage_json(flow_id@, user_id@, text::opt_text(*device_id), stage@),
{
    flow_data(flow_id, user_id).with("device_id", Json::opt_text(device_id)).with(
        "stage",
        Json::text(stage),
    )
}

/// How a verification ended.
pub fn ended_data(flow_id: &str, user_id: &str, reason: &str) -> (r: Json)
    ensures
        r@ == ended_json(flow_id@, user_id@, reason@),
{
    flow_data(flow_id, user_id).with("reason", Json::text(reason))
}

/// The short authentication string of a verification.
pub fn sas_event_data(flow_id: &str, user_id: &str, sas: &Json) -> (r: Json)
    ensures
        r@ == sas_event_json(flow_id@, user_id@, sas@),
{
    flow_data(flow_id, user_id).with("supports_emoji", sas.copy_at("supports_emoji")).with(
        "can_be_presented",
        sas.copy_at("can_be_presented"),
    ).with("emoji", sas.copy_at("emoji")).with("decimals", sas.copy_at("decimals"))
}

/// What a short authentication string shows of itself.
pub struct SasFacts {
    pub supports_emoji: bool,
    pub can_be_presented: bool,
    pub is_done: bool,
    pub is_cancelled: bool,
    pub decimals: Option<(u16, u16, u16)>,
    /// Symbols with their descriptions.
    pub emoji: Option<Vec<(String, String)>>,
}

/// One emoji as JSON.
pub open spec fn emoji_json(emoji: (String, String)) -> JsonView {
    JsonView::object().with("symbol"@, JsonView::Text(emoji.0@)).with(
        "description"@,
        JsonView::Text(emoji.1@),
    )
}

/// A short authentication string as JSON.
pub open spec fn sas_json(sas: SasFacts) -> JsonView {
    let flags = JsonView::object().with("supports_emoji"@, JsonView::Bool(sas.supports_emoji)).with(
        "can_be_presented"@,
        JsonView::Bool(sas.can_be_presented),
    ).with("is_done"@, JsonView::Bool(sas.is_done)).with(
        "is_cancelled"@,
        JsonView::Bool(sas.is_cancelled),
    );
    let numbered = match sas.decimals {
        Some(d) => flags.with(
            "decimals"@,
            JsonView::Array(
                seq![
                    JsonView::Unsigned(d.0 as u64),
                    JsonView::Unsigned(d.1 as u64),
                    JsonView::Unsigned(d.2 as u64),
                ],
            ),
        ),
        None => flags,
    };
    match sas.emoji {
        Some(list) => numbered.with(
            "emoji"@,
            JsonView::Array(list@.map_values(|e: (String, String)| emoji_json(e))),
        ),
        None => numbered,
    }
}

fn emoji_items(list: &Vec<(String, String)>) -> (r: Json)
    ensures
        r@ == JsonView::Array(list@.map_values(|e: (String, String)| emoji_json(e))),
{
    let mut items: Vec<Json> = Vec::new();
    let mut i: usize = 0;
    while i < list.len()
        invariant
            i <= list.len(),
            items.len() == i,
            forall|k: int| 0 <= k < i ==> (#[trigger] items@[k])@ == emoji_json(list@[k]),
        decreases list.len() - i,
    {
        items.push(
            Json::object().with("symbol", Json::text(list[i].0.as_str())).with(
                "description",
                Json::text(list[i].1.as_str()),
            ),
        );
        i = i + 1;
    }
    assert(json::views(items@) =~= list@.map_values(|e: (String, String)| emoji_json(e)));
    Json::array(items)
}

/// A short authentication string as JSON.
pub fn sas_to_json(sas: &SasFacts) -> (r: Json)
    ensures
        r@ == sas_json(*sas),
{
    let flags: Json = Json::object().with("supports_emoji", Json::Bool(sas.supports_emoji)).with(
        "can_be_presented",
        Json::Bool(sas.can_be_presented),
    ).with("is_done", Json::Bool(sas.is_done)).with("is_cancelled", Json::Bool(sas.is_cancelled));
    let numbered: Json = match &sas.decimals {
        Some(d) => {
            let mut items: Vec<Json> = Vec::new();
            items.push(Json::Unsigned(d.0 as u64));
            items.push(Json::Unsigned(d.1 as u64));
            items.push(Json::Unsigned(d.2 as u64));
            assert(json::views(items@) =~= seq![
                JsonView::Unsigned(d.0 as u64),
                JsonView::Unsigned(d.1 as u64),
                JsonView::Unsigned(d.2 as u64),
            ]);
            flags.with("decimals", Json::array(items))
        },
        None => flags,
    };
    match &sas.emoji {
        Some(list) => numbered.with("emoji", emoji_items(list)),
        None => numbered,
    }
}

} // verus!
