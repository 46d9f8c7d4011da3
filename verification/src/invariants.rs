//! What every request and everything that comes in from a homeserver keeps.

use vstd::prelude::*;

use crate::daemon::{DaemonView, Event, Resume, Step};
use crate::events;
use crate::json::JsonView;
use crate::matrix;
use crate::requests;
use crate::requests::Params;
use crate::rpc::RpcRequest;
use crate::state;
use crate::verification;

verus! {

/// Whether the daemon is in order: the accounts have distinct ids below the counter, each
/// account's history is its latest events without a gap, and no verification stands in the
/// list twice.
pub open spec fn sound(d: DaemonView) -> bool {
    &&& d.state.ids_issued()
    &&& d.bus.in_order()
    &&& verification::one_per_flow(d.runtime.flows)
}

/// Whether nothing that was told is taken back: what waits for the subscribers only grows,
/// and the numbers of the events never go down.
pub open spec fn told_on(before: events::BusView, after: events::BusView) -> bool {
    &&& before.outbox.is_prefix_of(after.outbox)
    &&& forall|a: Seq<char>| #[trigger] before.log(a).last <= after.log(a).last
}

proof fn lemma_emitted_tells_on(
    bus: events::BusView,
    account: Seq<char>,
    event_type: Seq<char>,
    data: JsonView,
)
    ensures
        told_on(bus, bus.emitted(account, event_type, data)),
        bus.in_order() ==> bus.emitted(account, event_type, data).in_order(),
{
    let after = bus.emitted(account, event_type, data);
    assert(bus.outbox =~= after.outbox.subrange(0, bus.outbox.len() as int));
    if bus.in_order() {
        events::law_emit_keeps_order(bus, account, event_type, data);
    }
}

proof fn lemma_told_on_twice(a: events::BusView, b: events::BusView, c: events::BusView)
    requires
        told_on(a, b),
        told_on(b, c),
    ensures
        told_on(a, c),
{
    assert(a.outbox =~= c.outbox.subrange(0, a.outbox.len() as int)) by {
        assert(a.outbox == b.outbox.subrange(0, a.outbox.len() as int));
        assert(b.outbox == c.outbox.subrange(0, b.outbox.len() as int));
    }
    assert forall|x: Seq<char>| #[trigger] a.log(x).last <= c.log(x).last by {
        assert(a.log(x).last <= b.log(x).last);
        assert(b.log(x).last <= c.log(x).last);
    }
}

proof fn lemma_steps_keep()
    ensures
        forall|bus: events::BusView| #[trigger] told_on(bus, bus),
        forall|bus: events::BusView, a: Seq<char>, t: Seq<char>, d: JsonView|
            told_on(bus, #[trigger] bus.emitted(a, t, d)),
        forall|bus: events::BusView, a: Seq<char>, t: Seq<char>, d: JsonView|
            bus.in_order() ==> #[trigger] bus.emitted(a, t, d).in_order(),
        forall|
            bus: events::BusView,
            a: Seq<char>,
            t: Seq<char>,
            d: JsonView,
            a2: Seq<char>,
            t2: Seq<char>,
            d2: JsonView,
        |
            told_on(bus, #[trigger] bus.emitted(a, t, d).emitted(a2, t2, d2)),
        forall|f: Seq<verification::FlowView>, a: Seq<char>, s: verification::SnapshotView|
            verification::one_per_flow(f) ==> verification::one_per_flow(
                #[trigger] verification::flow_stored(f, a, s),
            ),
        forall|f: Seq<verification::FlowView>, a: Seq<char>, id: Seq<char>|
            verification::one_per_flow(f) ==> verification::one_per_flow(
                #[trigger] verification::flow_removed(f, a, id),
            ),
        forall|st: state::StateView, id: Seq<char>|
            (#[trigger] st.find(id)) is Some ==> st.find(id)->0.id == id,
        forall|st: state::StateView, id: Seq<char>, account: state::AccountView|
            st.ids_issued() && account.id == id ==> (#[trigger] st.replaced(
                id,
                account,
            )).ids_issued(),
        forall|st: state::StateView, h: Seq<char>, m: Option<state::LoginMethod>|
            st.ids_issued() ==> (#[trigger] st.added(h, m)).ids_issued(),
{
    assert forall|bus: events::BusView| #[trigger] told_on(bus, bus) by {
        assert(bus.outbox =~= bus.outbox.subrange(0, bus.outbox.len() as int));
    }
    assert forall|bus: events::BusView, a: Seq<char>, t: Seq<char>, d: JsonView| told_on(
        bus,
        #[trigger] bus.emitted(a, t, d),
    ) by {
        lemma_emitted_tells_on(bus, a, t, d);
    }
    assert forall|bus: events::BusView, a: Seq<char>, t: Seq<char>, d: JsonView|
        bus.in_order() implies #[trigger] bus.emitted(a, t, d).in_order() by {
        lemma_emitted_tells_on(bus, a, t, d);
    }
    assert forall|
        bus: events::BusView,
        a: Seq<char>,
        t: Seq<char>,
        d: JsonView,
        a2: Seq<char>,
        t2: Seq<char>,
        d2: JsonView,
    | told_on(bus, #[trigger] bus.emitted(a, t, d).emitted(a2, t2, d2)) by {
        let once = bus.emitted(a, t, d);
        lemma_emitted_tells_on(bus, a, t, d);
        lemma_emitted_tells_on(once, a2, t2, d2);
        lemma_told_on_twice(bus, once, once.emitted(a2, t2, d2));
    }
    assert forall|f: Seq<verification::FlowView>, a: Seq<char>, s: verification::SnapshotView|
        verification::one_per_flow(f) implies verification::one_per_flow(
        #[trigger] verification::flow_stored(f, a, s),
    ) by {
        verification::law_flow_stored(f, a, s, a, s.flow_id);
    }
    assert forall|f: Seq<verification::FlowView>, a: Seq<char>, id: Seq<char>|
        verification::one_per_flow(f) implies verification::one_per_flow(
        #[trigger] verification::flow_removed(f, a, id),
    ) by {
        verification::law_flow_removed(f, a, id, a, id);
    }
    assert forall|st: state::StateView, id: Seq<char>|
        (#[trigger] st.find(id)) is Some implies st.find(id)->0.id == id by {
        state::lemma_place_found(st.accounts, id);
    }
    assert forall|st: state::StateView, id: Seq<char>, account: state::AccountView|
        st.ids_issued() && account.id == id implies (#[trigger] st.replaced(
        id,
        account,
    )).ids_issued() by {
        if st.find(id) is Some {
            state::law_replaced_account(st, id, account, id);
        }
    }
    assert forall|st: state::StateView, h: Seq<char>, m: Option<state::LoginMethod>|
        st.ids_issued() implies (#[trigger] st.added(h, m)).ids_issued() by {
        state::law_added_account_is_new(st, h, m);
    }
}

/// The start of a request keeps the daemon in order and takes back nothing that was told.
pub proof fn law_request_keeps_order(
    before: DaemonView,
    request: RpcRequest,
    read: Option<Result<Params, String>>,
    after: DaemonView,
    s: Step,
)
    requires
        sound(before),
        requests::handled(before, request, read, after, s),
    ensures
        sound(after),
        told_on(before.bus, after.bus),
{
    lemma_steps_keep();
}

/// Every further step of a request keeps the daemon in order and takes back nothing that
/// was told.
pub proof fn law_resume_keeps_order(
    before: DaemonView,
    waiting: Resume,
    event: Event,
    after: DaemonView,
    s: Step,
)
    requires
        sound(before),
        requests::resumed(before, waiting, event, after, s),
    ensures
        sound(after),
        told_on(before.bus, after.bus),
{
    lemma_steps_keep();
}

/// What comes in from a homeserver about a verification keeps the daemon in order and takes
/// back nothing that was told.
pub proof fn law_incoming_keeps_order(
    before: DaemonView,
    account: Seq<char>,
    change: matrix::FlowChange,
)
    requires
        sound(before),
    ensures
        ({
            let bus = matrix::flow_told(before.bus, account, change);
            &&& sound(
                DaemonView {
                    runtime: matrix::flow_changed(before.runtime, account, change),
                    bus,
                    ..before
                },
            )
            &&& told_on(before.bus, bus)
        }),
{
    lemma_steps_keep();
}

/// A short authentication string that is shown keeps the daemon in order and takes back
/// nothing that was told.
pub proof fn law_sas_keeps_order(before: DaemonView, watch: matrix::Watch, sas: JsonView)
    requires
        sound(before),
    ensures
        ({
            let bus = matrix::sas_shown_bus(before.bus, before.runtime, watch, sas);
            &&& sound(
                DaemonView {
                    runtime: matrix::sas_shown_runtime(before.runtime, watch, sas),
                    bus,
                    ..before
                },
            )
            &&& told_on(before.bus, bus)
        }),
{
    lemma_steps_keep();
}

/// Sending a message tells the subscribers nothing: they hear of it when it comes back from
/// the homeserver.
pub proof fn law_sending_tells_nothing(
    before: DaemonView,
    waiting: Resume,
    event: Event,
    after: DaemonView,
    s: Step,
)
    requires
        waiting is SendRoom || waiting is Sent,
        requests::resumed(before, waiting, event, after, s),
    ensures
        after == before,
{
}

} // verus!
