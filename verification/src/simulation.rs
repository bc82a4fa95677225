use vstd::prelude::*;

use crate::decimal::{decimal, push_decimal};
use crate::device::{device_lookup, DeviceRegistry, UrnDevice};
use crate::handlers::{STATUS_INTERNAL_SERVER_ERROR, STATUS_NOT_FOUND, STATUS_OK};

verus! {

/// Where the handling of a simulated sensor reading stands.
pub enum SimulationStage {
    /// The reading is being analysed and stored.
    StoringReading,
    /// The analysis of the reading is being stored.
    StoringAnalysis,
    /// Reading and analysis were broadcast; the alert decision is awaited.
    CheckingAlert,
    /// An alert was raised and is being stored.
    StoringAlert,
    /// The answer has been given.
    Finished,
}

/// What the outside world reports back after performing an action.
pub enum SimulationEvent {
    /// The store accepted the last write.
    Stored,
    /// The store refused the last write, with this error text.
    StoreFailed(String),
    /// An alert was raised for the analysis.
    AlertRaised,
    /// No alert was raised for the analysis.
    NoAlert,
}

/// What the outside world is asked to do next.
pub enum SimulationAction {
    /// Analyse the reading against this device, then store the reading.
    AnalyzeAndStoreReading(UrnDevice),
    /// Store the analysis.
    StoreAnalysis,
    /// Broadcast the reading and its analysis, then decide on an alert.
    BroadcastAndCheckAlert,
    /// Store the raised alert; whether that succeeds does not change the answer.
    StoreAlert,
    /// Answer with `status`: with the analysis when `error` is `None`,
    /// otherwise with a failure carrying the error text.
    Respond { status: u16, error: Option<String> },
}

/// A `SimulationAction` with its texts taken as character sequences.
pub enum ActionView {
    AnalyzeAndStoreReading(UrnDevice),
    StoreAnalysis,
    BroadcastAndCheckAlert,
    StoreAlert,
    Respond { status: u16, error: Option<Seq<char>> },
}

impl View for SimulationAction {
    type V = ActionView;

    open spec fn view(&self) -> ActionView {
        match self {
            SimulationAction::AnalyzeAndStoreReading(d) => ActionView::AnalyzeAndStoreReading(*d),
            SimulationAction::StoreAnalysis => ActionView::StoreAnalysis,
            SimulationAction::BroadcastAndCheckAlert => ActionView::BroadcastAndCheckAlert,
            SimulationAction::StoreAlert => ActionView::StoreAlert,
            SimulationAction::Respond { status, error } => ActionView::Respond {
                status: *status,
                error: match error {
                    Some(e) => Some(e@),
                    None => None,
                },
            },
        }
    }
}

/// The first step: analyse and store when the device is registered,
/// otherwise answer 404 with "设备 ", the id in decimal, then " 不存在".
pub open spec fn simulation_start(
    devices: Map<u32, UrnDevice>,
    device_id: u32,
) -> (SimulationStage, ActionView) {
    match device_lookup(devices, device_id) {
        Some(d) => (SimulationStage::StoringReading, ActionView::AnalyzeAndStoreReading(d)),
        None => (
            SimulationStage::Finished,
            ActionView::Respond {
                status: STATUS_NOT_FOUND,
                error: Some("设备 "@ + decimal(device_id as nat) + " 不存在"@),
            },
        ),
    }
}

/// Whether `stage` is waiting for an event of the kind of `event`.
pub open spec fn stage_accepts(stage: SimulationStage, event: SimulationEvent) -> bool {
    match stage {
        SimulationStage::StoringReading | SimulationStage::StoringAnalysis
        | SimulationStage::StoringAlert => event is Stored || event is StoreFailed,
        SimulationStage::CheckingAlert => event is AlertRaised || event is NoAlert,
        SimulationStage::Finished => false,
    }
}

/// The answer given once the reading and its analysis are stored.
pub open spec fn success_answer() -> ActionView {
    ActionView::Respond { status: STATUS_OK, error: None }
}

/// The next stage and action after `event` in `stage`.
pub open spec fn simulation_next(stage: SimulationStage, event: SimulationEvent) -> (
    SimulationStage,
    ActionView,
) {
    match (stage, event) {
        (SimulationStage::StoringReading, SimulationEvent::StoreFailed(e)) => (
            SimulationStage::Finished,
            ActionView::Respond {
                status: STATUS_INTERNAL_SERVER_ERROR,
                error: Some("存储传感器数据失败: "@ + e@),
            },
        ),
        (SimulationStage::StoringReading, _) => (
            SimulationStage::StoringAnalysis,
            ActionView::StoreAnalysis,
        ),
        (SimulationStage::StoringAnalysis, SimulationEvent::StoreFailed(e)) => (
            SimulationStage::Finished,
            ActionView::Respond {
                status: STATUS_INTERNAL_SERVER_ERROR,
                error: Some("存储分析结果失败: "@ + e@),
            },
        ),
        (SimulationStage::StoringAnalysis, _) => (
            SimulationStage::CheckingAlert,
            ActionView::BroadcastAndCheckAlert,
        ),
        (SimulationStage::CheckingAlert, SimulationEvent::AlertRaised) => (
            SimulationStage::StoringAlert,
            ActionView::StoreAlert,
        ),
        (SimulationStage::CheckingAlert, _) => (SimulationStage::Finished, success_answer()),
        (SimulationStage::StoringAlert, _) => (SimulationStage::Finished, success_answer()),
        (SimulationStage::Finished, _) => (SimulationStage::Finished, success_answer()),
    }
}

/// Begins handling a simulated reading for `device_id`.
pub fn start_simulation(registry: &DeviceRegistry, device_id: u32) -> (r: (
    SimulationStage,
    SimulationAction,
))
    requires
        registry.well_formed(),
    ensures
        (r.0, r.1@) == simulation_start(registry@, device_id),
        registry@.contains_key(device_id) ==> r.0 is StoringReading && (r.1 matches SimulationAction::AnalyzeAndStoreReading(d)
            && d == registry@[device_id]),
        !registry@.contains_key(device_id) ==> r.0 is Finished && (r.1 matches SimulationAction::Respond { status, error }
            && status == 404 && error is Some),
{
    match registry.lookup(device_id) {
        Some(d) => (SimulationStage::StoringReading, SimulationAction::AnalyzeAndStoreReading(d)),
        None => {
            let mut msg = String::from_str("设备 ");
            push_decimal(&mut msg, device_id as u64);
            msg.append(" 不存在");
            (
                SimulationStage::Finished,
                SimulationAction::Respond { status: STATUS_NOT_FOUND, error: Some(msg) },
            )
        },
    }
}

impl SimulationStage {
    /// Whether this stage is waiting for an event of the kind of `event`.
    pub fn accepts(&self, event: &SimulationEvent) -> (b: bool)
        ensures
            b == stage_accepts(*self, *event),
    {
        match self {
            SimulationStage::StoringReading | SimulationStage::StoringAnalysis
            | SimulationStage::StoringAlert => match event {
                SimulationEvent::Stored | SimulationEvent::StoreFailed(_) => true,
                _ => false,
            },
            SimulationStage::CheckingAlert => match event {
                SimulationEvent::AlertRaised | SimulationEvent::NoAlert => true,
                _ => false,
            },
            SimulationStage::Finished => false,
        }
    }
}

/// Advances the handling of a simulated reading by one reported event.
pub fn simulation_step(stage: SimulationStage, event: SimulationEvent) -> (r: (
    SimulationStage,
    SimulationAction,
))
    requires
        stage_accepts(stage, event),
    ensures
        (r.0, r.1@) == simulation_next(stage, event),
        (stage is StoringAlert || (stage is CheckingAlert && event is NoAlert)) ==> r.0 is Finished
            && (r.1 matches SimulationAction::Respond { status, error } && status == 200
            && error is None),
{
    match (stage, event) {
        (SimulationStage::StoringReading, SimulationEvent::StoreFailed(e)) => {
            let msg = String::from_str("存储传感器数据失败: ").concat(e.as_str());
            (
                SimulationStage::Finished,
                SimulationAction::Respond { status: STATUS_INTERNAL_SERVER_ERROR, error: Some(msg) },
            )
        },
        (SimulationStage::StoringReading, _) => (
            SimulationStage::StoringAnalysis,
            SimulationAction::StoreAnalysis,
        ),
        (SimulationStage::StoringAnalysis, SimulationEvent::StoreFailed(e)) => {
            let msg = String::from_str("存储分析结果失败: ").concat(e.as_str());
            (
                SimulationStage::Finished,
                SimulationAction::Respond { status: STATUS_INTERNAL_SERVER_ERROR, error: Some(msg) },
            )
        },
        (SimulationStage::StoringAnalysis, _) => (
            SimulationStage::CheckingAlert,
            SimulationAction::BroadcastAndCheckAlert,
        ),
        (SimulationStage::CheckingAlert, SimulationEvent::AlertRaised) => (
            SimulationStage::StoringAlert,
            SimulationAction::StoreAlert,
        ),
        _ => (
            SimulationStage::Finished,
            SimulationAction::Respond { status: STATUS_OK, error: None },
        ),
    }
}

/// How many more events `stage` can still accept before the answer.
pub open spec fn remaining_steps(stage: SimulationStage) -> nat {
    match stage {
        SimulationStage::StoringReading => 4,
        SimulationStage::StoringAnalysis => 3,
        SimulationStage::CheckingAlert => 2,
        SimulationStage::StoringAlert => 1,
        SimulationStage::Finished => 0,
    }
}

/// Whether every event of `events` is accepted in turn, starting at `stage`.
pub open spec fn run_accepted(stage: SimulationStage, events: Seq<SimulationEvent>) -> bool
    decreases events.len(),
{
    events.len() == 0 || (stage_accepts(stage, events[0]) && run_accepted(
        simulation_next(stage, events[0]).0,
        events.skip(1),
    ))
}

/// The stage reached and the actions asked for when `events` are reported in
/// turn, starting at `stage`.
pub open spec fn run(stage: SimulationStage, events: Seq<SimulationEvent>) -> (
    SimulationStage,
    Seq<ActionView>,
)
    decreases events.len(),
{
    if events.len() == 0 {
        (stage, Seq::empty())
    } else {
        let (next, action) = simulation_next(stage, events[0]);
        let (last, rest) = run(next, events.skip(1));
        (last, seq![action] + rest)
    }
}

/// Each accepted event moves the handling strictly forward, and an answer is
/// given exactly when the handling finishes.
pub proof fn law_step_progress(stage: SimulationStage, event: SimulationEvent)
    requires
        stage_accepts(stage, event),
    ensures
        remaining_steps(simulation_next(stage, event).0) < remaining_steps(stage),
        (simulation_next(stage, event).1 is Respond) <==> (simulation_next(stage, event).0 is Finished),
{
}

/// A run of accepted events is never longer than the stages left: handling
/// a reading ends with an answer after at most four reported events.
pub proof fn law_runs_are_short(stage: SimulationStage, events: Seq<SimulationEvent>)
    requires
        run_accepted(stage, events),
    ensures
        events.len() <= remaining_steps(stage),
        run(stage, events).1.len() == events.len(),
    decreases events.len(),
{
    if events.len() > 0 {
        law_step_progress(stage, events[0]);
        law_runs_are_short(simulation_next(stage, events[0]).0, events.skip(1));
    }
}

/// In an accepted run only the last action can be an answer, and it is one
/// exactly when the run finished.
pub proof fn law_single_answer(stage: SimulationStage, events: Seq<SimulationEvent>)
    requires
        run_accepted(stage, events),
        events.len() > 0,
    ensures
        forall|i: int| 0 <= i < events.len() - 1 ==> !(#[trigger] run(stage, events).1[i] is Respond),
        (run(stage, events).1.last() is Respond) <==> (run(stage, events).0 is Finished),
    decreases events.len(),
{
    reveal_with_fuel(run_accepted, 2);
    let next = simulation_next(stage, events[0]).0;
    law_step_progress(stage, events[0]);
    law_runs_are_short(stage, events);
    if events.len() == 1 {
        assert(events.skip(1).len() == 0);
    } else {
        law_single_answer(next, events.skip(1));
        law_runs_are_short(next, events.skip(1));
        // A finished stage accepts nothing, so the first step did not finish.
        assert(stage_accepts(next, events.skip(1)[0]));
        assert forall|i: int| 0 <= i < events.len() - 1 implies !(#[trigger] run(
            stage,
            events,
        ).1[i] is Respond) by {
            if i > 0 {
                assert(run(stage, events).1[i] == run(next, events.skip(1)).1[i - 1]);
            }
        }
        assert(run(stage, events).1.last() == run(next, events.skip(1)).1.last());
    }
}

/// A successful answer is only ever given after both the reading and its
/// analysis were stored.
pub proof fn law_success_needs_both_stores(events: Seq<SimulationEvent>)
    requires
        run_accepted(SimulationStage::StoringReading, events),
        run(SimulationStage::StoringReading, events).1.contains(success_answer()),
    ensures
        events.len() >= 3,
        events[0] is Stored,
        events[1] is Stored,
{
    reveal_with_fuel(run_accepted, 4);
    reveal_with_fuel(run, 4);
    let r = run(SimulationStage::StoringReading, events);
    law_runs_are_short(SimulationStage::StoringReading, events);
    let i = choose|i: int| 0 <= i < r.1.len() && r.1[i] == success_answer();
    if events.len() == 0 {
    } else {
        let s1 = simulation_next(SimulationStage::StoringReading, events[0]).0;
        let e1 = events.skip(1);
        if events[0] is StoreFailed {
            assert(s1 is Finished);
            assert(e1.len() == 0);
            assert(r.1 =~= seq![simulation_next(SimulationStage::StoringReading, events[0]).1]);
        } else {
            assert(e1.len() > 0);
            let s2 = simulation_next(s1, e1[0]).0;
            let e2 = e1.skip(1);
            if e1[0] is StoreFailed {
                assert(s2 is Finished);
                assert(e2.len() == 0);
                assert(r.1 =~= seq![
                    simulation_next(SimulationStage::StoringReading, events[0]).1,
                    simulation_next(s1, e1[0]).1,
                ]);
            } else {
                assert(e2.len() > 0);
            }
        }
    }
}

/// A reading whose device is registered is analysed against exactly that
/// registered device; an unregistered one is answered 404 at once.
pub proof fn law_analysed_against_registered(devices: Map<u32, UrnDevice>, id: u32)
    ensures
        devices.contains_key(id) ==> simulation_start(devices, id) == (
            SimulationStage::StoringReading,
            ActionView::AnalyzeAndStoreReading(devices[id]),
        ),
        !devices.contains_key(id) ==> simulation_start(devices, id).0 is Finished && (simulation_start(
            devices,
            id,
        ).1 matches ActionView::Respond { status, error } && status == 404 && error is Some),
{
}

/// Once the reading and its analysis are stored, the answer is 200 with the
/// analysis whatever the alert decision and whatever becomes of storing the
/// alert.
pub proof fn law_alert_never_fails_the_answer(event: SimulationEvent)
    ensures
        simulation_next(SimulationStage::StoringAlert, event) == (
            SimulationStage::Finished,
            ActionView::Respond { status: 200, error: None },
        ),
        simulation_next(SimulationStage::CheckingAlert, SimulationEvent::NoAlert) == (
            SimulationStage::Finished,
            ActionView::Respond { status: 200, error: None },
        ),
{
}

/// Every finished accepted run in which the reading and its analysis were
/// both stored ends with the answer 200 carrying the analysis.
pub proof fn law_stored_runs_succeed(events: Seq<SimulationEvent>)
    requires
        run_accepted(SimulationStage::StoringReading, events),
        events.len() >= 2,
        events[0] is Stored,
        events[1] is Stored,
        run(SimulationStage::StoringReading, events).0 is Finished,
    ensures
        run(SimulationStage::StoringReading, events).1.last() == (ActionView::Respond {
            status: 200,
            error: None,
        }),
{
    reveal_with_fuel(run_accepted, 5);
    reveal_with_fuel(run, 5);
    law_runs_are_short(SimulationStage::StoringReading, events);
    let e1 = events.skip(1);
    let e2 = e1.skip(1);
    let s2 = SimulationStage::CheckingAlert;
    assert(simulation_next(SimulationStage::StoringReading, events[0]).0 == SimulationStage::StoringAnalysis);
    assert(e1[0] == events[1]);
    assert(simulation_next(SimulationStage::StoringAnalysis, e1[0]).0 == s2);
    if e2.len() == 0 {
        // A run that stops while the alert decision is awaited is not finished.
        assert(run(SimulationStage::StoringReading, events).0 == s2);
    } else {
        let e3 = e2.skip(1);
        if e2[0] is AlertRaised {
            if e3.len() == 0 {
                assert(run(SimulationStage::StoringReading, events).0 == SimulationStage::StoringAlert);
            } else {
                assert(e3.skip(1).len() == 0);
                assert(run(SimulationStage::StoringReading, events).1.last() == simulation_next(
                    SimulationStage::StoringAlert,
                    e3[0],
                ).1);
            }
        } else {
            assert(e3.len() == 0);
            assert(run(SimulationStage::StoringReading, events).1.last() == simulation_next(
                s2,
                e2[0],
            ).1);
        }
    }
}

/// A refused reading is answered 500 with the store's error text, and
/// nothing is broadcast.
pub proof fn law_refused_reading(e: String)
    ensures
        run(SimulationStage::StoringReading, seq![SimulationEvent::StoreFailed(e)]).1 == seq![
            ActionView::Respond {
                status: STATUS_INTERNAL_SERVER_ERROR,
                error: Some("存储传感器数据失败: "@ + e@),
            },
        ],
        run(SimulationStage::StoringReading, seq![SimulationEvent::StoreFailed(e)]).0 is Finished,
{
    reveal_with_fuel(run, 2);
    let events = seq![SimulationEvent::StoreFailed(e)];
    assert(events.skip(1) =~= Seq::<SimulationEvent>::empty());
    assert(run(SimulationStage::StoringReading, events).1 =~= seq![
        simulation_next(SimulationStage::StoringReading, events[0]).1,
    ]);
}

} // verus!
