//! The webhook dispatcher: what becomes of one delivery of the platform.
//!
//! A delivery carries one entry for each tenant that has news. Each entry
//! is authorized against the eligibility cache and, where that misses,
//! against the registry; the route of an eligible tenant is resolved from
//! the registry; and the entry is published on the topic of an open route.
//! The registry and the bus are reached by the caller. The dispatcher tells
//! it what to do next (an `Action`) and is told what came of it (an `Event`),
//! until the action is to respond. An entry that fails is passed over, and
//! the delivery goes on with the next one.

use crate::eligibility::{eligible_count, lookup, stored, within, EligibilityCache, Entries};
use crate::models::merchant_config::{MerchantConfig, MerchantConfigView};
use crate::models::messenger_webhook::{MessengerWebhook, WebhookEntry};
use vstd::prelude::*;

verus! {

/// How the processing of one entry ended.
#[derive(Clone, Copy, Debug, PartialEq, Eq, Structural)]
pub enum EntryOutcome {
    /// The tenant is known not to be eligible.
    NotEligible,
    /// The registry did not say whether the tenant is eligible.
    AuthorizeFailed,
    /// The tenant is eligible and has no routing configuration.
    NoRoute,
    /// The route of the tenant is closed.
    RouteDisabled,
    /// The registry did not say how the tenant is routed.
    ResolveFailed,
    /// The entry was handed to the bus.
    Published,
    /// The bus did not take the entry.
    PublishFailed,
}

/// What the dispatcher waits for.
#[derive(Clone, Copy, Debug, PartialEq, Eq, Structural)]
pub enum Phase {
    /// For the registry to count the records of the tenant in progress.
    Authorizing,
    /// For the registry to resolve the route of the tenant in progress.
    Resolving,
    /// For the bus to take the entry in progress.
    Publishing,
    /// For nothing: every entry has its outcome.
    Done,
}

/// What the caller is to do next.
#[derive(Debug)]
pub enum Action {
    /// Ask the registry how many records reference the tenant.
    CountTenant { tenant_id: String },
    /// Ask the registry for the routing configuration of the tenant.
    ResolveRoute { tenant_id: String },
    /// Publish the entry at index `entry` of the delivery on `topic`.
    Publish { tenant_id: String, app_id: i32, topic: String, entry: usize },
    /// Answer the platform with `body`: the delivery is dealt with.
    Respond { body: String },
}

/// An action as contracts speak of it.
pub enum ActionView {
    CountTenant { tenant_id: Seq<char> },
    ResolveRoute { tenant_id: Seq<char> },
    Publish { tenant_id: Seq<char>, app_id: int, topic: Seq<char>, entry: int },
    Respond { body: Seq<char> },
}

impl View for Action {
    type V = ActionView;

    open spec fn view(&self) -> ActionView {
        match *self {
            Action::CountTenant { tenant_id } => ActionView::CountTenant { tenant_id: tenant_id@ },
            Action::ResolveRoute { tenant_id } => ActionView::ResolveRoute {
                tenant_id: tenant_id@,
            },
            Action::Publish { tenant_id, app_id, topic, entry } => ActionView::Publish {
                tenant_id: tenant_id@,
                app_id: app_id as int,
                topic: topic@,
                entry: entry as int,
            },
            Action::Respond { body } => ActionView::Respond { body: body@ },
        }
    }
}

/// What came of the last action.
pub enum Event {
    /// The registry counted the records of the tenant; `None` where it gave
    /// no number.
    Counted(Option<i64>),
    /// The registry could not be asked for the count.
    CountFailed,
    /// The registry looked the route up; `None` where the tenant has none.
    Resolved(Option<MerchantConfig>),
    /// The registry could not be asked for the route.
    ResolveFailed,
    /// The bus took the entry.
    Published,
    /// The bus did not take the entry.
    PublishFailed,
}

/// An event as contracts speak of it.
pub enum EventView {
    Counted(Option<i64>),
    CountFailed,
    Resolved(Option<MerchantConfigView>),
    ResolveFailed,
    Published,
    PublishFailed,
}

impl View for Event {
    type V = EventView;

    open spec fn view(&self) -> EventView {
        match *self {
            Event::Counted(count) => EventView::Counted(count),
            Event::CountFailed => EventView::CountFailed,
            Event::Resolved(route) => EventView::Resolved(
                match route {
                    Some(config) => Some(config@),
                    None => None,
                },
            ),
            Event::ResolveFailed => EventView::ResolveFailed,
            Event::Published => EventView::Published,
            Event::PublishFailed => EventView::PublishFailed,
        }
    }
}

/// The kind of object whose deliveries are dispatched.
pub open spec fn expected_object() -> Seq<char> {
    "page"@
}

/// The body that every delivery is answered with.
pub open spec fn acknowledgement() -> Seq<char> {
    "{\"success\":true}"@
}

/// The tenant of each entry, in the order of the delivery.
pub open spec fn tenant_ids(entries: Seq<WebhookEntry>) -> Seq<Seq<char>> {
    Seq::new(entries.len(), |i: int| entries[i].id@)
}

/// `n` entries that were passed over as not eligible.
pub open spec fn passed_over(n: int) -> Seq<EntryOutcome> {
    Seq::new(n as nat, |i: int| EntryOutcome::NotEligible)
}

/// What an event means for the entry in progress.
pub enum Verdict {
    /// The tenant is eligible: its route is to be resolved.
    Resolve,
    /// The route is open: the entry is to be published.
    Publish { app_id: int, topic: Seq<char> },
    /// The entry is finished.
    Settle(EntryOutcome),
}

/// The meaning of `event` in `phase`. An event that does not answer the
/// action of the phase counts as the failure of that action.
pub open spec fn verdict(phase: Phase, event: EventView) -> Verdict {
    match phase {
        Phase::Authorizing => match event {
            EventView::Counted(count) => if eligible_count(count) {
                Verdict::Resolve
            } else {
                Verdict::Settle(EntryOutcome::NotEligible)
            },
            _ => Verdict::Settle(EntryOutcome::AuthorizeFailed),
        },
        Phase::Resolving => match event {
            EventView::Resolved(Some(config)) => if config.enabled {
                Verdict::Publish { app_id: config.app_id, topic: config.topic }
            } else {
                Verdict::Settle(EntryOutcome::RouteDisabled)
            },
            EventView::Resolved(None) => Verdict::Settle(EntryOutcome::NoRoute),
            _ => Verdict::Settle(EntryOutcome::ResolveFailed),
        },
        Phase::Publishing => match event {
            EventView::Published => Verdict::Settle(EntryOutcome::Published),
            _ => Verdict::Settle(EntryOutcome::PublishFailed),
        },
        Phase::Done => Verdict::Settle(EntryOutcome::NotEligible),
    }
}

/// The most that the cache can hold once `event` has been taken in
/// `phase` for `tenant`: a count is remembered, nothing else is.
pub open spec fn ceiling(phase: Phase, event: EventView, tenant: Seq<char>, before: Entries) -> Entries {
    match (phase, event) {
        (Phase::Authorizing, EventView::Counted(count)) => before.insert(
            tenant,
            eligible_count(count),
        ),
        _ => before,
    }
}

/// A dispatcher as contracts speak of it.
pub struct DispatcherView {
    /// The tenant of each entry of the delivery.
    pub tenants: Seq<Seq<char>>,
    /// The index of the entry in progress; the number of entries once done.
    pub cursor: int,
    pub phase: Phase,
    /// The outcome of each entry before the cursor.
    pub outcomes: Seq<EntryOutcome>,
}

impl DispatcherView {
    pub open spec fn wf(self) -> bool {
        &&& 0 <= self.cursor <= self.tenants.len()
        &&& self.outcomes.len() == self.cursor
        &&& self.phase == Phase::Done <==> self.cursor == self.tenants.len()
    }

    /// The tenant of the entry in progress.
    pub open spec fn tenant(self) -> Seq<char> {
        self.tenants[self.cursor]
    }

    /// The same dispatcher in another phase.
    pub open spec fn in_phase(self, phase: Phase) -> DispatcherView {
        DispatcherView { phase, ..self }
    }

    /// What is left to do at most, in events: three for each entry that has
    /// no outcome, less what the entry in progress has behind it.
    pub open spec fn events_left(self) -> int {
        3 * (self.tenants.len() - self.cursor) - match self.phase {
            Phase::Authorizing => 0int,
            Phase::Resolving => 1int,
            Phase::Publishing => 2int,
            Phase::Done => 0int,
        }
    }
}

/// The dispatcher `next` and its `action` are what comes of taking up the
/// entries of `tenants` at index `from`, with `outcomes` recorded so far and
/// a cache that held no more than `ceiling`, and that holds `after` in the
/// end. Entries that the cache knows as not eligible are passed over. The
/// first other one is in progress: its route is to be resolved where the
/// cache knows the tenant as eligible, and the registry is to be asked
/// where the cache knows nothing of it. Where there is none, the delivery is
/// to be answered.
pub open spec fn resumed(
    tenants: Seq<Seq<char>>,
    from: int,
    outcomes: Seq<EntryOutcome>,
    ceiling: Entries,
    next: DispatcherView,
    action: ActionView,
    after: Entries,
) -> bool {
    &&& next.tenants == tenants
    &&& from <= next.cursor <= tenants.len()
    &&& next.outcomes == outcomes + passed_over(next.cursor - from)
    &&& within(after, ceiling)
    &&& forall|k: int| from <= k < next.cursor ==> lookup(ceiling, #[trigger] tenants[k]) == Some(false)
    &&& if next.cursor == tenants.len() {
        &&& next.phase == Phase::Done
        &&& action == ActionView::Respond { body: acknowledgement() }
    } else if lookup(after, next.tenant()) is Some {
        &&& lookup(after, next.tenant()) == Some(true)
        &&& next.phase == Phase::Resolving
        &&& action == ActionView::ResolveRoute { tenant_id: next.tenant() }
    } else {
        &&& next.phase == Phase::Authorizing
        &&& action == ActionView::CountTenant { tenant_id: next.tenant() }
    }
}

/// The dispatcher `next` and its first `action` are what comes of a
/// delivery that was read as `object` with the entries of `tenants`, or not
/// read at all. Only a delivery of the expected kind has its entries taken
/// up; any other is answered at once, and the cache is left alone.
pub open spec fn began(
    delivery: Option<(Seq<char>, Seq<Seq<char>>)>,
    before: Entries,
    next: DispatcherView,
    action: ActionView,
    after: Entries,
) -> bool {
    match delivery {
        Some((object, tenants)) if object == expected_object() => resumed(
            tenants,
            0,
            Seq::empty(),
            before,
            next,
            action,
            after,
        ),
        _ => {
            &&& next == DispatcherView {
                tenants: Seq::empty(),
                cursor: 0,
                phase: Phase::Done,
                outcomes: Seq::empty(),
            }
            &&& action == ActionView::Respond { body: acknowledgement() }
            &&& after == before
        },
    }
}

/// Taking `event` led the dispatcher from `prev` to `next` with `action`,
/// and the cache from `before` to `after`; `keeps` says whether the cache
/// keeps what is set (none of its limits is zero). A tenant that the
/// registry counted as eligible is in the cache when its route is asked
/// for; one that it counted as not eligible was set too, and is passed over
/// with the rest.
pub open spec fn stepped(
    prev: DispatcherView,
    event: EventView,
    before: Entries,
    keeps: bool,
    next: DispatcherView,
    action: ActionView,
    after: Entries,
) -> bool {
    if prev.phase == Phase::Done {
        &&& next == prev
        &&& action == ActionView::Respond { body: acknowledgement() }
        &&& after == before
    } else {
        match verdict(prev.phase, event) {
            Verdict::Resolve => {
                &&& next == prev.in_phase(Phase::Resolving)
                &&& action == ActionView::ResolveRoute { tenant_id: prev.tenant() }
                &&& stored(before, prev.tenant(), true, after)
                &&& keeps ==> lookup(after, prev.tenant()) == Some(true)
            },
            Verdict::Publish { app_id, topic } => {
                &&& next == prev.in_phase(Phase::Publishing)
                &&& action == ActionView::Publish {
                    tenant_id: prev.tenant(),
                    app_id,
                    topic,
                    entry: prev.cursor,
                }
                &&& after == before
            },
            Verdict::Settle(outcome) => resumed(
                prev.tenants,
                prev.cursor + 1,
                prev.outcomes.push(outcome),
                ceiling(prev.phase, event, prev.tenant(), before),
                next,
                action,
                after,
            ),
        }
    }
}

/// The dispatch of one delivery.
pub struct Dispatcher {
    tenants: Vec<String>,
    cursor: usize,
    phase: Phase,
    outcomes: Vec<EntryOutcome>,
}

impl View for Dispatcher {
    type V = DispatcherView;

    closed spec fn view(&self) -> DispatcherView {
        DispatcherView {
            tenants: Seq::new(self.tenants@.len(), |i: int| self.tenants@[i]@),
            cursor: self.cursor as int,
            phase: self.phase,
            outcomes: self.outcomes@,
        }
    }
}

/// The body that every delivery is answered with.
pub fn acknowledge() -> (body: String)
    ensures
        body@ == acknowledgement(),
{
    "{\"success\":true}".to_owned()
}

impl Dispatcher {
    /// Takes a delivery up. `None` stands for a body that could not be
    /// read.
    pub fn begin(delivery: Option<&MessengerWebhook>, cache: &mut EligibilityCache) -> (started: (
        Dispatcher,
        Action,
    ))
        requires
            old(cache).wf(),
        ensures
            final(cache).wf(),
            started.0@.wf(),
            began(
                match delivery {
                    Some(d) => Some((d.object@, tenant_ids(d.entry@))),
                    None => None,
                },
                old(cache).entries(),
                started.0@,
                started.1@,
                final(cache).entries(),
            ),
            final(cache).same_limits(*old(cache)),
    {
        let mut dispatcher = Dispatcher {
            tenants: Vec::new(),
            cursor: 0,
            phase: Phase::Done,
            outcomes: Vec::new(),
        };
        match delivery {
            Some(d) => {
                let expected = "page".to_owned();
                if d.object == expected {
                    let mut i: usize = 0;
                    while i < d.entry.len()
                        invariant
                            i <= d.entry.len(),
                            dispatcher.cursor == 0,
                            dispatcher.outcomes@ == Seq::<EntryOutcome>::empty(),
                            dispatcher.tenants@.len() == i,
                            forall|k: int|
                                0 <= k < i ==> (#[trigger] dispatcher.tenants@[k])@
                                    == d.entry@[k].id@,
                        decreases d.entry.len() - i,
                    {
                        dispatcher.tenants.push(d.entry[i].id.clone());
                        i += 1;
                    }
                    assert(dispatcher@.tenants == tenant_ids(d.entry@));
                    let action = dispatcher.resume(cache);
                    (dispatcher, action)
                } else {
                    assert(dispatcher@.tenants == Seq::<Seq<char>>::empty());
                    (dispatcher, Action::Respond { body: acknowledge() })
                }
            },
            None => {
                assert(dispatcher@.tenants == Seq::<Seq<char>>::empty());
                (dispatcher, Action::Respond { body: acknowledge() })
            },
        }
    }

    /// Takes the entries up at the cursor: passes over those that the cache
    /// knows as not eligible, and stops at the first other one.
    fn resume(&mut self, cache: &mut EligibilityCache) -> (action: Action)
        requires
            old(cache).wf(),
            old(self).cursor <= old(self).tenants@.len(),
            old(self).outcomes@.len() == old(self).cursor,
        ensures
            final(cache).wf(),
            final(self)@.wf(),
            resumed(
                old(self)@.tenants,
                old(self)@.cursor,
                old(self)@.outcomes,
                old(cache).entries(),
                final(self)@,
                action@,
                final(cache).entries(),
            ),
            final(cache).same_limits(*old(cache)),
    {
        let ghost from = self.cursor as int;
        let ghost recorded = self.outcomes@;
        let ghost top = cache.entries();
        let ghost ids = self@.tenants;
        while self.cursor < self.tenants.len()
            invariant
                self.tenants == old(self).tenants,
                from == old(self).cursor,
                recorded == old(self).outcomes@,
                top == old(cache).entries(),
                ids == old(self)@.tenants,
                ids == self@.tenants,
                from <= self.cursor <= self.tenants@.len(),
                self.outcomes@ == recorded + passed_over(self.cursor - from),
                recorded.len() == from,
                within(cache.entries(), top),
                cache.wf(),
                cache.same_limits(*old(cache)),
                forall|k: int| from <= k < self.cursor ==> lookup(top, #[trigger] ids[k]) == Some(false),
            decreases self.tenants@.len() - self.cursor,
        {
            let hit = cache.get(self.tenants[self.cursor].as_str());
            match hit {
                Some(true) => {
                    self.phase = Phase::Resolving;
                    return Action::ResolveRoute { tenant_id: self.tenants[self.cursor].clone() };
                },
                Some(false) => {
                    assert(passed_over(self.cursor - from).push(EntryOutcome::NotEligible)
                        == passed_over(self.cursor + 1 - from));
                    self.outcomes.push(EntryOutcome::NotEligible);
                    self.cursor += 1;
                },
                None => {
                    self.phase = Phase::Authorizing;
                    return Action::CountTenant { tenant_id: self.tenants[self.cursor].clone() };
                },
            }
        }
        self.phase = Phase::Done;
        Action::Respond { body: acknowledge() }
    }

    /// Takes what came of the last action, and says what to do next.
    pub fn on_event(&mut self, event: Event, cache: &mut EligibilityCache) -> (action: Action)
        requires
            old(self)@.wf(),
            old(cache).wf(),
        ensures
            final(self)@.wf(),
            final(cache).wf(),
            stepped(
                old(self)@,
                event@,
                old(cache).entries(),
                old(cache).keeps_entries(),
                final(self)@,
                action@,
                final(cache).entries(),
            ),
            final(cache).same_limits(*old(cache)),
    {
        match self.phase {
            Phase::Done => Action::Respond { body: acknowledge() },
            Phase::Authorizing => match event {
                Event::Counted(count) => {
                    if cache.remember_count(self.tenants[self.cursor].clone(), count) {
                        self.phase = Phase::Resolving;
                        Action::ResolveRoute { tenant_id: self.tenants[self.cursor].clone() }
                    } else {
                        self.settle(EntryOutcome::NotEligible, cache)
                    }
                },
                _ => self.settle(EntryOutcome::AuthorizeFailed, cache),
            },
            Phase::Resolving => match event {
                Event::Resolved(Some(config)) => {
                    if config.enabled {
                        self.phase = Phase::Publishing;
                        Action::Publish {
                            tenant_id: self.tenants[self.cursor].clone(),
                            app_id: config.app_id,
                            topic: config.topic,
                            entry: self.cursor,
                        }
                    } else {
                        self.settle(EntryOutcome::RouteDisabled, cache)
                    }
                },
                Event::Resolved(None) => self.settle(EntryOutcome::NoRoute, cache),
                _ => self.settle(EntryOutcome::ResolveFailed, cache),
            },
            Phase::Publishing => match event {
                Event::Published => self.settle(EntryOutcome::Published, cache),
                _ => self.settle(EntryOutcome::PublishFailed, cache),
            },
        }
    }

    /// Records the outcome of the entry in progress and goes on with the
    /// next.
    fn settle(&mut self, outcome: EntryOutcome, cache: &mut EligibilityCache) -> (action: Action)
        requires
            old(self)@.wf(),
            old(cache).wf(),
            old(self).phase != Phase::Done,
        ensures
            final(self)@.wf(),
            final(cache).wf(),
            resumed(
                old(self)@.tenants,
                old(self)@.cursor + 1,
                old(self)@.outcomes.push(outcome),
                old(cache).entries(),
                final(self)@,
                action@,
                final(cache).entries(),
            ),
            final(cache).same_limits(*old(cache)),
    {
        let entries = self.tenants.len();
        assert(self.cursor < entries) by {
            assert(self@.tenants.len() == self.tenants@.len());
        }
        self.outcomes.push(outcome);
        self.cursor += 1;
        self.resume(cache)
    }

    /// Whether every entry has its outcome.
    pub fn is_done(&self) -> (done: bool)
        ensures
            done == (self@.phase == Phase::Done),
    {
        match self.phase {
            Phase::Done => true,
            _ => false,
        }
    }

    /// What the dispatcher waits for.
    pub fn phase(&self) -> (phase: Phase)
        ensures
            phase == self@.phase,
    {
        self.phase
    }

    /// The outcome of each entry that has one, in the order of the
    /// delivery.
    pub fn outcomes(&self) -> (outcomes: &Vec<EntryOutcome>)
        ensures
            outcomes@ == self@.outcomes,
    {
        &self.outcomes
    }
}

/// A step leads a well-formed dispatcher to a well-formed one, over the
/// same entries.
pub proof fn lemma_step_keeps_wf(
    prev: DispatcherView,
    event: EventView,
    before: Entries,
    keeps: bool,
    next: DispatcherView,
    action: ActionView,
    after: Entries,
)
    requires
        prev.wf(),
        stepped(prev, event, before, keeps, next, action, after),
    ensures
        next.wf(),
        next.tenants == prev.tenants,
{
}

/// An outcome, once recorded, stays: a step only adds outcomes behind those
/// that are there, one for each entry that it leaves behind.
pub proof fn lemma_step_keeps_outcomes(
    prev: DispatcherView,
    event: EventView,
    before: Entries,
    keeps: bool,
    next: DispatcherView,
    action: ActionView,
    after: Entries,
)
    requires
        prev.wf(),
        stepped(prev, event, before, keeps, next, action, after),
    ensures
        prev.cursor <= next.cursor,
        next.outcomes.len() == prev.outcomes.len() + (next.cursor - prev.cursor),
        forall|k: int| 0 <= k < prev.outcomes.len() ==> next.outcomes[k] == prev.outcomes[k],
{
}

/// Every step of a dispatch that is not done brings it nearer to its end:
/// a delivery of `n` entries is answered after `3 * n` events at most.
pub proof fn lemma_step_makes_progress(
    prev: DispatcherView,
    event: EventView,
    before: Entries,
    keeps: bool,
    next: DispatcherView,
    action: ActionView,
    after: Entries,
)
    requires
        prev.wf(),
        prev.phase != Phase::Done,
        stepped(prev, event, before, keeps, next, action, after),
    ensures
        0 <= next.events_left() < prev.events_left() <= 3 * prev.tenants.len(),
{
}

/// The delivery is answered exactly when every entry has its outcome, and
/// always with the same body.
pub proof fn lemma_answered_when_done(
    prev: DispatcherView,
    event: EventView,
    before: Entries,
    keeps: bool,
    next: DispatcherView,
    action: ActionView,
    after: Entries,
)
    requires
        prev.wf(),
        stepped(prev, event, before, keeps, next, action, after),
    ensures
        action is Respond <==> next.phase == Phase::Done,
        action is Respond ==> action == (ActionView::Respond { body: acknowledgement() })
            && next.outcomes.len() == next.tenants.len(),
{
}

/// An entry is published only on the topic of a route that was resolved for
/// it in this dispatch and that is open: the event that is answered with a
/// publication is the registry's answer for the tenant of the entry in
/// progress, and topic and application are those of that answer.
pub proof fn lemma_published_on_open_route(
    prev: DispatcherView,
    event: EventView,
    before: Entries,
    keeps: bool,
    next: DispatcherView,
    action: ActionView,
    after: Entries,
)
    requires
        prev.wf(),
        stepped(prev, event, before, keeps, next, action, after),
        action is Publish,
    ensures
        prev.phase == Phase::Resolving,
        event matches EventView::Resolved(Some(config)) && config.enabled && action == (
        ActionView::Publish {
            tenant_id: prev.tenant(),
            app_id: config.app_id,
            topic: config.topic,
            entry: prev.cursor,
        }),
{
}

/// The entry of a tenant whose route is closed is not published: it gets
/// its outcome, and the action that follows is no publication.
pub proof fn lemma_closed_route_is_not_published(
    prev: DispatcherView,
    config: MerchantConfigView,
    before: Entries,
    keeps: bool,
    next: DispatcherView,
    action: ActionView,
    after: Entries,
)
    requires
        prev.wf(),
        prev.phase == Phase::Resolving,
        !config.enabled,
        stepped(prev, EventView::Resolved(Some(config)), before, keeps, next, action, after),
    ensures
        !(action is Publish),
        next.cursor > prev.cursor,
        next.outcomes[prev.cursor] == EntryOutcome::RouteDisabled,
{
}

/// The event is the failure of what the dispatcher waits for in `phase`.
pub open spec fn is_failure(phase: Phase, event: EventView) -> bool {
    match phase {
        Phase::Authorizing => !(event is Counted),
        Phase::Resolving => !(event is Resolved),
        Phase::Publishing => !(event is Published),
        Phase::Done => false,
    }
}

/// The outcome of an entry that failed in `phase`.
pub open spec fn failure_outcome(phase: Phase) -> EntryOutcome {
    match phase {
        Phase::Authorizing => EntryOutcome::AuthorizeFailed,
        Phase::Resolving => EntryOutcome::ResolveFailed,
        _ => EntryOutcome::PublishFailed,
    }
}

/// The failure of one entry does not end the dispatch of its siblings. The
/// entry gets the outcome of its failure, nothing is published for it, the
/// cache learns nothing from it, and the dispatch goes on behind it: the
/// entries that are passed over are known to the cache as not eligible, and
/// the next action is for the first entry that is not, if there is one.
pub proof fn lemma_failure_is_isolated(
    prev: DispatcherView,
    event: EventView,
    before: Entries,
    keeps: bool,
    next: DispatcherView,
    action: ActionView,
    after: Entries,
)
    requires
        prev.wf(),
        is_failure(prev.phase, event),
        stepped(prev, event, before, keeps, next, action, after),
    ensures
        prev.cursor < next.cursor <= prev.tenants.len(),
        next.outcomes.len() == next.cursor,
        next.outcomes[prev.cursor] == failure_outcome(prev.phase),
        forall|k: int| 0 <= k < prev.cursor ==> next.outcomes[k] == prev.outcomes[k],
        forall|k: int|
            prev.cursor < k < next.cursor ==> next.outcomes[k] == EntryOutcome::NotEligible
                && lookup(before, #[trigger] prev.tenants[k]) == Some(false),
        within(after, before),
        !(action is Publish),
        next.cursor < prev.tenants.len() ==> action == (ActionView::ResolveRoute {
            tenant_id: prev.tenants[next.cursor],
        }) || action == (ActionView::CountTenant { tenant_id: prev.tenants[next.cursor] }),
        next.cursor == prev.tenants.len() ==> action == (ActionView::Respond {
            body: acknowledgement(),
        }),
{
}

/// A tenant that the registry counts as eligible is remembered: when its
/// route is asked for, a cache that keeps what is set holds it as eligible,
/// and holds nothing else that it did not hold before.
pub proof fn lemma_counted_tenant_is_cached(
    prev: DispatcherView,
    count: Option<i64>,
    before: Entries,
    keeps: bool,
    next: DispatcherView,
    action: ActionView,
    after: Entries,
)
    requires
        prev.wf(),
        prev.phase == Phase::Authorizing,
        eligible_count(count),
        stepped(prev, EventView::Counted(count), before, keeps, next, action, after),
    ensures
        action == (ActionView::ResolveRoute { tenant_id: prev.tenant() }),
        next == prev.in_phase(Phase::Resolving),
        within(after, before.insert(prev.tenant(), true)),
        keeps ==> lookup(after, prev.tenant()) == Some(true),
{
}

/// The registry is asked whether a tenant is eligible only where the cache
/// does not know: a tenant that the cache reports is not counted again.
pub proof fn lemma_registry_counts_only_on_miss(
    prev: DispatcherView,
    event: EventView,
    before: Entries,
    keeps: bool,
    next: DispatcherView,
    action: ActionView,
    after: Entries,
)
    requires
        prev.wf(),
        stepped(prev, event, before, keeps, next, action, after),
        action is CountTenant,
    ensures
        action->CountTenant_tenant_id == next.tenant(),
        lookup(after, next.tenant()) is None,
{
}

/// A delivery that could not be read, or that speaks of another kind of
/// object, is answered at once: none of its entries is taken up, the
/// registry and the bus are not asked for anything, and the cache is as it
/// was.
pub proof fn lemma_rejected_delivery_is_answered_at_once(
    delivery: Option<(Seq<char>, Seq<Seq<char>>)>,
    before: Entries,
    next: DispatcherView,
    action: ActionView,
    after: Entries,
)
    requires
        delivery matches Some((object, _)) ==> object != expected_object(),
        began(delivery, before, next, action, after),
    ensures
        action == (ActionView::Respond { body: acknowledgement() }),
        next.phase == Phase::Done,
        next.tenants.len() == 0,
        next.outcomes.len() == 0,
        after == before,
{
}

/// The first action of an accepted delivery, like every later one, is for
/// the first entry that the cache does not know as not eligible.
pub proof fn lemma_accepted_delivery_takes_entries_up(
    tenants: Seq<Seq<char>>,
    before: Entries,
    next: DispatcherView,
    action: ActionView,
    after: Entries,
)
    requires
        began(Some((expected_object(), tenants)), before, next, action, after),
    ensures
        next.wf(),
        next.tenants == tenants,
        next.outcomes == passed_over(next.cursor),
        forall|k: int| 0 <= k < next.cursor ==> lookup(before, #[trigger] tenants[k]) == Some(false),
        !(action is Publish),
        action is Respond <==> next.cursor == tenants.len(),
{
}

} // verus!
