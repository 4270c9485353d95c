use vstd::prelude::*;

use crate::aggregate::{decide, initial, replay, BankAccount};
use crate::commands::{BankAccountCommand, CommandView};
use crate::errors::{EngineError, VersionConflict};
use crate::events::{AccountEventView, BankAccountEvent};
use crate::services::BankAccountServices;

verus! {

/// The rule of the conditional append: the log takes the new events only
/// when the writer's expected version still matches the log's length, so
/// a decision made from a stale snapshot can never reach the log.
pub open spec fn commit(
    log: Seq<AccountEventView>,
    expected_version: int,
    new_events: Seq<AccountEventView>,
) -> Result<Seq<AccountEventView>, VersionConflict> {
    if expected_version == log.len() {
        Ok(log + new_events)
    } else {
        Err(VersionConflict)
    }
}

/// The append-only, ordered record of the committed events of one
/// aggregate instance. Its version is the number of committed events;
/// the conditional append is the sole serialization point for writers.
pub struct EventLog {
    events: Vec<BankAccountEvent>,
}

impl View for EventLog {
    type V = Seq<AccountEventView>;

    closed spec fn view(&self) -> Seq<AccountEventView> {
        self.events.deep_view()
    }
}

impl EventLog {
    /// An empty log: no event has ever been committed.
    pub fn new() -> (log: EventLog)
        ensures
            log@ == Seq::<AccountEventView>::empty(),
    {
        let log = EventLog { events: Vec::new() };
        proof {
            assert(log@ =~= Seq::<AccountEventView>::empty());
        }
        log
    }

    /// The current version: the number of committed events.
    pub fn version(&self) -> (v: usize)
        ensures
            v == self@.len(),
    {
        self.events.len()
    }

    /// All committed events, in commit order.
    pub fn read(&self) -> (events: Vec<BankAccountEvent>)
        ensures
            events.deep_view() == self@,
    {
        let mut events: Vec<BankAccountEvent> = Vec::new();
        let mut i: usize = 0;
        while i < self.events.len()
            invariant
                i <= self.events.len(),
                events@.len() == i,
                forall|j: int| 0 <= j < i ==> events@[j] == self.events@[j],
            decreases self.events@.len() - i,
        {
            events.push(self.events[i].clone());
            i += 1;
        }
        proof {
            assert(events.deep_view() =~= self@);
        }
        events
    }

    /// Conditional append: commit `new_events` only if `expected_version`
    /// still matches the log, and report the new version; otherwise leave
    /// the log untouched and report the conflict. Exactly the rule
    /// [`commit`], applied to this log.
    pub fn append(&mut self, expected_version: usize, new_events: &Vec<BankAccountEvent>) -> (r:
        Result<usize, VersionConflict>)
        ensures
            commit(old(self)@, expected_version as int, new_events.deep_view()) matches Ok(l)
                ==> (r matches Ok(v) && v as int == l.len() && final(self)@ == l),
            commit(old(self)@, expected_version as int, new_events.deep_view()) is Err ==> r
                == Err::<usize, VersionConflict>(VersionConflict) && final(self)@ == old(self)@,
    {
        if expected_version != self.events.len() {
            return Err(VersionConflict);
        }
        let mut i: usize = 0;
        while i < new_events.len()
            invariant
                i <= new_events.len(),
                self.events@.len() == old(self).events@.len() + i,
                forall|j: int|
                    0 <= j < old(self).events@.len() ==> self.events@[j] == old(self).events@[j],
                forall|j: int|
                    0 <= j < i ==> self.events@[old(self).events@.len() + j] == new_events@[j],
            decreases new_events@.len() - i,
        {
            self.events.push(new_events[i].clone());
            i += 1;
        }
        proof {
            assert(self@ =~= old(self)@ + new_events.deep_view());
        }
        Ok(self.events.len())
    }
}

/// Orchestrates one aggregate instance's submit cycle:
/// load (replay), decide, commit, fold.
pub struct AggregateEngine;

impl AggregateEngine {
    /// The load step: rebuild the current state by folding all committed
    /// events in commit order, and note the version that state reflects.
    pub fn load(log: &EventLog) -> (r: (BankAccount, usize))
        ensures
            r.0@ == replay(initial(), log@),
            r.1 == log@.len(),
    {
        let mut state = BankAccount::default();
        let mut i: usize = 0;
        while i < log.events.len()
            invariant
                i <= log.events.len(),
                state@ == replay(initial(), log@.take(i as int)),
            decreases log@.len() - i,
        {
            proof {
                assert(log@.take(i as int + 1).drop_last() =~= log@.take(i as int));
            }
            state.apply(log.events[i].clone());
            i += 1;
        }
        proof {
            assert(log@.take(log@.len() as int) =~= log@);
        }
        (state, i)
    }

    /// One decide-and-commit cycle from a snapshot loaded earlier.
    ///
    /// `state` and `expected_version` are what [`Self::load`] returned
    /// when the caller last read the log; the log may have moved on since.
    /// A refused command leaves log and state untouched. An accepted
    /// command reaches the log only if the snapshot is still current;
    /// otherwise the cycle fails with `ConcurrencyConflict` and must be
    /// retried from a fresh load. On success the new events are folded
    /// into the local state, so no re-read is needed.
    pub fn submit_at(
        log: &mut EventLog,
        state: &mut BankAccount,
        expected_version: usize,
        command: BankAccountCommand,
        services: &BankAccountServices,
    ) -> (r: Result<Vec<BankAccountEvent>, EngineError>)
        requires
            command@ matches CommandView::DepositMoney { amount } ==> old(state)@.balance + amount
                <= u64::MAX,
        ensures
            decide(old(state)@, command@) matches Err(e) ==> (r matches Err(err) && err
                == EngineError::Rejected(e) && final(log)@ == old(log)@ && final(state)@ == old(
                state,
            )@),
            expected_version == old(log)@.len() ==> (decide(old(state)@, command@) matches Ok(evs)
                ==> (r matches Ok(events) && events.deep_view() == evs && final(log)@ == old(log)@
                + evs && final(state)@ == replay(old(state)@, evs))),
            decide(old(state)@, command@) is Ok && expected_version != old(log)@.len() ==> (r
                matches Err(err) && err == EngineError::ConcurrencyConflict && final(log)@ == old(
                log,
            )@ && final(state)@ == old(state)@),
    {
        match state.handle(command, services) {
            Err(e) => Err(EngineError::Rejected(e)),
            Ok(events) => {
                match log.append(expected_version, &events) {
                    Err(_) => Err(EngineError::ConcurrencyConflict),
                    Ok(_new_version) => {
                        let ghost evs = events.deep_view();
                        let mut i: usize = 0;
                        while i < events.len()
                            invariant
                                i <= events.len(),
                                evs == events.deep_view(),
                                state@ == replay(old(state)@, evs.take(i as int)),
                            decreases evs.len() - i,
                        {
                            proof {
                                assert(evs.take(i as int + 1).drop_last() =~= evs.take(i as int));
                            }
                            state.apply(events[i].clone());
                            i += 1;
                        }
                        proof {
                            assert(evs.take(evs.len() as int) =~= evs);
                        }
                        Ok(events)
                    },
                }
            },
        }
    }

    /// A whole submit cycle against the log's current state.
    ///
    /// Loads fresh state, decides, and commits. The returned events are
    /// exactly what the decision rule yields for the replayed state, and
    /// they are appended to the log if and only if the command was
    /// accepted; a refusal leaves the log untouched. Because the load is
    /// fresh and the caller holds the log for the whole cycle, the
    /// version check cannot fail here: a conflict can only be observed by
    /// a writer whose snapshot went stale, and its retry is exactly this
    /// function.
    pub fn submit(
        log: &mut EventLog,
        command: BankAccountCommand,
        services: &BankAccountServices,
    ) -> (r: Result<Vec<BankAccountEvent>, EngineError>)
        requires
            command@ matches CommandView::DepositMoney { amount } ==> replay(
                initial(),
                old(log)@,
            ).balance + amount <= u64::MAX,
        ensures
            decide(replay(initial(), old(log)@), command@) matches Err(e) ==> (r matches Err(err)
                && err == EngineError::Rejected(e) && final(log)@ == old(log)@),
            decide(replay(initial(), old(log)@), command@) matches Ok(evs) ==> (r matches Ok(
                events,
            ) && events.deep_view() == evs && final(log)@ == old(log)@ + evs),
    {
        let (mut state, version) = Self::load(log);
        Self::submit_at(log, &mut state, version, command, services)
    }
}

/// Concurrency conflict: two writers that both expect the same version
/// cannot both commit. Once the first commit (of at least one event)
/// extends the log, the second writer's version check is refused, and it
/// must reload fresh state and retry.
pub proof fn lemma_concurrent_commit_conflict(
    log: Seq<AccountEventView>,
    expected_version: int,
    first: Seq<AccountEventView>,
    second: Seq<AccountEventView>,
)
    requires
        expected_version == log.len(),
        first.len() > 0,
    ensures
        commit(log, expected_version, first) matches Ok(l) && commit(l, expected_version, second)
            is Err,
{
}

} // verus!
