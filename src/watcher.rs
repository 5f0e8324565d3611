//! Checkers, alerts and the watchers that pair one checker with many alerts.

use core::time::Duration;
use vstd::prelude::*;

use crate::disk_space;
use crate::memory;
use crate::outside::hash_tag;
use vstd::std_specs::cmp::PartialEqSpec;
use vstd::std_specs::convert::FromSpec;

verus! {

/// A firing alert, ready for delivery.
#[derive(Debug)]
pub struct ActiveAlert {
    pub message: String,
}

impl View for ActiveAlert {
    type V = Seq<char>;

    open spec fn view(&self) -> Seq<char> {
        self.message@
    }
}

impl ActiveAlert {
    /// A copy of this alert with the same message.
    pub fn duplicate(&self) -> (r: ActiveAlert)
        ensures
            r@ == self@,
    {
        ActiveAlert { message: self.message.clone() }
    }
}

/// A firing alert and what the reporter answered when it was handed over.
#[derive(Debug)]
pub struct Delivery {
    pub alert: ActiveAlert,
    pub outcome: Result<(), anyhow::Error>,
}

/// The messages of deliveries, in order.
pub open spec fn delivered_messages(deliveries: Seq<Delivery>) -> Seq<Seq<char>> {
    deliveries.map_values(|d: Delivery| d.alert@)
}

/// A probe of system state, built from its configuration.
pub trait Checker: Sized {
    type CheckResult;

    type Configuration;

    /// The polling interval this checker advises.
    spec fn spec_period(&self) -> Duration;

    /// The checker that `new` builds from a configuration.
    spec fn spec_new(configuration: Self::Configuration) -> Self;

    /// Observes the system. What it observes depends on the moment, so no
    /// outcome is promised.
    fn check(&self) -> Result<Self::CheckResult, anyhow::Error>;

    fn period(&self) -> (d: Duration)
        ensures
            d == self.spec_period(),
    ;

    fn new(configuration: Self::Configuration) -> (r: Self)
        ensures
            r == Self::spec_new(configuration),
    ;
}

/// A predicate over the result of one checker, with the message it fires.
pub trait Alert: Sized {
    type Checker: Checker;

    /// The message this alert fires for a check result, or none.
    spec fn spec_triggered(&self, check_result: <Self::Checker as Checker>::CheckResult) -> Option<
        Seq<char>,
    >;

    fn is_triggered(&self, check_result: &<Self::Checker as Checker>::CheckResult) -> (r: Option<
        ActiveAlert,
    >)
        ensures
            r matches Some(a) ==> self.spec_triggered(*check_result) == Some(a@),
            r is None ==> self.spec_triggered(*check_result) is None,
    ;
}

/// A sink that firing alerts are delivered to.
pub trait AlertReporter {
    /// The messages of every alert handed to this reporter so far, in order,
    /// whether or not their delivery succeeded.
    spec fn delivered(&self) -> Seq<Seq<char>>;

    fn report(&mut self, alert: &ActiveAlert) -> (r: Result<(), anyhow::Error>)
        ensures
            final(self).delivered() == old(self).delivered().push(alert@),
    ;
}

/// A runnable unit: one check cycle per call of `run`.
pub trait Watcher {
    /// Whether `fired` is the sequence of messages that one cycle reports
    /// for some result of this watcher's check.
    spec fn spec_may_fire(&self, fired: Seq<Seq<char>>) -> bool;

    /// Runs one cycle. A failed check is returned and nothing is reported;
    /// otherwise every firing alert is handed to the reporter once, in order,
    /// and the cycle succeeds whatever the reporter answers.
    fn run<R: AlertReporter>(&self, alert_reporter: &mut R) -> (r: Result<(), anyhow::Error>)
        ensures
            r is Err ==> final(alert_reporter).delivered() == old(alert_reporter).delivered(),
            r is Ok ==> exists|fired: Seq<Seq<char>>|
                #![trigger self.spec_may_fire(fired)]
                self.spec_may_fire(fired) && final(alert_reporter).delivered()
                    == old(alert_reporter).delivered() + fired,
    ;
}

/// The message an alert fires for a check result, as a sequence of none or one.
pub open spec fn fired_by<A: Alert>(
    alert: A,
    check_result: <A::Checker as Checker>::CheckResult,
) -> Seq<Seq<char>> {
    match alert.spec_triggered(check_result) {
        Some(m) => seq![m],
        None => Seq::empty(),
    }
}

/// The messages that `alerts` fire for one check result, in declaration order.
pub open spec fn fired<A: Alert>(
    alerts: Seq<A>,
    check_result: <A::Checker as Checker>::CheckResult,
) -> Seq<Seq<char>>
    decreases alerts.len(),
{
    if alerts.len() == 0 {
        Seq::empty()
    } else {
        fired(alerts.drop_last(), check_result) + fired_by(alerts.last(), check_result)
    }
}

/// The serialised form of a `MultiWatcher`: the checker's configuration and
/// the alerts.
pub struct SerializedMultiWatcher<A: Alert> {
    pub configuration: <A::Checker as Checker>::Configuration,
    pub alerts: Vec<A>,
}

/// One checker and an ordered collection of alerts over its result.
pub struct MultiWatcher<A: Alert> {
    checker: A::Checker,
    alerts: Vec<A>,
}

impl<A: Alert> MultiWatcher<A> {
    pub closed spec fn spec_checker(&self) -> A::Checker {
        self.checker
    }

    pub closed spec fn spec_alerts(&self) -> Seq<A> {
        self.alerts@
    }

    /// The watcher that `new` builds from its serialised form.
    pub closed spec fn spec_new(serialized_configuration: SerializedMultiWatcher<A>) -> Self {
        MultiWatcher {
            checker: A::Checker::spec_new(serialized_configuration.configuration),
            alerts: serialized_configuration.alerts,
        }
    }

    /// What the watcher built from a serialised form holds: the checker built
    /// from its configuration, and its alerts in the same order.
    pub proof fn lemma_spec_new(serialized_configuration: SerializedMultiWatcher<A>)
        ensures
            Self::spec_new(serialized_configuration).spec_checker() == A::Checker::spec_new(
                serialized_configuration.configuration,
            ),
            Self::spec_new(serialized_configuration).spec_alerts()
                == serialized_configuration.alerts@,
    {
    }

    pub fn new(serialized_configuration: SerializedMultiWatcher<A>) -> (r: Self)
        ensures
            r == Self::spec_new(serialized_configuration),
            r.spec_checker() == A::Checker::spec_new(serialized_configuration.configuration),
            r.spec_alerts() == serialized_configuration.alerts@,
    {
        MultiWatcher {
            checker: A::Checker::new(serialized_configuration.configuration),
            alerts: serialized_configuration.alerts,
        }
    }

    pub fn period(&self) -> (d: Duration)
        ensures
            d == self.spec_checker().spec_period(),
    {
        self.checker.period()
    }

    /// Finishes a cycle from the outcome of its check: a failure is returned
    /// as it is and nothing is reported; otherwise each alert is evaluated in
    /// order, each that fires is handed to the reporter, and the deliveries
    /// come back in that order with the reporter's answers. A failed delivery
    /// neither stops the cycle nor fails it.
    pub fn evaluate_and_deliver<R: AlertReporter>(
        &self,
        check_result: Result<<A::Checker as Checker>::CheckResult, anyhow::Error>,
        alert_reporter: &mut R,
    ) -> (r: Result<Vec<Delivery>, anyhow::Error>)
        ensures
            check_result matches Err(e) ==> r == Err::<Vec<Delivery>, anyhow::Error>(e)
                && final(alert_reporter).delivered() == old(alert_reporter).delivered(),
            check_result matches Ok(c) ==> r matches Ok(ds) && delivered_messages(ds@) == fired(
                self.spec_alerts(),
                c,
            ) && final(alert_reporter).delivered() == old(alert_reporter).delivered() + fired(
                self.spec_alerts(),
                c,
            ),
    {
        let c = match check_result {
            Ok(c) => c,
            Err(e) => {
                return Err(e);
            },
        };
        let mut deliveries: Vec<Delivery> = Vec::new();
        let mut i: usize = 0;
        while i < self.alerts.len()
            invariant
                i <= self.alerts@.len(),
                delivered_messages(deliveries@) == fired(self.alerts@.subrange(0, i as int), c),
                alert_reporter.delivered() == old(alert_reporter).delivered() + fired(
                    self.alerts@.subrange(0, i as int),
                    c,
                ),
            decreases self.alerts@.len() - i,
        {
            proof {
                assert(self.alerts@.subrange(0, i + 1).drop_last() =~= self.alerts@.subrange(
                    0,
                    i as int,
                ));
            }
            match self.alerts[i].is_triggered(&c) {
                Some(active) => {
                    // A failed delivery neither stops nor fails the cycle.
                    let outcome = alert_reporter.report(&active);
                    deliveries.push(Delivery { alert: active, outcome });
                },
                None => {},
            }
            proof {
                assert(alert_reporter.delivered() =~= old(alert_reporter).delivered() + fired(
                    self.alerts@.subrange(0, i + 1),
                    c,
                ));
                assert(delivered_messages(deliveries@) =~= fired(
                    self.alerts@.subrange(0, i + 1),
                    c,
                ));
            }
            i = i + 1;
        }
        proof {
            assert(self.alerts@.subrange(0, self.alerts@.len() as int) =~= self.alerts@);
        }
        Ok(deliveries)
    }

    /// `evaluate_and_deliver` without the deliveries: a failure is returned
    /// as it is and nothing is reported; otherwise every firing alert is
    /// handed to the reporter in order and the cycle succeeds.
    pub fn evaluate_and_report<R: AlertReporter>(
        &self,
        check_result: Result<<A::Checker as Checker>::CheckResult, anyhow::Error>,
        alert_reporter: &mut R,
    ) -> (r: Result<(), anyhow::Error>)
        ensures
            check_result matches Err(e) ==> r == Err::<(), anyhow::Error>(e)
                && final(alert_reporter).delivered() == old(alert_reporter).delivered(),
            check_result matches Ok(c) ==> r is Ok && final(alert_reporter).delivered()
                == old(alert_reporter).delivered() + fired(self.spec_alerts(), c),
    {
        match self.evaluate_and_deliver(check_result, alert_reporter) {
            Ok(_) => Ok(()),
            Err(e) => Err(e),
        }
    }

    /// Runs one cycle and returns each delivery with the reporter's answer.
    pub fn run_collecting<R: AlertReporter>(&self, alert_reporter: &mut R) -> (r: Result<
        Vec<Delivery>,
        anyhow::Error,
    >)
        ensures
            r is Err ==> final(alert_reporter).delivered() == old(alert_reporter).delivered(),
            r matches Ok(ds) ==> self.spec_may_fire(delivered_messages(ds@))
                && final(alert_reporter).delivered() == old(alert_reporter).delivered()
                + delivered_messages(ds@),
    {
        let check_result = self.checker.check();
        let ghost outcome = check_result;
        let r = self.evaluate_and_deliver(check_result, alert_reporter);
        proof {
            if let Ok(c) = outcome {
                assert(self.spec_may_fire(fired(self.spec_alerts(), c)));
            }
        }
        r
    }
}


impl<A: Alert> Watcher for MultiWatcher<A> {
    open spec fn spec_may_fire(&self, fired_messages: Seq<Seq<char>>) -> bool {
        exists|c: <A::Checker as Checker>::CheckResult|
            fired_messages == #[trigger] fired(self.spec_alerts(), c)
    }

    fn run<R: AlertReporter>(&self, alert_reporter: &mut R) -> (r: Result<(), anyhow::Error>) {
        match self.run_collecting(alert_reporter) {
            Ok(_) => Ok(()),
            Err(e) => Err(e),
        }
    }
}

/// A watcher of one of the kinds this library knows.
pub enum WatcherEnum {
    DiskSpace(MultiWatcher<disk_space::Alert>),
    Memory(MultiWatcher<memory::Alert>),
}

impl WatcherEnum {
    /// The period of the active variant's checker.
    pub open spec fn spec_period(&self) -> Duration {
        match self {
            WatcherEnum::DiskSpace(d) => d.spec_checker().spec_period(),
            WatcherEnum::Memory(m) => m.spec_checker().spec_period(),
        }
    }

    pub fn period(&self) -> (d: Duration)
        ensures
            d == self.spec_period(),
    {
        match self {
            WatcherEnum::DiskSpace(d) => d.period(),
            WatcherEnum::Memory(m) => m.period(),
        }
    }

    /// Runs one cycle of the active variant and returns each delivery with
    /// the reporter's answer.
    pub fn run_collecting<R: AlertReporter>(&self, alert_reporter: &mut R) -> (r: Result<
        Vec<Delivery>,
        anyhow::Error,
    >)
        ensures
            r is Err ==> final(alert_reporter).delivered() == old(alert_reporter).delivered(),
            r matches Ok(ds) ==> self.spec_may_fire(delivered_messages(ds@))
                && final(alert_reporter).delivered() == old(alert_reporter).delivered()
                + delivered_messages(ds@),
    {
        match self {
            WatcherEnum::DiskSpace(d) => d.run_collecting(alert_reporter),
            WatcherEnum::Memory(m) => m.run_collecting(alert_reporter),
        }
    }
}

impl Watcher for WatcherEnum {
    open spec fn spec_may_fire(&self, fired_messages: Seq<Seq<char>>) -> bool {
        match self {
            WatcherEnum::DiskSpace(d) => d.spec_may_fire(fired_messages),
            WatcherEnum::Memory(m) => m.spec_may_fire(fired_messages),
        }
    }

    fn run<R: AlertReporter>(&self, alert_reporter: &mut R) -> (r: Result<(), anyhow::Error>) {
        match self.run_collecting(alert_reporter) {
            Ok(_) => Ok(()),
            Err(e) => Err(e),
        }
    }
}

/// The kinds of watcher.
#[derive(Clone, Copy, Debug, PartialEq, Eq, Structural, Hash)]
pub enum WatcherKind {
    DiskSpace,
    Memory,
}

/// The configuration of one watcher, one variant per kind.
///
/// Two configurations are equal, and hash alike, when they are of the same
/// kind, whatever they hold.
pub enum WatcherConfiguration {
    DiskSpace(SerializedMultiWatcher<disk_space::Alert>),
    Memory(SerializedMultiWatcher<memory::Alert>),
}

impl WatcherConfiguration {
    pub open spec fn spec_kind(&self) -> WatcherKind {
        match self {
            WatcherConfiguration::DiskSpace(_) => WatcherKind::DiskSpace,
            WatcherConfiguration::Memory(_) => WatcherKind::Memory,
        }
    }

    pub fn kind(&self) -> (k: WatcherKind)
        ensures
            k == self.spec_kind(),
    {
        match self {
            WatcherConfiguration::DiskSpace(_) => WatcherKind::DiskSpace,
            WatcherConfiguration::Memory(_) => WatcherKind::Memory,
        }
    }

    /// The byte that stands for this configuration's kind when hashing.
    pub fn kind_tag(&self) -> (t: u8)
        ensures
            t == (if self is DiskSpace {
                0u8
            } else {
                1u8
            }),
    {
        match self {
            WatcherConfiguration::DiskSpace(_) => 0,
            WatcherConfiguration::Memory(_) => 1,
        }
    }

    /// The period of the checker that this configuration describes.
    pub open spec fn spec_checker_period(&self) -> Duration {
        match self {
            WatcherConfiguration::DiskSpace(d) => <disk_space::Checker as Checker>::spec_new(
                d.configuration,
            ).spec_period(),
            WatcherConfiguration::Memory(m) => <memory::Checker as Checker>::spec_new(
                m.configuration,
            ).spec_period(),
        }
    }
}

impl PartialEq for WatcherConfiguration {
    fn eq(&self, other: &Self) -> (r: bool)
        ensures
            r == (self.spec_kind() == other.spec_kind()),
    {
        self.kind() == other.kind()
    }
}

impl vstd::std_specs::cmp::PartialEqSpecImpl for WatcherConfiguration {
    open spec fn obeys_eq_spec() -> bool {
        true
    }

    open spec fn eq_spec(&self, other: &Self) -> bool {
        self.spec_kind() == other.spec_kind()
    }
}

impl Eq for WatcherConfiguration {

}

impl core::hash::Hash for WatcherConfiguration {
    fn hash<H: core::hash::Hasher>(&self, state: &mut H) {
        hash_tag(state, self.kind_tag())
    }
}

impl From<WatcherConfiguration> for WatcherEnum {
    fn from(configuration: WatcherConfiguration) -> (r: WatcherEnum) {
        match configuration {
            WatcherConfiguration::DiskSpace(d) => WatcherEnum::DiskSpace(MultiWatcher::new(d)),
            WatcherConfiguration::Memory(m) => WatcherEnum::Memory(MultiWatcher::new(m)),
        }
    }
}

impl vstd::std_specs::convert::FromSpecImpl<WatcherConfiguration> for WatcherEnum {
    open spec fn obeys_from_spec() -> bool {
        true
    }

    open spec fn from_spec(configuration: WatcherConfiguration) -> WatcherEnum {
        match configuration {
            WatcherConfiguration::DiskSpace(d) => WatcherEnum::DiskSpace(MultiWatcher::spec_new(d)),
            WatcherConfiguration::Memory(m) => WatcherEnum::Memory(MultiWatcher::spec_new(m)),
        }
    }
}

/// When no alert fires for a check result, a cycle reports nothing.
pub proof fn lemma_none_fire<A: Alert>(
    alerts: Seq<A>,
    check_result: <A::Checker as Checker>::CheckResult,
)
    requires
        forall|i: int| 0 <= i < alerts.len() ==> (#[trigger] alerts[i]).spec_triggered(check_result) is None,
    ensures
        fired(alerts, check_result) == Seq::<Seq<char>>::empty(),
    decreases alerts.len(),
{
    if alerts.len() > 0 {
        let rest = alerts.drop_last();
        assert forall|i: int| 0 <= i < rest.len() implies (#[trigger] rest[i]).spec_triggered(
            check_result,
        ) is None by {
            assert(rest[i] == alerts[i]);
        }
        lemma_none_fire(rest, check_result);
        assert(alerts.last() == alerts[alerts.len() - 1]);
        assert(fired(alerts, check_result) =~= Seq::<Seq<char>>::empty());
    }
}

/// When exactly one alert fires for a check result, a cycle reports its
/// message and nothing else.
pub proof fn lemma_one_fires<A: Alert>(
    alerts: Seq<A>,
    check_result: <A::Checker as Checker>::CheckResult,
    k: int,
)
    requires
        0 <= k < alerts.len(),
        alerts[k].spec_triggered(check_result) is Some,
        forall|i: int|
            0 <= i < alerts.len() && i != k ==> (#[trigger] alerts[i]).spec_triggered(check_result) is None,
    ensures
        fired(alerts, check_result) == seq![alerts[k].spec_triggered(check_result)->Some_0],
    decreases alerts.len(),
{
    let rest = alerts.drop_last();
    let last = alerts.len() - 1;
    assert(alerts.last() == alerts[last]);
    if k == last {
        assert forall|i: int| 0 <= i < rest.len() implies (#[trigger] rest[i]).spec_triggered(
            check_result,
        ) is None by {
            assert(rest[i] == alerts[i]);
        }
        lemma_none_fire(rest, check_result);
        assert(fired(alerts, check_result) =~= seq![alerts[k].spec_triggered(check_result)->Some_0]);
    } else {
        assert forall|i: int| 0 <= i < rest.len() && i != k implies (#[trigger] rest[i]).spec_triggered(
            check_result,
        ) is None by {
            assert(rest[i] == alerts[i]);
        }
        assert(rest[k] == alerts[k]);
        lemma_one_fires(rest, check_result, k);
        assert(alerts[last].spec_triggered(check_result) is None);
        assert(fired(alerts, check_result) =~= seq![alerts[k].spec_triggered(check_result)->Some_0]);
    }
}

/// Alerts report in declaration order, each on its own: the messages of two
/// runs of alerts, one after the other, are those of the first run followed
/// by those of the second.
pub proof fn lemma_fired_in_order<A: Alert>(
    first: Seq<A>,
    second: Seq<A>,
    check_result: <A::Checker as Checker>::CheckResult,
)
    ensures
        fired(first + second, check_result) == fired(first, check_result) + fired(
            second,
            check_result,
        ),
    decreases second.len(),
{
    if second.len() == 0 {
        assert(first + second =~= first);
        assert(fired(first, check_result) + fired(second, check_result) =~= fired(
            first,
            check_result,
        ));
    } else {
        let rest = second.drop_last();
        assert((first + second).drop_last() =~= first + rest);
        assert((first + second).last() == second.last());
        lemma_fired_in_order(first, rest, check_result);
        assert(fired(first + second, check_result) =~= fired(first, check_result) + fired(
            second,
            check_result,
        ));
    }
}

/// A cycle carries nothing over to the next: two cycles on the same check
/// result report the same messages, the second right after the first.
pub proof fn lemma_cycles_repeat<A: Alert>(
    watcher: MultiWatcher<A>,
    check_result: <A::Checker as Checker>::CheckResult,
    log: Seq<Seq<char>>,
)
    ensures
        ({
            let once = log + fired(watcher.spec_alerts(), check_result);
            let twice = once + fired(watcher.spec_alerts(), check_result);
            twice.subrange(once.len() as int, twice.len() as int) == once.subrange(
                log.len() as int,
                once.len() as int,
            )
        }),
{
    let once = log + fired(watcher.spec_alerts(), check_result);
    let twice = once + fired(watcher.spec_alerts(), check_result);
    assert(twice.subrange(once.len() as int, twice.len() as int) =~= fired(
        watcher.spec_alerts(),
        check_result,
    ));
    assert(once.subrange(log.len() as int, once.len() as int) =~= fired(
        watcher.spec_alerts(),
        check_result,
    ));
}

/// Configurations are equal exactly when they are of the same kind, whatever
/// they hold; configurations of different kinds are never equal.
pub proof fn lemma_equal_by_kind(a: WatcherConfiguration, b: WatcherConfiguration)
    ensures
        a.eq_spec(&b) <==> a.spec_kind() == b.spec_kind(),
        (a is DiskSpace && b is DiskSpace) ==> a.eq_spec(&b),
        (a is Memory && b is Memory) ==> a.eq_spec(&b),
        (a is DiskSpace && b is Memory) ==> !a.eq_spec(&b),
        (a is Memory && b is DiskSpace) ==> !a.eq_spec(&b),
{
}

/// The watcher converted from a configuration advises the period of the
/// checker that the configuration describes.
pub proof fn lemma_period_round_trip(configuration: WatcherConfiguration)
    ensures
        WatcherEnum::from_spec(configuration).spec_period() == configuration.spec_checker_period(),
{
}

} // verus!
