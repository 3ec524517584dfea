//! The monitoring service: a bounded history of system metrics and the
//! alerts raised on them.
//!
//! Usage figures are in thousandths: a processor that is ninety percent
//! busy has a usage of 900. The custom metrics are in thousandths of their
//! units too.
use vstd::prelude::*;
use vstd::string::StringExecFns;
use crate::clock::unix_timestamp;
use crate::ident::fresh_identifier;
use crate::random::random_below;
use crate::registry::{
    lemma_project_find, lemma_project_upsert, lemma_upsert_fresh, lookup, project, upsert, Registry,
};
use crate::text::{append_decimal, decimal};

verus! {

/// The identity of a node as this service sees it.
#[derive(Clone, Debug)]
pub struct MockNodeIdentity {
    pub node_id: String,
    pub public_key: Vec<u8>,
}

/// The network service as this service sees it.
#[derive(Clone, Debug)]
pub struct MockNetworkService {
    pub node_id: String,
}

/// The shard store as this service sees it.
#[derive(Clone, Debug)]
pub struct MockStorageService {
    pub node_id: String,
}

/// The compute service as this service sees it.
#[derive(Clone, Debug)]
pub struct MockComputeService {
    pub node_id: String,
}

/// The ledger as this service sees it.
#[derive(Clone, Debug)]
pub struct MockBlockchainService {
    pub node_id: String,
}

/// Traffic counters.
#[derive(Clone, Copy, Debug, PartialEq, Eq, Structural)]
pub struct NetworkIO {
    pub bytes_in: u64,
    pub bytes_out: u64,
    pub packets_in: u64,
    pub packets_out: u64,
}

/// One sample of the state of the system.
#[derive(Clone, Debug)]
pub struct SystemMetrics {
    pub timestamp: u64,
    /// The share of the processor in use, in thousandths.
    pub cpu_usage: u64,
    /// The share of the memory in use, in thousandths.
    pub memory_usage: u64,
    /// The share of the disk in use, in thousandths.
    pub disk_usage: u64,
    pub network_io: NetworkIO,
    /// Further metrics by name, in thousandths.
    pub custom_metrics: Registry<u64>,
}

/// What a `SystemMetrics` holds, as plain values.
pub struct MetricsView {
    pub timestamp: u64,
    pub cpu_usage: u64,
    pub memory_usage: u64,
    pub disk_usage: u64,
    pub network_io: NetworkIO,
    pub custom_metrics: Seq<(Seq<char>, u64)>,
}

impl View for SystemMetrics {
    type V = MetricsView;

    open spec fn view(&self) -> MetricsView {
        MetricsView {
            timestamp: self.timestamp,
            cpu_usage: self.cpu_usage,
            memory_usage: self.memory_usage,
            disk_usage: self.disk_usage,
            network_io: self.network_io,
            custom_metrics: self.custom_metrics.entries(),
        }
    }
}

impl SystemMetrics {
    /// A copy of this sample.
    pub fn duplicate(&self) -> (copy: SystemMetrics)
        ensures
            copy@ == self@,
    {
        SystemMetrics {
            timestamp: self.timestamp,
            cpu_usage: self.cpu_usage,
            memory_usage: self.memory_usage,
            disk_usage: self.disk_usage,
            network_io: self.network_io,
            custom_metrics: self.custom_metrics.duplicate(),
        }
    }
}

/// How grave an alert is.
#[derive(Clone, Copy, Debug, PartialEq, Eq, Structural)]
pub enum AlertSeverity {
    Info,
    Warning,
    Error,
    Critical,
}

/// An alert.
#[derive(Clone, Debug)]
pub struct Alert {
    pub alert_id: String,
    pub severity: AlertSeverity,
    pub message: String,
    pub timestamp: u64,
    pub acknowledged: bool,
}

/// What an `Alert` holds, as plain values.
pub struct AlertView {
    pub alert_id: Seq<char>,
    pub severity: AlertSeverity,
    pub message: Seq<char>,
    pub timestamp: u64,
    pub acknowledged: bool,
}

impl View for Alert {
    type V = AlertView;

    open spec fn view(&self) -> AlertView {
        AlertView {
            alert_id: self.alert_id@,
            severity: self.severity,
            message: self.message@,
            timestamp: self.timestamp,
            acknowledged: self.acknowledged,
        }
    }
}

impl Alert {
    /// A copy of this alert.
    pub fn duplicate(&self) -> (copy: Alert)
        ensures
            copy@ == self@,
    {
        Alert {
            alert_id: self.alert_id.clone(),
            severity: self.severity,
            message: self.message.clone(),
            timestamp: self.timestamp,
            acknowledged: self.acknowledged,
        }
    }
}

/// How many samples the history keeps.
pub const HISTORY_LIMIT: usize = 1000;

/// The usage of the processor above which a warning is raised.
pub const CPU_ALERT_THRESHOLD: u64 = 900;

/// The usage of the memory above which a critical alert is raised.
pub const MEMORY_ALERT_THRESHOLD: u64 = 950;

/// The usage of the disk above which a warning is raised.
pub const DISK_ALERT_THRESHOLD: u64 = 900;

/// A usage in thousandths as a percentage with one decimal place.
pub open spec fn percent_text(usage: u64) -> Seq<char> {
    decimal(usage as nat / 10) + "."@ + decimal(usage as nat % 10) + "%"@
}

/// The alerts that a sample calls for, as pairs of severity and message:
/// for the processor, the memory and the disk, in this order, each where
/// its usage is above its threshold.
pub open spec fn due_alerts(metrics: MetricsView) -> Seq<(AlertSeverity, Seq<char>)> {
    let cpu = if metrics.cpu_usage > CPU_ALERT_THRESHOLD {
        seq![(AlertSeverity::Warning, "High CPU usage: "@ + percent_text(metrics.cpu_usage))]
    } else {
        Seq::empty()
    };
    let memory = if metrics.memory_usage > MEMORY_ALERT_THRESHOLD {
        seq![
            (AlertSeverity::Critical, "Critical memory usage: "@ + percent_text(metrics.memory_usage)),
        ]
    } else {
        Seq::empty()
    };
    let disk = if metrics.disk_usage > DISK_ALERT_THRESHOLD {
        seq![(AlertSeverity::Warning, "High disk usage: "@ + percent_text(metrics.disk_usage))]
    } else {
        Seq::empty()
    };
    cpu + memory + disk
}

/// `history` cut to the newest `HISTORY_LIMIT` samples after one sample
/// was added to a history within the limit.
pub open spec fn capped(history: Seq<MetricsView>) -> Seq<MetricsView> {
    if history.len() > HISTORY_LIMIT {
        history.drop_first()
    } else {
        history
    }
}

/// The samples of a history, as plain values.
pub open spec fn sample_views(history: Seq<SystemMetrics>) -> Seq<MetricsView> {
    Seq::new(history.len(), |i: int| history[i]@)
}

/// The alerts of a list, as plain values.
pub open spec fn alert_views(alerts: Seq<Alert>) -> Seq<AlertView> {
    Seq::new(alerts.len(), |i: int| alerts[i]@)
}

/// The active alerts after each of `raised` was filed under its
/// identifier, in order.
pub open spec fn filed(active: Seq<(Seq<char>, AlertView)>, raised: Seq<AlertView>) -> Seq<
    (Seq<char>, AlertView),
>
    decreases raised.len(),
{
    if raised.len() == 0 {
        active
    } else {
        upsert(filed(active, raised.drop_last()), raised.last().alert_id, raised.last())
    }
}

/// The custom metrics with the values `connections`, `response_time` and
/// `error_rate`, all in thousandths.
pub open spec fn custom_metrics(connections: u64, response_time: u64, error_rate: u64) -> Seq<
    (Seq<char>, u64),
> {
    seq![
        ("active_connections"@, connections),
        ("response_time_ms"@, response_time),
        ("error_rate"@, error_rate),
    ]
}

/// The names of the custom metrics are three different names.
proof fn lemma_metric_names_differ()
    ensures
        "active_connections"@ != "response_time_ms"@,
        "active_connections"@ != "error_rate"@,
        "response_time_ms"@ != "error_rate"@,
{
    reveal_strlit("active_connections");
    reveal_strlit("response_time_ms");
    reveal_strlit("error_rate");
    assert("active_connections"@.len() == 18);
    assert("response_time_ms"@.len() == 16);
    assert("error_rate"@.len() == 10);
}

/// The state of a monitoring service, as plain values.
pub struct MonitoringState {
    pub node_id: Seq<char>,
    pub metrics_history: Seq<MetricsView>,
    pub active_alerts: Seq<(Seq<char>, AlertView)>,
    pub alert_history: Seq<AlertView>,
    pub monitoring_enabled: bool,
}

impl MonitoringState {
    /// The state after `metrics` was recorded.
    pub open spec fn recorded(self, metrics: MetricsView) -> MonitoringState {
        MonitoringState { metrics_history: capped(self.metrics_history.push(metrics)), ..self }
    }

    /// The state after each of `alerts` was raised, in order.
    pub open spec fn raised(self, alerts: Seq<AlertView>) -> MonitoringState {
        MonitoringState {
            active_alerts: filed(self.active_alerts, alerts),
            alert_history: self.alert_history + alerts,
            ..self
        }
    }

    /// The state after the alert `alert_id` was acknowledged; unchanged
    /// where no such alert is active.
    pub open spec fn acknowledged(self, alert_id: Seq<char>) -> MonitoringState {
        match lookup(self.active_alerts, alert_id) {
            Some(alert) => MonitoringState {
                active_alerts: upsert(
                    self.active_alerts,
                    alert_id,
                    AlertView { acknowledged: true, ..alert },
                ),
                ..self
            },
            None => self,
        }
    }
}

/// Whether `alerts` are fresh alerts for `due`: one for each pair of
/// severity and message, in order, none acknowledged.
pub open spec fn answers_to(alerts: Seq<AlertView>, due: Seq<(AlertSeverity, Seq<char>)>) -> bool {
    &&& alerts.len() == due.len()
    &&& forall|i: int|
        0 <= i < alerts.len() ==> {
            &&& (#[trigger] alerts[i]).severity == due[i].0
            &&& alerts[i].message == due[i].1
            &&& !alerts[i].acknowledged
        }
}

/// The monitoring service of one node.
#[derive(Clone, Debug)]
pub struct MonitoringService {
    pub node_id: String,
    pub metrics_history: Vec<SystemMetrics>,
    pub active_alerts: Registry<Alert>,
    pub alert_history: Vec<Alert>,
    pub monitoring_enabled: bool,
}

impl View for MonitoringService {
    type V = MonitoringState;

    open spec fn view(&self) -> MonitoringState {
        MonitoringState {
            node_id: self.node_id@,
            metrics_history: sample_views(self.metrics_history@),
            active_alerts: project(self.active_alerts.entries(), |alert: Alert| alert@),
            alert_history: alert_views(self.alert_history@),
            monitoring_enabled: self.monitoring_enabled,
        }
    }
}

impl MonitoringService {
    /// A service with no sample and no alert, monitoring switched on.
    pub fn new(node_id: String) -> (service: Self)
        ensures
            service.node_id == node_id,
            service@ == (MonitoringState {
                node_id: node_id@,
                metrics_history: Seq::empty(),
                active_alerts: Seq::empty(),
                alert_history: Seq::empty(),
                monitoring_enabled: true,
            }),
    {
        let service = MonitoringService {
            node_id,
            metrics_history: Vec::new(),
            active_alerts: Registry::new(),
            alert_history: Vec::new(),
            monitoring_enabled: true,
        };
        assert(service@.metrics_history =~= Seq::empty());
        assert(service@.active_alerts =~= Seq::empty());
        assert(service@.alert_history =~= Seq::empty());
        service
    }

    /// Takes a sample of the system, records it and returns it. The
    /// figures are drawn at random from the ranges of a lightly loaded
    /// machine.
    pub fn collect_metrics(&mut self) -> (metrics: SystemMetrics)
        ensures
            final(self)@ == old(self)@.recorded(metrics@),
            250 <= metrics.cpu_usage < 350,
            450 <= metrics.memory_usage < 550,
            600 <= metrics.disk_usage < 700,
            1_000_000 <= metrics.network_io.bytes_in < 1_100_000,
            500_000 <= metrics.network_io.bytes_out < 550_000,
            1000 <= metrics.network_io.packets_in < 1100,
            500 <= metrics.network_io.packets_out < 550,
            exists|a: u64, b: u64, c: u64|
                15_000 <= a < 20_000 && 25_000 <= b < 35_000 && 10 <= c < 30
                    && #[trigger] custom_metrics(a, b, c) == metrics@.custom_metrics,
    {
        let metrics = SystemMetrics {
            timestamp: self.get_current_timestamp(),
            cpu_usage: self.measure_cpu_usage(),
            memory_usage: self.measure_memory_usage(),
            disk_usage: self.measure_disk_usage(),
            network_io: self.measure_network_io(),
            custom_metrics: self.collect_custom_metrics(),
        };
        self.record_metrics(metrics.duplicate());
        metrics
    }

    /// Records `metrics` as the newest sample; where the history is longer
    /// than its limit after that, the oldest sample goes.
    pub fn record_metrics(&mut self, metrics: SystemMetrics)
        ensures
            final(self)@ == old(self)@.recorded(metrics@),
    {
        self.metrics_history.push(metrics);
        assert(sample_views(self.metrics_history@) =~= old(self)@.metrics_history.push(metrics@));
        if self.metrics_history.len() > HISTORY_LIMIT {
            self.metrics_history.remove(0);
            assert(sample_views(self.metrics_history@) =~= old(self)@.metrics_history.push(
                metrics@,
            ).drop_first());
        }
    }

    /// The share of the processor in use, in thousandths.
    pub fn measure_cpu_usage(&self) -> (usage: u64)
        ensures
            250 <= usage < 350,
    {
        250 + random_below(100)
    }

    /// The share of the memory in use, in thousandths.
    pub fn measure_memory_usage(&self) -> (usage: u64)
        ensures
            450 <= usage < 550,
    {
        450 + random_below(100)
    }

    /// The share of the disk in use, in thousandths.
    pub fn measure_disk_usage(&self) -> (usage: u64)
        ensures
            600 <= usage < 700,
    {
        600 + random_below(100)
    }

    /// The traffic counters.
    pub fn measure_network_io(&self) -> (io: NetworkIO)
        ensures
            1_000_000 <= io.bytes_in < 1_100_000,
            500_000 <= io.bytes_out < 550_000,
            1000 <= io.packets_in < 1100,
            500 <= io.packets_out < 550,
    {
        NetworkIO {
            bytes_in: 1_000_000 + random_below(100_000),
            bytes_out: 500_000 + random_below(50_000),
            packets_in: 1000 + random_below(100),
            packets_out: 500 + random_below(50),
        }
    }

    /// The custom metrics: the number of active connections, the response
    /// time in milliseconds and the error rate, all in thousandths.
    pub fn collect_custom_metrics(&self) -> (metrics: Registry<u64>)
        ensures
            exists|a: u64, b: u64, c: u64|
                15_000 <= a < 20_000 && 25_000 <= b < 35_000 && 10 <= c < 30
                    && #[trigger] custom_metrics(a, b, c) == metrics.entries(),
    {
        let connections = 15_000 + random_below(5_000);
        let response_time = 25_000 + random_below(10_000);
        let error_rate = 10 + random_below(20);
        let metrics = Self::custom_metrics_from(connections, response_time, error_rate);
        assert(custom_metrics(connections, response_time, error_rate) == metrics.entries());
        metrics
    }

    /// The custom metrics with the given values, all in thousandths.
    pub fn custom_metrics_from(connections: u64, response_time: u64, error_rate: u64) -> (metrics:
        Registry<u64>)
        ensures
            metrics.entries() == custom_metrics(connections, response_time, error_rate),
    {
        let mut metrics: Registry<u64> = Registry::new();
        proof {
            lemma_metric_names_differ();
            lemma_upsert_fresh(metrics.entries(), "active_connections"@, connections);
        }
        metrics.insert("active_connections".to_owned(), connections);
        proof {
            lemma_upsert_fresh(metrics.entries(), "response_time_ms"@, response_time);
        }
        metrics.insert("response_time_ms".to_owned(), response_time);
        proof {
            lemma_upsert_fresh(metrics.entries(), "error_rate"@, error_rate);
        }
        metrics.insert("error_rate".to_owned(), error_rate);
        assert(metrics.entries() =~= custom_metrics(connections, response_time, error_rate));
        metrics
    }

    /// The alerts that `metrics` calls for, as pairs of severity and
    /// message.
    pub fn alerts_due(metrics: &SystemMetrics) -> (due: Vec<(AlertSeverity, String)>)
        ensures
            Seq::new(due@.len(), |i: int| (due@[i].0, due@[i].1@)) == due_alerts(metrics@),
    {
        let mut due: Vec<(AlertSeverity, String)> = Vec::new();
        if metrics.cpu_usage > CPU_ALERT_THRESHOLD {
            let mut message = "High CPU usage: ".to_owned();
            Self::append_percent(&mut message, metrics.cpu_usage);
            due.push((AlertSeverity::Warning, message));
        }
        if metrics.memory_usage > MEMORY_ALERT_THRESHOLD {
            let mut message = "Critical memory usage: ".to_owned();
            Self::append_percent(&mut message, metrics.memory_usage);
            due.push((AlertSeverity::Critical, message));
        }
        if metrics.disk_usage > DISK_ALERT_THRESHOLD {
            let mut message = "High disk usage: ".to_owned();
            Self::append_percent(&mut message, metrics.disk_usage);
            due.push((AlertSeverity::Warning, message));
        }
        assert(Seq::new(due@.len(), |i: int| (due@[i].0, due@[i].1@)) =~= due_alerts(metrics@));
        due
    }

    /// Appends the usage `usage`, in thousandths, as a percentage with one
    /// decimal place.
    pub fn append_percent(text: &mut String, usage: u64)
        ensures
            final(text)@ == old(text)@ + percent_text(usage),
    {
        append_decimal(text, (usage / 10) as u128);
        text.append(".");
        append_decimal(text, (usage % 10) as u128);
        text.append("%");
        assert(text@ =~= old(text)@ + percent_text(usage));
    }

    /// Raises the alerts that `metrics` calls for, each under a fresh
    /// random identifier and dated now.
    pub fn check_alerts(&mut self, metrics: &SystemMetrics)
        ensures
            exists|alerts: Seq<AlertView>|
                answers_to(alerts, due_alerts(metrics@)) && #[trigger] old(self)@.raised(alerts)
                    == final(self)@,
    {
        let due = Self::alerts_due(metrics);
        let ghost wanted = due_alerts(metrics@);
        let ghost mut alerts: Seq<AlertView> = Seq::empty();
        let mut i: usize = 0;
        assert(old(self)@.raised(alerts).alert_history =~= self@.alert_history);
        assert forall|j: int| 0 <= j < due@.len() implies wanted[j] == (due@[j].0, due@[j].1@) by {
            assert(Seq::new(due@.len(), |i: int| (due@[i].0, due@[i].1@))[j] == wanted[j]);
        }
        while i < due.len()
            invariant
                i <= due@.len(),
                wanted.len() == due@.len(),
                forall|j: int| 0 <= j < due@.len() ==> wanted[j] == (due@[j].0, due@[j].1@),
                alerts.len() == i,
                forall|j: int|
                    0 <= j < i ==> {
                        &&& (#[trigger] alerts[j]).severity == wanted[j].0
                        &&& alerts[j].message == wanted[j].1
                        &&& !alerts[j].acknowledged
                    },
                self@ == old(self)@.raised(alerts),
            decreases due@.len() - i,
        {
            let ghost before = self@;
            let alert_id = fresh_identifier();
            let now = self.get_current_timestamp();
            let severity = due[i].0;
            let message = due[i].1.clone();
            self.create_alert_as(alert_id, severity, message, now);
            proof {
                let alert = self@.alert_history.last();
                let longer = alerts.push(alert);
                let one = seq![alert];
                assert(longer.drop_last() =~= alerts);
                assert(one.drop_last() =~= Seq::<AlertView>::empty());
                assert(filed(before.active_alerts, one.drop_last()) == before.active_alerts);
                assert(filed(before.active_alerts, one) == upsert(
                    before.active_alerts,
                    alert.alert_id,
                    alert,
                ));
                assert(filed(old(self)@.active_alerts, longer) == upsert(
                    filed(old(self)@.active_alerts, alerts),
                    alert.alert_id,
                    alert,
                ));
                assert(old(self)@.alert_history + longer =~= (old(self)@.alert_history
                    + alerts) + one);
                alerts = longer;
            }
            i += 1;
        }
        assert(answers_to(alerts, wanted));
    }

    /// Raises an alert under a fresh random identifier, dated now.
    pub fn create_alert(&mut self, severity: AlertSeverity, message: String)
        ensures
            exists|alert_id: Seq<char>, now: u64| #[trigger]
                old(self)@.raised(
                    seq![
                        AlertView {
                            alert_id,
                            severity,
                            message: message@,
                            timestamp: now,
                            acknowledged: false,
                        },
                    ],
                ) == final(self)@,
    {
        let alert_id = fresh_identifier();
        let now = self.get_current_timestamp();
        let ghost id = alert_id@;
        self.create_alert_as(alert_id, severity, message, now);
        assert(old(self)@.raised(
            seq![
                AlertView { alert_id: id, severity, message: message@, timestamp: now, acknowledged: false },
            ],
        ) == self@);
    }

    /// Raises an alert under the identifier `alert_id`, dated `now`: it
    /// becomes active and joins the history.
    pub fn create_alert_as(
        &mut self,
        alert_id: String,
        severity: AlertSeverity,
        message: String,
        now: u64,
    )
        ensures
            final(self)@ == old(self)@.raised(
                seq![
                    AlertView {
                        alert_id: alert_id@,
                        severity,
                        message: message@,
                        timestamp: now,
                        acknowledged: false,
                    },
                ],
            ),
            final(self)@.alert_history.len() == old(self)@.alert_history.len() + 1,
            final(self)@.alert_history.last() == (AlertView {
                alert_id: alert_id@,
                severity,
                message: message@,
                timestamp: now,
                acknowledged: false,
            }),
    {
        let alert = Alert { alert_id: alert_id.clone(), severity, message, timestamp: now, acknowledged: false };
        let active = alert.duplicate();
        let ghost raised = seq![alert@];
        proof {
            lemma_project_upsert(
                self.active_alerts.entries(),
                |alert: Alert| alert@,
                alert_id@,
                active,
            );
            assert(raised.drop_last() =~= Seq::<AlertView>::empty());
            assert(raised.last() == alert@);
            assert(filed(old(self)@.active_alerts, raised.drop_last()) == old(self)@.active_alerts);
            assert(filed(old(self)@.active_alerts, raised) == upsert(
                old(self)@.active_alerts,
                alert_id@,
                alert@,
            ));
        }
        self.active_alerts.insert(alert_id, active);
        self.alert_history.push(alert);
        assert(alert_views(self.alert_history@) =~= old(self)@.alert_history + raised);
    }

    /// The newest sample.
    pub fn get_metrics_summary(&self) -> (newest: Option<&SystemMetrics>)
        ensures
            match newest {
                Some(metrics) => self@.metrics_history.len() > 0 && metrics@
                    == self@.metrics_history.last(),
                None => self@.metrics_history.len() == 0,
            },
    {
        let n = self.metrics_history.len();
        if n == 0 {
            None
        } else {
            Some(&self.metrics_history[n - 1])
        }
    }

    /// The active alerts, oldest first.
    pub fn get_active_alerts(&self) -> (alerts: Vec<&Alert>)
        ensures
            alerts@.len() == self.active_alerts.entries().len(),
            forall|i: int|
                0 <= i < alerts@.len() ==> *(#[trigger] alerts@[i]) == self.active_alerts.entries()[i].1,
    {
        let mut alerts: Vec<&Alert> = Vec::new();
        let n = self.active_alerts.len();
        let mut i: usize = 0;
        while i < n
            invariant
                i <= n,
                n == self.active_alerts.entries().len(),
                alerts@.len() == i,
                forall|j: int|
                    0 <= j < i ==> *(#[trigger] alerts@[j]) == self.active_alerts.entries()[j].1,
            decreases n - i,
        {
            alerts.push(self.active_alerts.value_at(i));
            i += 1;
        }
        alerts
    }

    /// Marks the active alert `alert_id` as acknowledged. An identifier
    /// that names no active alert changes nothing.
    pub fn acknowledge_alert(&mut self, alert_id: &str)
        ensures
            final(self)@ == old(self)@.acknowledged(alert_id@),
    {
        proof {
            lemma_project_find(self.active_alerts.entries(), |alert: Alert| alert@, alert_id@);
        }
        let acknowledged = match self.active_alerts.get(alert_id) {
            None => None,
            Some(alert) => Some(
                Alert {
                    alert_id: alert.alert_id.clone(),
                    severity: alert.severity,
                    message: alert.message.clone(),
                    timestamp: alert.timestamp,
                    acknowledged: true,
                },
            ),
        };
        if let Some(alert) = acknowledged {
            proof {
                lemma_project_upsert(
                    self.active_alerts.entries(),
                    |alert: Alert| alert@,
                    alert_id@,
                    alert,
                );
            }
            self.active_alerts.insert(alert_id.to_owned(), alert);
        }
    }

    /// Seconds since the Unix epoch, as the system clock has them.
    pub fn get_current_timestamp(&self) -> (now: u64)
    {
        unix_timestamp()
    }
}

} // verus!
