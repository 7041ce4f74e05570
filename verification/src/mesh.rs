//! Mesh node controller: the state machine that drives the
//! scan/rank/connect/disconnect cycle of peer acquisition.
//!
//! The controller decides; a driving task performs the radio calls. Each
//! call to [`Mesh::next_action`] hands the task the next radio call to make,
//! and each call to [`Mesh::on_event`] hands the controller that call's
//! outcome. The ordering the radio hardware demands — the mode configuration
//! applied before the protocol is set, and re-applied with the target peer
//! before every connect attempt; a disconnect after every attempt, before
//! the next connect or scan — is enforced by the controller's phases.

use vstd::prelude::*;

use crate::Bssid;
use crate::config::MeshConfig;
use crate::scan::{ranked_of, ScanEntry, ScanResults};

verus! {

/// Coarse controller state, as exposed to supervising tasks.
#[derive(Clone, Copy, Debug, PartialEq, Eq)]
pub enum MeshState {
    /// Not yet started (or still working through the start sequence).
    Idle,
    /// Radio started; ready to scan.
    Started,
    /// A scan is in flight.
    Scanning,
    /// A connect attempt is in progress for a ranked candidate.
    Connecting,
    /// The link to the candidate was confirmed up.
    Connected,
    /// The mandatory disconnect of the current attempt is in progress.
    Disconnected,
    /// A fatal radio failure; terminal for this controller instance.
    Failed,
}

/// The radio operation whose failure the controller last recorded.
#[derive(Clone, Copy, Debug, PartialEq, Eq)]
pub enum RadioError {
    /// Applying the mode configuration (or the protocol) failed.
    Configure,
    /// Starting the radio failed.
    Start,
    /// A scan failed.
    Scan,
    /// A connect attempt failed.
    Connect,
    /// A disconnect failed.
    Disconnect,
}

/// A radio call for the driving task to perform.
#[derive(Clone, Copy, Debug, PartialEq, Eq)]
pub enum RadioAction {
    /// Apply the mode configuration; with a target peer when directed at one
    /// (the configuration must be re-applied before every connect attempt).
    Configure {
        /// The peer the configuration is directed at, if any.
        target: Option<Bssid>,
    },
    /// Set the radio protocol (only after the mode configuration).
    SetProtocol,
    /// Activate the radio with the last-applied configuration.
    Start,
    /// Scan for peers on the configured channel.
    Scan,
    /// Attempt association with the most recently configured target.
    Connect,
    /// Ask whether the link is established.
    QueryConnected,
    /// Tear the link down; mandatory after every connect attempt.
    Disconnect,
}

/// Outcome of the last radio call, handed back by the driving task.
#[derive(Debug)]
pub enum RadioEvent {
    /// The call completed without a radio-layer error.
    Completed,
    /// The call reported a radio-layer error.
    Failed,
    /// The scan finished, with the peers it heard.
    Scanned(Vec<ScanEntry>),
    /// The link-state query's answer.
    Link(bool),
}

/// Mathematical form of a radio event: the scan payload as a sequence.
pub enum RadioEventView {
    /// The call completed without a radio-layer error.
    Completed,
    /// The call reported a radio-layer error.
    Failed,
    /// The scan finished, with the peers it heard.
    Scanned(Seq<ScanEntry>),
    /// The link-state query's answer.
    Link(bool),
}

impl View for RadioEvent {
    type V = RadioEventView;

    open spec fn view(&self) -> RadioEventView {
        match self {
            RadioEvent::Completed => RadioEventView::Completed,
            RadioEvent::Failed => RadioEventView::Failed,
            RadioEvent::Scanned(entries) => RadioEventView::Scanned(entries@),
            RadioEvent::Link(up) => RadioEventView::Link(*up),
        }
    }
}

/// Fine position of the controller in its cycle. Phases ending in a radio
/// call's name mark that call in flight; the rest are between calls.
#[derive(Clone, Copy, Debug, PartialEq, Eq)]
pub enum Phase {
    /// Fresh controller; nothing issued yet.
    Idle,
    /// The bare (untargeted) mode configuration is being applied.
    ConfiguringRadio,
    /// Configuration applied; the protocol must be set next.
    ProtocolPending,
    /// The protocol is being set.
    SettingProtocol,
    /// Protocol set; the radio must be started next.
    StartPending,
    /// The radio is starting.
    Starting,
    /// Radio up; ready to scan.
    Started,
    /// A scan is in flight.
    Scanning,
    /// A ranked candidate is chosen; the targeted configuration must be
    /// applied next.
    TargetPending,
    /// The targeted mode configuration is being applied.
    Targeting,
    /// Targeted configuration applied; the connect call comes next.
    ConnectPending,
    /// The connect call is in flight.
    Connecting,
    /// Connect call done; the link state is to be queried.
    ConfirmPending,
    /// The link-state query is in flight.
    Confirming,
    /// The link was confirmed up; the mandatory disconnect comes next.
    Connected,
    /// The attempt is over; the mandatory disconnect comes next.
    DisconnectPending,
    /// The disconnect is in flight.
    Disconnecting,
    /// A fatal radio failure; terminal.
    Failed,
}

/// Phases with a radio call in flight: the phases `on_event` accepts.
pub open spec fn awaiting(p: Phase) -> bool {
    match p {
        Phase::ConfiguringRadio
        | Phase::SettingProtocol
        | Phase::Starting
        | Phase::Scanning
        | Phase::Targeting
        | Phase::Connecting
        | Phase::Confirming
        | Phase::Disconnecting => true,
        _ => false,
    }
}

/// Whether an event is a possible outcome of the call in flight.
pub open spec fn event_fits(p: Phase, ev: RadioEventView) -> bool {
    match p {
        Phase::Scanning => ev is Scanned || ev is Failed,
        Phase::Confirming => ev is Link,
        Phase::ConfiguringRadio
        | Phase::SettingProtocol
        | Phase::Starting
        | Phase::Targeting
        | Phase::Connecting
        | Phase::Disconnecting => ev is Completed || ev is Failed,
        _ => false,
    }
}

/// Phases of a connect attempt: a candidate is chosen and its mandatory
/// disconnect has not completed.
pub open spec fn attempting(p: Phase) -> bool {
    match p {
        Phase::TargetPending
        | Phase::Targeting
        | Phase::ConnectPending
        | Phase::Connecting
        | Phase::ConfirmPending
        | Phase::Confirming
        | Phase::Connected
        | Phase::DisconnectPending
        | Phase::Disconnecting => true,
        _ => false,
    }
}

/// Phases between an attempt's connect call and its disconnect call.
pub open spec fn closing(p: Phase) -> bool {
    match p {
        Phase::ConfirmPending | Phase::Confirming | Phase::Connected | Phase::DisconnectPending => true,
        _ => false,
    }
}

/// The failure counter's increment, held where it would wrap.
pub open spec fn bump(n: int) -> int {
    if n < u64::MAX {
        n + 1
    } else {
        n
    }
}

/// Mathematical state of the controller.
#[verifier::ext_equal]
pub struct MeshView {
    /// Position in the cycle.
    pub phase: Phase,
    /// Contents of the ranked cache of the most recent scan.
    pub cache: Seq<ScanEntry>,
    /// Rank of the candidate the current attempt is directed at.
    pub next_peer: int,
    /// Connect attempts that reported a radio-layer failure.
    pub failed_attempts: int,
    /// The radio operation whose failure was last recorded.
    pub last_error: Option<RadioError>,
}

/// The next radio call from a phase between calls, with the controller
/// state while that call is in flight. Terminal and in-flight phases issue
/// nothing and stand still.
pub open spec fn spec_next_action(m: MeshView) -> (MeshView, Option<RadioAction>) {
    match m.phase {
        Phase::Idle => (
            MeshView { phase: Phase::ConfiguringRadio, ..m },
            Some(RadioAction::Configure { target: None }),
        ),
        Phase::ProtocolPending => (
            MeshView { phase: Phase::SettingProtocol, ..m },
            Some(RadioAction::SetProtocol),
        ),
        Phase::StartPending => (MeshView { phase: Phase::Starting, ..m }, Some(RadioAction::Start)),
        Phase::Started => (MeshView { phase: Phase::Scanning, ..m }, Some(RadioAction::Scan)),
        Phase::TargetPending => (
            MeshView { phase: Phase::Targeting, ..m },
            Some(RadioAction::Configure { target: Some(m.cache[m.next_peer].bssid) }),
        ),
        Phase::ConnectPending => (
            MeshView { phase: Phase::Connecting, ..m },
            Some(RadioAction::Connect),
        ),
        Phase::ConfirmPending => (
            MeshView { phase: Phase::Confirming, ..m },
            Some(RadioAction::QueryConnected),
        ),
        Phase::Connected => (
            MeshView { phase: Phase::Disconnecting, ..m },
            Some(RadioAction::Disconnect),
        ),
        Phase::DisconnectPending => (
            MeshView { phase: Phase::Disconnecting, ..m },
            Some(RadioAction::Disconnect),
        ),
        _ => (m, None),
    }
}

/// The controller state after the in-flight call's outcome arrives.
///
/// Failures while the radio is brought up are fatal; a scan failure only
/// abandons that scan; failures of one attempt's configure, connect or
/// disconnect are recorded and the cycle moves on.
pub open spec fn spec_on_event(m: MeshView, ev: RadioEventView) -> MeshView {
    match m.phase {
        Phase::ConfiguringRadio => match ev {
            RadioEventView::Completed => MeshView { phase: Phase::ProtocolPending, ..m },
            _ => MeshView {
                phase: Phase::Failed,
                last_error: Some(RadioError::Configure),
                ..m
            },
        },
        Phase::SettingProtocol => match ev {
            RadioEventView::Completed => MeshView { phase: Phase::StartPending, ..m },
            _ => MeshView {
                phase: Phase::Failed,
                last_error: Some(RadioError::Configure),
                ..m
            },
        },
        Phase::Starting => match ev {
            RadioEventView::Completed => MeshView { phase: Phase::Started, ..m },
            _ => MeshView { phase: Phase::Failed, last_error: Some(RadioError::Start), ..m },
        },
        Phase::Scanning => match ev {
            RadioEventView::Scanned(entries) => {
                let cache = ranked_of(entries);
                if cache.len() == 0 {
                    MeshView { phase: Phase::Started, cache, next_peer: 0, ..m }
                } else {
                    MeshView { phase: Phase::TargetPending, cache, next_peer: 0, ..m }
                }
            },
            _ => MeshView { phase: Phase::Started, last_error: Some(RadioError::Scan), ..m },
        },
        Phase::Targeting => match ev {
            RadioEventView::Completed => MeshView { phase: Phase::ConnectPending, ..m },
            _ => MeshView {
                phase: Phase::DisconnectPending,
                last_error: Some(RadioError::Configure),
                ..m
            },
        },
        Phase::Connecting => match ev {
            RadioEventView::Completed => MeshView { phase: Phase::ConfirmPending, ..m },
            _ => MeshView {
                phase: Phase::DisconnectPending,
                failed_attempts: bump(m.failed_attempts),
                last_error: Some(RadioError::Connect),
                ..m
            },
        },
        Phase::Confirming => match ev {
            RadioEventView::Link(up) => if up {
                MeshView { phase: Phase::Connected, ..m }
            } else {
                MeshView { phase: Phase::DisconnectPending, ..m }
            },
            _ => m,
        },
        Phase::Disconnecting => {
            let recorded = if ev is Failed {
                MeshView { last_error: Some(RadioError::Disconnect), ..m }
            } else {
                m
            };
            if m.next_peer + 1 < m.cache.len() {
                MeshView { phase: Phase::TargetPending, next_peer: m.next_peer + 1, ..recorded }
            } else {
                MeshView { phase: Phase::Started, ..recorded }
            }
        },
        _ => m,
    }
}

/// The state a fresh controller is in: idle, with an empty cache.
pub open spec fn init_view() -> MeshView {
    MeshView {
        phase: Phase::Idle,
        cache: Seq::empty(),
        next_peer: 0,
        failed_attempts: 0,
        last_error: None,
    }
}

/// The coarse state each phase presents.
pub open spec fn state_of(p: Phase) -> MeshState {
    match p {
        Phase::Idle
        | Phase::ConfiguringRadio
        | Phase::ProtocolPending
        | Phase::SettingProtocol
        | Phase::StartPending
        | Phase::Starting => MeshState::Idle,
        Phase::Started => MeshState::Started,
        Phase::Scanning => MeshState::Scanning,
        Phase::TargetPending
        | Phase::Targeting
        | Phase::ConnectPending
        | Phase::Connecting
        | Phase::ConfirmPending
        | Phase::Confirming => MeshState::Connecting,
        Phase::Connected => MeshState::Connected,
        Phase::DisconnectPending | Phase::Disconnecting => MeshState::Disconnected,
        Phase::Failed => MeshState::Failed,
    }
}

/// Whether the radio has been started and not fatally lost.
pub open spec fn started_of(p: Phase) -> bool {
    match p {
        Phase::Idle
        | Phase::ConfiguringRadio
        | Phase::ProtocolPending
        | Phase::SettingProtocol
        | Phase::StartPending
        | Phase::Starting
        | Phase::Failed => false,
        _ => true,
    }
}

/// The mesh node controller. It owns the configuration and the ranked cache
/// of the most recent scan, and sequences the radio calls of the cycle; the
/// radio handle itself stays with the driving task, the controller's single
/// owner.
pub struct Mesh {
    config: MeshConfig,
    phase: Phase,
    cache: ScanResults,
    next_peer: usize,
    failed_attempts: u64,
    last_error: Option<RadioError>,
}

impl View for Mesh {
    type V = MeshView;

    closed spec fn view(&self) -> MeshView {
        MeshView {
            phase: self.phase,
            cache: self.cache@,
            next_peer: self.next_peer as int,
            failed_attempts: self.failed_attempts as int,
            last_error: self.last_error,
        }
    }
}

impl Mesh {
    /// During an attempt the candidate's rank lies inside the cache.
    #[verifier::type_invariant]
    spec fn inv(self) -> bool {
        attempting(self.phase) ==> (self.next_peer as int) < self.cache@.len()
    }

    /// The configuration the controller was built with; never mutated.
    pub closed spec fn spec_config(&self) -> MeshConfig {
        self.config
    }

    /// Controller in the idle state, owning the given configuration.
    pub fn new(config: MeshConfig) -> (m: Mesh)
        ensures
            m@ == init_view(),
            m.spec_config() == config,
    {
        let m = Mesh {
            config,
            phase: Phase::Idle,
            cache: ScanResults::new(),
            next_peer: 0,
            failed_attempts: 0,
            last_error: None,
        };
        proof {
            assert(m@ =~= init_view());
        }
        m
    }

    /// The next radio call for the driving task to perform, or `None` once
    /// the controller has failed fatally. The controller moves into the
    /// phase that marks the call in flight.
    pub fn next_action(&mut self) -> (action: Option<RadioAction>)
        requires
            !awaiting(old(self)@.phase),
        ensures
            (final(self)@, action) == spec_next_action(old(self)@),
            final(self).spec_config() == old(self).spec_config(),
    {
        proof {
            use_type_invariant(&*self);
        }
        match self.phase {
            Phase::Idle => {
                self.phase = Phase::ConfiguringRadio;
                Some(RadioAction::Configure { target: None })
            },
            Phase::ProtocolPending => {
                self.phase = Phase::SettingProtocol;
                Some(RadioAction::SetProtocol)
            },
            Phase::StartPending => {
                self.phase = Phase::Starting;
                Some(RadioAction::Start)
            },
            Phase::Started => {
                self.phase = Phase::Scanning;
                Some(RadioAction::Scan)
            },
            Phase::TargetPending => {
                let target = self.cache.get(self.next_peer).bssid;
                self.phase = Phase::Targeting;
                Some(RadioAction::Configure { target: Some(target) })
            },
            Phase::ConnectPending => {
                self.phase = Phase::Connecting;
                Some(RadioAction::Connect)
            },
            Phase::ConfirmPending => {
                self.phase = Phase::Confirming;
                Some(RadioAction::QueryConnected)
            },
            Phase::Connected => {
                self.phase = Phase::Disconnecting;
                Some(RadioAction::Disconnect)
            },
            Phase::DisconnectPending => {
                self.phase = Phase::Disconnecting;
                Some(RadioAction::Disconnect)
            },
            _ => None,
        }
    }

    /// Hands the controller the outcome of the call in flight.
    pub fn on_event(&mut self, event: RadioEvent)
        requires
            awaiting(old(self)@.phase),
            event_fits(old(self)@.phase, event@),
        ensures
            final(self)@ == spec_on_event(old(self)@, event@),
            final(self).spec_config() == old(self).spec_config(),
    {
        proof {
            use_type_invariant(&*self);
        }
        match self.phase {
            Phase::ConfiguringRadio => match event {
                RadioEvent::Completed => {
                    self.phase = Phase::ProtocolPending;
                },
                _ => {
                    self.phase = Phase::Failed;
                    self.last_error = Some(RadioError::Configure);
                },
            },
            Phase::SettingProtocol => match event {
                RadioEvent::Completed => {
                    self.phase = Phase::StartPending;
                },
                _ => {
                    self.phase = Phase::Failed;
                    self.last_error = Some(RadioError::Configure);
                },
            },
            Phase::Starting => match event {
                RadioEvent::Completed => {
                    self.phase = Phase::Started;
                },
                _ => {
                    self.phase = Phase::Failed;
                    self.last_error = Some(RadioError::Start);
                },
            },
            Phase::Scanning => match event {
                RadioEvent::Scanned(entries) => {
                    self.cache = ScanResults::from_scan(&entries);
                    self.next_peer = 0;
                    if self.cache.len() == 0 {
                        self.phase = Phase::Started;
                    } else {
                        self.phase = Phase::TargetPending;
                    }
                },
                _ => {
                    self.phase = Phase::Started;
                    self.last_error = Some(RadioError::Scan);
                },
            },
            Phase::Targeting => match event {
                RadioEvent::Completed => {
                    self.phase = Phase::ConnectPending;
                },
                _ => {
                    self.phase = Phase::DisconnectPending;
                    self.last_error = Some(RadioError::Configure);
                },
            },
            Phase::Connecting => match event {
                RadioEvent::Completed => {
                    self.phase = Phase::ConfirmPending;
                },
                _ => {
                    if self.failed_attempts < u64::MAX {
                        self.failed_attempts = self.failed_attempts + 1;
                    }
                    self.phase = Phase::DisconnectPending;
                    self.last_error = Some(RadioError::Connect);
                },
            },
            Phase::Confirming => match event {
                RadioEvent::Link(up) => {
                    if up {
                        self.phase = Phase::Connected;
                    } else {
                        self.phase = Phase::DisconnectPending;
                    }
                },
                _ => {},
            },
            Phase::Disconnecting => {
                match event {
                    RadioEvent::Failed => {
                        self.last_error = Some(RadioError::Disconnect);
                    },
                    _ => {},
                }
                let held = self.cache.len();
                if self.next_peer + 1 < held {
                    self.next_peer = self.next_peer + 1;
                    self.phase = Phase::TargetPending;
                } else {
                    self.phase = Phase::Started;
                }
            },
            _ => {},
        }
    }

    /// Coarse controller state, for supervising tasks.
    pub fn state(&self) -> (s: MeshState)
        ensures
            s == state_of(self@.phase),
    {
        match self.phase {
            Phase::Idle
            | Phase::ConfiguringRadio
            | Phase::ProtocolPending
            | Phase::SettingProtocol
            | Phase::StartPending
            | Phase::Starting => MeshState::Idle,
            Phase::Started => MeshState::Started,
            Phase::Scanning => MeshState::Scanning,
            Phase::TargetPending
            | Phase::Targeting
            | Phase::ConnectPending
            | Phase::Connecting
            | Phase::ConfirmPending
            | Phase::Confirming => MeshState::Connecting,
            Phase::Connected => MeshState::Connected,
            Phase::DisconnectPending | Phase::Disconnecting => MeshState::Disconnected,
            Phase::Failed => MeshState::Failed,
        }
    }

    /// Whether the radio has been started and not fatally lost.
    pub fn is_started(&self) -> (b: bool)
        ensures
            b == started_of(self@.phase),
    {
        match self.phase {
            Phase::Idle
            | Phase::ConfiguringRadio
            | Phase::ProtocolPending
            | Phase::SettingProtocol
            | Phase::StartPending
            | Phase::Starting
            | Phase::Failed => false,
            _ => true,
        }
    }

    /// Whether the link to the current candidate was confirmed up.
    pub fn is_connected(&self) -> (b: bool)
        ensures
            b == (self@.phase is Connected),
    {
        match self.phase {
            Phase::Connected => true,
            _ => false,
        }
    }

    /// The ranked cache of the most recent scan.
    pub fn cache(&self) -> (c: &ScanResults)
        ensures
            c@ == self@.cache,
    {
        &self.cache
    }

    /// The configuration the controller was built with.
    pub fn config(&self) -> (c: &MeshConfig)
        ensures
            *c == self.spec_config(),
    {
        &self.config
    }

    /// How many connect attempts reported a radio-layer failure.
    pub fn failed_attempts(&self) -> (n: u64)
        ensures
            n as int == self@.failed_attempts,
    {
        self.failed_attempts
    }

    /// The radio operation whose failure was last recorded.
    pub fn last_error(&self) -> (e: Option<RadioError>)
        ensures
            e == self@.last_error,
    {
        self.last_error
    }
}

/// A scan that heard no peers leaves an empty cache and returns the
/// controller to the started state, and the call it asks for next is
/// another scan: no connect is attempted.
pub proof fn lemma_empty_scan_rescans(m: MeshView)
    requires
        m.phase is Scanning,
    ensures
        spec_on_event(m, RadioEventView::Scanned(Seq::empty())).phase is Started,
        spec_on_event(m, RadioEventView::Scanned(Seq::empty())).cache == Seq::<ScanEntry>::empty(),
        spec_next_action(spec_on_event(m, RadioEventView::Scanned(Seq::empty()))).1
            == Some(RadioAction::Scan),
{
}

/// The connect call is issued only from the connect-pending phase, and
/// issuing it changes neither the cache nor the chosen candidate.
pub proof fn lemma_connect_only_when_pending(m: MeshView)
    requires
        spec_next_action(m).1 == Some(RadioAction::Connect),
    ensures
        m.phase is ConnectPending,
        spec_next_action(m).0.cache == m.cache,
        spec_next_action(m).0.next_peer == m.next_peer,
{
}

/// The connect-pending phase is reached only by the completed outcome of
/// the in-flight targeted configuration, with cache and candidate
/// unchanged: nothing else stands between the configure call and the
/// connect call of one attempt.
pub proof fn lemma_connect_pending_needs_configure(m: MeshView, ev: RadioEventView)
    requires
        event_fits(m.phase, ev),
        spec_on_event(m, ev).phase is ConnectPending,
    ensures
        m.phase is Targeting,
        ev is Completed,
        spec_on_event(m, ev).cache == m.cache,
        spec_on_event(m, ev).next_peer == m.next_peer,
{
}

/// No issued call other than the targeted configure leaves the controller
/// with that configure in flight, and none lands on the connect-pending
/// phase: the chain configure/connect cannot be entered part-way.
pub proof fn lemma_targeting_only_by_configure(m: MeshView, ev: RadioEventView)
    requires
        event_fits(m.phase, ev),
    ensures
        !(spec_on_event(m, ev).phase is Targeting),
        !(m.phase is ConnectPending) ==> !(spec_next_action(m).0.phase is ConnectPending),
{
}

/// The call that puts the targeted configuration in flight is the configure
/// call carrying the chosen candidate's hardware address, issued from the
/// target-pending phase with cache and candidate unchanged: every connect
/// attempt is immediately preceded by its own targeted configure.
pub proof fn lemma_targeting_follows_configure(m: MeshView)
    requires
        !awaiting(m.phase),
        spec_next_action(m).0.phase is Targeting,
    ensures
        m.phase is TargetPending,
        spec_next_action(m).1
            == Some(RadioAction::Configure { target: Some(m.cache[m.next_peer].bssid) }),
        spec_next_action(m).0.cache == m.cache,
        spec_next_action(m).0.next_peer == m.next_peer,
{
}

/// Whatever outcome the connect call reports, the attempt stays in its
/// closing phases — between the connect call and the disconnect call — with
/// the candidate unchanged.
pub proof fn lemma_connect_outcome_closes(m: MeshView, ev: RadioEventView)
    requires
        m.phase is Connecting,
        event_fits(m.phase, ev),
    ensures
        closing(spec_on_event(m, ev).phase),
        spec_on_event(m, ev).next_peer == m.next_peer,
        spec_on_event(m, ev).cache == m.cache,
{
}

/// While an attempt is closing, the only calls the controller issues are
/// the link-state query and then the mandatory disconnect; the disconnect
/// ends the closing phases. So a disconnect always stands between a connect
/// and the next connect or scan.
pub proof fn lemma_closing_issues_only_disconnect(m: MeshView)
    requires
        closing(m.phase),
        !awaiting(m.phase),
    ensures
        ({
            let (m1, a) = spec_next_action(m);
            &&& (a == Some(RadioAction::QueryConnected) && m1.phase is Confirming)
                || (a == Some(RadioAction::Disconnect) && m1.phase is Disconnecting)
            &&& m1.next_peer == m.next_peer
            &&& m1.cache == m.cache
        }),
{
}

/// The link-state query's answer keeps the attempt in its closing phases,
/// with the candidate unchanged: confirmation never skips the disconnect.
pub proof fn lemma_confirmation_keeps_closing(m: MeshView, ev: RadioEventView)
    requires
        m.phase is Confirming,
        event_fits(m.phase, ev),
    ensures
        closing(spec_on_event(m, ev).phase),
        spec_on_event(m, ev).next_peer == m.next_peer,
        spec_on_event(m, ev).cache == m.cache,
{
}

/// A radio failure while the radio is brought up — the mode configuration,
/// the protocol, or the start call — is fatal: the controller enters the
/// failed state, records the failed operation, and issues no further radio
/// call.
pub proof fn lemma_start_failure_is_fatal(m: MeshView)
    requires
        m.phase is ConfiguringRadio || m.phase is SettingProtocol || m.phase is Starting,
    ensures
        spec_on_event(m, RadioEventView::Failed).phase is Failed,
        spec_on_event(m, RadioEventView::Failed).last_error is Some,
        forall|n: MeshView|
            n.phase is Failed ==> #[trigger] spec_next_action(n) == (n, None::<RadioAction>),
{
}

/// A radio failure of one connect attempt is recorded, not escalated: the
/// failure counter grows, the error is noted, and the controller proceeds
/// to the attempt's mandatory disconnect.
pub proof fn lemma_connect_failure_moves_on(m: MeshView)
    requires
        m.phase is Connecting,
    ensures
        spec_on_event(m, RadioEventView::Failed).phase is DisconnectPending,
        spec_on_event(m, RadioEventView::Failed).failed_attempts == bump(m.failed_attempts),
        spec_on_event(m, RadioEventView::Failed).last_error == Some(RadioError::Connect),
        spec_next_action(spec_on_event(m, RadioEventView::Failed)).1
            == Some(RadioAction::Disconnect),
{
}

/// The disconnect outcome, success or failure, advances the cycle: to the
/// next ranked candidate while one remains, else back to the started state
/// for a fresh scan.
pub proof fn lemma_disconnect_advances(m: MeshView, ev: RadioEventView)
    requires
        m.phase is Disconnecting,
        event_fits(m.phase, ev),
    ensures
        m.next_peer + 1 < m.cache.len() ==> spec_on_event(m, ev).phase is TargetPending
            && spec_on_event(m, ev).next_peer == m.next_peer + 1,
        m.next_peer + 1 >= m.cache.len() ==> spec_on_event(m, ev).phase is Started,
        spec_on_event(m, ev).cache == m.cache,
{
}

} // verus!
