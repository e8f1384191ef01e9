//! Rewriting broker addresses, and the state of the tunnels behind them.
//!
//! A client context keeps, per broker, either a fixed rewrite, a tunnel, or
//! the error with which the default tunnel could not be built. Connecting a
//! tunnel is the caller's business; what to do before and after is decided
//! here.
use vstd::prelude::*;
use vstd::string::*;
use crate::kafka::decimal::{decimal, to_decimal};

verus! {

/// The address of a broker: a host name and a port, both as text.
#[derive(Clone, Debug, PartialEq, Eq)]
pub struct BrokerAddr {
    pub host: String,
    pub port: String,
}

/// The mathematical value of a [`BrokerAddr`].
pub struct BrokerAddrView {
    pub host: Seq<char>,
    pub port: Seq<char>,
}

impl View for BrokerAddr {
    type V = BrokerAddrView;

    open spec fn view(&self) -> BrokerAddrView {
        BrokerAddrView { host: self.host@, port: self.port@ }
    }
}

/// Rewrites a broker address.
#[derive(Clone, Debug)]
pub struct BrokerRewrite {
    /// The rewritten hostname.
    pub host: String,
    /// The rewritten port. If unspecified, the broker's original port is
    /// left unchanged.
    pub port: Option<u16>,
}

/// The mathematical value of a [`BrokerRewrite`].
pub struct BrokerRewriteView {
    pub host: Seq<char>,
    pub port: Option<u16>,
}

impl View for BrokerRewrite {
    type V = BrokerRewriteView;

    open spec fn view(&self) -> BrokerRewriteView {
        BrokerRewriteView { host: self.host@, port: self.port }
    }
}

/// The address a rewrite turns `addr` into: the rewrite's host, and its port
/// in decimal if it names one, the broker's own port otherwise.
pub open spec fn rewritten(rewrite: BrokerRewriteView, addr: BrokerAddrView) -> BrokerAddrView {
    BrokerAddrView {
        host: rewrite.host,
        port: match rewrite.port {
            None => addr.port,
            Some(port) => decimal(port as nat),
        },
    }
}

impl BrokerRewrite {
    /// Applies the rewrite to a broker address.
    pub fn apply(&self, addr: &BrokerAddr) -> (new_addr: BrokerAddr)
        ensures
            new_addr@ == rewritten(self@, addr@),
    {
        BrokerAddr {
            host: self.host.clone(),
            port: match self.port {
                None => addr.port.clone(),
                Some(port) => to_decimal(port as u128),
            },
        }
    }
}

/// The address handed to the client when the default tunnel could not be
/// built: one that never resolves.
pub fn unresolvable_addr() -> (addr: BrokerAddr)
    ensures
        addr@ == (BrokerAddrView {
            host: "failed-ssh-tunnel.dev.materialize.com"@,
            port: "1337"@,
        }),
{
    BrokerAddr {
        host: String::from_str("failed-ssh-tunnel.dev.materialize.com"),
        port: String::from_str("1337"),
    }
}

/// What kind of entry the rewrite table holds for a broker.
#[derive(Clone, Copy, Debug, PartialEq, Eq, Structural)]
pub enum RewriteKind {
    /// A fixed rewrite.
    Simple,
    /// A tunnel.
    SshTunnel,
    /// The record that the default tunnel could not be built.
    FailedDefaultSshTunnel,
}

/// What to do with a broker address.
#[derive(Clone, Copy, Debug, PartialEq, Eq, Structural)]
pub enum RewritePlan {
    /// Rewrite it by the entry found.
    UseEntry,
    /// Connect the default tunnel for it.
    ConnectDefaultTunnel,
    /// Leave it as it is.
    KeepAddress,
}

/// What to do with the table once the default tunnel is connected.
#[derive(Clone, Copy, Debug, PartialEq, Eq, Structural)]
pub enum TunnelUpdate {
    /// Put the new tunnel in the brokers's entry and rewrite by it.
    StoreTunnel,
    /// Somebody else filled the entry in the meantime: rewrite by theirs.
    KeepEntry,
}

/// The plan for an address, by the entry the table holds for it: an entry
/// of its own is used; without one, or with only a record of failure, the
/// default tunnel is tried if there is one.
pub open spec fn plan_for(entry: Option<RewriteKind>, has_default_tunnel: bool) -> RewritePlan {
    match entry {
        Some(RewriteKind::Simple) | Some(RewriteKind::SshTunnel) => RewritePlan::UseEntry,
        None | Some(RewriteKind::FailedDefaultSshTunnel) => if has_default_tunnel {
            RewritePlan::ConnectDefaultTunnel
        } else {
            RewritePlan::KeepAddress
        },
    }
}

/// Decides what to do with a broker address.
pub fn plan_rewrite(entry: Option<RewriteKind>, has_default_tunnel: bool) -> (plan: RewritePlan)
    ensures
        plan == plan_for(entry, has_default_tunnel),
{
    match entry {
        None | Some(RewriteKind::FailedDefaultSshTunnel) => {
            if has_default_tunnel {
                RewritePlan::ConnectDefaultTunnel
            } else {
                RewritePlan::KeepAddress
            }
        },
        Some(_) => RewritePlan::UseEntry,
    }
}

/// Decides what becomes of a freshly connected default tunnel: it is stored
/// where the table has no entry or only a record of failure, and dropped in
/// favour of an entry that was put there in the meantime.
pub fn store_connected_tunnel(entry: Option<RewriteKind>) -> (update: TunnelUpdate)
    ensures
        update == match entry {
            None | Some(RewriteKind::FailedDefaultSshTunnel) => TunnelUpdate::StoreTunnel,
            Some(_) => TunnelUpdate::KeepEntry,
        },
{
    match entry {
        None => TunnelUpdate::StoreTunnel,
        Some(RewriteKind::FailedDefaultSshTunnel) => TunnelUpdate::StoreTunnel,
        Some(_) => TunnelUpdate::KeepEntry,
    }
}

/// Whether the failure to connect the default tunnel is recorded: only where
/// the table has no entry yet.
pub fn record_failed_tunnel(entry: Option<RewriteKind>) -> (record: bool)
    ensures
        record == (entry is None),
{
    entry.is_none()
}

/// The state of a tunnel.
#[derive(Clone, Debug, PartialEq, Eq)]
pub enum SshTunnelStatus {
    /// The tunnel is up.
    Running,
    /// The tunnel is down, with the reason.
    Errored(String),
}

/// The mathematical value of an [`SshTunnelStatus`].
pub enum TunnelStatusView {
    Running,
    Errored(Seq<char>),
}

impl View for SshTunnelStatus {
    type V = TunnelStatusView;

    open spec fn view(&self) -> TunnelStatusView {
        match *self {
            SshTunnelStatus::Running => TunnelStatusView::Running,
            SshTunnelStatus::Errored(reason) => TunnelStatusView::Errored(reason@),
        }
    }
}

impl DeepView for SshTunnelStatus {
    type V = TunnelStatusView;

    open spec fn deep_view(&self) -> TunnelStatusView {
        self@
    }
}

/// Two states as one: running if both are, otherwise errored with the
/// reasons of both, the earlier first, separated by a comma.
pub open spec fn combined(earlier: TunnelStatusView, later: TunnelStatusView) -> TunnelStatusView {
    match (earlier, later) {
        (TunnelStatusView::Running, TunnelStatusView::Running) => TunnelStatusView::Running,
        (TunnelStatusView::Running, TunnelStatusView::Errored(reason)) => TunnelStatusView::Errored(
            reason,
        ),
        (TunnelStatusView::Errored(reason), TunnelStatusView::Running) => TunnelStatusView::Errored(
            reason,
        ),
        (
            TunnelStatusView::Errored(first),
            TunnelStatusView::Errored(second),
        ) => TunnelStatusView::Errored(first + ", "@ + second),
    }
}

/// The states of all tunnels as one.
pub open spec fn consolidated(statuses: Seq<TunnelStatusView>) -> TunnelStatusView
    decreases statuses.len(),
{
    if statuses.len() == 0 {
        TunnelStatusView::Running
    } else {
        combined(consolidated(statuses.drop_last()), statuses.last())
    }
}

/// The state of the tunnel behind an entry that is no live tunnel: a fixed
/// rewrite counts as running, a record of failure as errored with the
/// recorded reason.
pub fn status_without_tunnel(failure: Option<&String>) -> (status: SshTunnelStatus)
    ensures
        status@ == match failure {
            Some(reason) => TunnelStatusView::Errored(reason@),
            None => TunnelStatusView::Running,
        },
{
    match failure {
        Some(reason) => SshTunnelStatus::Errored(reason.clone()),
        None => SshTunnelStatus::Running,
    }
}

/// Combines two states.
pub fn combine(earlier: SshTunnelStatus, later: SshTunnelStatus) -> (both: SshTunnelStatus)
    ensures
        both@ == combined(earlier@, later@),
{
    match (earlier, later) {
        (SshTunnelStatus::Running, SshTunnelStatus::Errored(reason)) => SshTunnelStatus::Errored(
            reason,
        ),
        (SshTunnelStatus::Errored(reason), SshTunnelStatus::Running) => SshTunnelStatus::Errored(
            reason,
        ),
        (SshTunnelStatus::Errored(first), SshTunnelStatus::Errored(second)) => {
            let mut reasons = first;
            reasons.append(", ");
            reasons.append(second.as_str());
            SshTunnelStatus::Errored(reasons)
        },
        (SshTunnelStatus::Running, SshTunnelStatus::Running) => SshTunnelStatus::Running,
    }
}

/// Consolidates the states of all tunnels, in the order given.
pub fn tunnel_status(statuses: &Vec<SshTunnelStatus>) -> (status: SshTunnelStatus)
    ensures
        status@ == consolidated(statuses.deep_view()),
{
    let ghost all = statuses.deep_view();
    let mut status = SshTunnelStatus::Running;
    let mut i: usize = 0;
    while i < statuses.len()
        invariant
            i <= statuses.len(),
            statuses.deep_view() == all,
            status@ == consolidated(all.take(i as int)),
        decreases statuses.len() - i,
    {
        proof {
            assert(all.take(i as int + 1).drop_last() =~= all.take(i as int));
            assert(all.take(i as int + 1).last() == statuses[i as int]@);
        }
        let next = match &statuses[i] {
            SshTunnelStatus::Running => SshTunnelStatus::Running,
            SshTunnelStatus::Errored(reason) => SshTunnelStatus::Errored(reason.clone()),
        };
        status = combine(status, next);
        i += 1;
    }
    assert(all.take(statuses.len() as int) =~= all);
    status
}

} // verus!
