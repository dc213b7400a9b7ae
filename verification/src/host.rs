//! Hosts, their liveness state, and the effect of a heartbeat on it.

use crate::id::IdGenerator;
use crate::text::{
    lemma_signed_round_trip, parse_signed, signed_decimal, signed_decimal_string, signed_value,
};
use vstd::prelude::*;

verus! {

/// Opaque identifier of a host: assigned once, never changed.
#[derive(Debug, Clone, Copy, PartialEq, Eq, Hash, Structural)]
pub struct HostId(pub i64);

impl HostId {
    /// A fresh identifier from `ids`: above every identifier that `ids`
    /// has issued before.
    pub fn next_id(ids: &mut IdGenerator) -> (id: HostId)
        ensures
            final(ids).node_identity() == old(ids).node_identity(),
            final(ids).last_issued() == Some(id.0),
            old(ids).last_issued() matches Some(prev) ==> id.0 >= prev && (prev < i64::MAX ==> id.0
                > prev),
    {
        HostId(ids.next())
    }

    /// The identifier in decimal, as it is shown to operators.
    pub fn to_text(&self) -> (s: String)
        ensures
            s@ == signed_decimal(self.0 as int),
    {
        signed_decimal_string(self.0)
    }

    /// The identifier that a decimal text stands for, if it stands for
    /// one.
    pub fn parse(text: &str) -> (id: Option<HostId>)
        ensures
            match signed_value(text@) {
                Some(v) => if i64::MIN <= v <= i64::MAX {
                    id == Some(HostId(v as i64))
                } else {
                    id is None
                },
                None => id is None,
            },
    {
        match parse_signed(text) {
            Some(v) => Some(HostId(v)),
            None => None,
        }
    }
}

/// An identifier written out and read again is the same identifier.
pub proof fn lemma_id_text_round_trip(id: HostId)
    ensures
        signed_value(signed_decimal(id.0 as int)) == Some(id.0 as int),
{
    lemma_signed_round_trip(id.0 as int);
}

/// A request that names one host.
#[derive(Debug, Clone, Copy, PartialEq, Eq, Structural)]
pub struct HostIdParams {
    pub id: HostId,
}

/// Liveness of a host as last observed.
#[derive(Debug, Clone, Copy, PartialEq, Eq, Structural)]
pub enum HostState {
    /// The agent answered the last probe, or enrollment has just succeeded.
    Running,
    /// Stopped by an operator.
    Stopped,
    /// The agent did not answer the last probe, or has not been probed yet.
    Disconnected,
}

/// A remote machine under management.
#[derive(Debug)]
pub struct Host {
    pub id: HostId,
    pub name: String,
    /// The address in its textual form.
    pub ip: String,
    pub state: HostState,
}

/// What a [`Host`] is, as plain values.
pub struct HostModel {
    pub id: HostId,
    pub name: Seq<char>,
    pub ip: Seq<char>,
    pub state: HostState,
}

impl View for Host {
    type V = HostModel;

    open spec fn view(&self) -> HostModel {
        HostModel { id: self.id, name: self.name@, ip: self.ip@, state: self.state }
    }
}

/// Outcome of one liveness probe. Failure is an ordinary outcome, not an
/// error: it carries whatever detail the transport gave.
#[derive(Debug)]
pub struct HeartbeatResult {
    pub success: bool,
    pub error: Option<String>,
}

/// The request of one liveness probe: where to send it and what to say.
#[derive(Debug)]
pub struct Probe {
    pub address: String,
    pub port: u16,
    pub message: String,
}

/// The state a host is in after a probe: `Running` if it was answered,
/// `Disconnected` if not, whatever the state before.
pub open spec fn state_after(success: bool) -> HostState {
    if success {
        HostState::Running
    } else {
        HostState::Disconnected
    }
}

impl HeartbeatResult {
    /// Collapses the reply of the remote call into an outcome: any reply
    /// is a success, any failure of transport or agent is the one failure,
    /// with its detail kept.
    pub fn from_reply(reply: Result<String, String>) -> (res: HeartbeatResult)
        ensures
            res.success == (reply is Ok),
            reply is Ok ==> res.error is None,
            reply is Err ==> res.error is Some && res.error->Some_0@ == reply->Err_0@,
    {
        match reply {
            Ok(_) => HeartbeatResult { success: true, error: None },
            Err(detail) => HeartbeatResult { success: false, error: Some(detail) },
        }
    }
}

impl Host {
    /// The probe to send to this host's agent, which listens on
    /// `agent_port`.
    pub fn probe(&self, agent_port: u16) -> (req: Probe)
        ensures
            req.address@ == self.ip@,
            req.port == agent_port,
            req.message@ == "ping"@,
    {
        Probe { address: self.ip.clone(), port: agent_port, message: String::from_str("ping") }
    }

    /// Applies the outcome of a probe: the state becomes
    /// [`state_after`]`(result.success)`; identity, name and address stay.
    pub fn ping(&mut self, result: &HeartbeatResult)
        ensures
            final(self)@ == (HostModel { state: state_after(result.success), ..old(self)@ }),
    {
        if result.success {
            self.state = HostState::Running;
        } else {
            self.state = HostState::Disconnected;
        }
    }

    /// A copy of this host.
    pub fn duplicate(&self) -> (copy: Host)
        ensures
            copy@ == self@,
    {
        Host { id: self.id, name: self.name.clone(), ip: self.ip.clone(), state: self.state }
    }
}

/// The stored form of a host: liveness is not stored.
#[derive(Debug)]
pub struct HostPo {
    pub id: HostId,
    pub name: String,
    pub ip: String,
}

/// The stored form of `host`.
pub fn to_po(host: &Host) -> (po: HostPo)
    ensures
        po.id == host.id,
        po.name@ == host.name@,
        po.ip@ == host.ip@,
{
    HostPo { id: host.id, name: host.name.clone(), ip: host.ip.clone() }
}

/// The host that a stored record stands for. A host read back from storage
/// has not been probed yet, so it is `Disconnected`.
pub fn from_po(po: HostPo) -> (host: Host)
    ensures
        host@ == (HostModel {
            id: po.id,
            name: po.name@,
            ip: po.ip@,
            state: HostState::Disconnected,
        }),
{
    Host { id: po.id, name: po.name, ip: po.ip, state: HostState::Disconnected }
}

/// Probing twice in a row leaves the host as the second probe alone
/// would: the outcome of the first has no lasting effect, and identity,
/// name and address never change. No probe ever leaves a host `Stopped`:
/// that state is an operator's to set.
pub proof fn lemma_last_probe_decides(host: HostModel, first: bool, second: bool)
    ensures
        (HostModel {
            state: state_after(second),
            ..(HostModel { state: state_after(first), ..host })
        }) == (HostModel { state: state_after(second), ..host }),
        state_after(true) == HostState::Running,
        state_after(false) == HostState::Disconnected,
        state_after(first) != HostState::Stopped,
{
}

} // verus!
