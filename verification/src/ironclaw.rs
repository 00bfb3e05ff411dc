//! IronClaw agent types: personal instances, channels, cost caps, and vault
//! references (never raw secrets).
use vstd::prelude::*;
use crate::text::{blank, is_blank};

verus! {

/// How the user reaches their IronClaw agent.
#[derive(Debug, Clone, Copy, PartialEq, Eq, Structural)]
pub enum Channel {
    /// Full WebChat at `https://<id>.agents.near.ai`.
    Web,
    /// Slack workspace integration.
    Slack,
    /// Telegram bot integration.
    Telegram,
    /// Local terminal via `ironclaw chat` / `run`.
    Terminal,
}

/// Where an IronClaw instance runs.
#[derive(Debug, Clone, PartialEq, Eq)]
pub enum DeployTarget {
    /// 1-click private instance on NEAR AI Cloud (TEE enclave), with the
    /// hub instance id.
    Hub(String),
    /// Local single binary (`ironclaw serve` on 127.0.0.1:3000).
    Local,
}

/// Spend guard passed through to `ironclaw.yaml` and the router.
#[derive(Debug, Clone, Copy, PartialEq, Eq, Structural)]
pub struct CostCaps {
    /// Max cents per day (maps to `max_daily_cost_cents`).
    pub max_daily_cents: u64,
    /// Max cents per single task.
    pub max_task_cents: u64,
}

impl CostCaps {
    /// Caps are consistent when a task may spend no more than a day.
    pub open spec fn consistent(self) -> bool {
        self.max_task_cents <= self.max_daily_cents
    }

    /// Build caps; `None` when the task cap exceeds the daily cap.
    pub fn new(max_daily_cents: u64, max_task_cents: u64) -> (r: Option<Self>)
        ensures
            r is None <==> max_task_cents > max_daily_cents,
            r matches Some(c) ==> c.max_daily_cents == max_daily_cents && c.max_task_cents
                == max_task_cents && c.consistent(),
    {
        if max_task_cents > max_daily_cents {
            return None;
        }
        Some(CostCaps { max_daily_cents, max_task_cents })
    }

    /// True when an estimate fits inside the task cap.
    pub fn allows(&self, estimated_cents: u64) -> (r: bool)
        ensures
            r == (estimated_cents <= self.max_task_cents),
    {
        estimated_cents <= self.max_task_cents
    }
}

/// What consistent caps allow for one task also fits in a day.
pub proof fn law_allowed_fits_daily(caps: CostCaps, estimated_cents: u64)
    requires
        caps.consistent(),
        estimated_cents <= caps.max_task_cents,
    ensures
        estimated_cents <= caps.max_daily_cents,
{
}

/// Reference to a secret in the encrypted vault, never the value itself.
#[derive(Debug, Clone, PartialEq, Eq)]
pub struct VaultRef(String);

impl VaultRef {
    /// The reference name.
    pub closed spec fn spec_name(self) -> Seq<char> {
        self.0@
    }

    /// Wrap a vault reference name, e.g. "GMAIL_TOKEN"; blank names are rejected.
    pub fn new(name: &str) -> (r: Option<Self>)
        ensures
            r is None <==> blank(name@),
            r matches Some(v) ==> v.spec_name() == name@,
    {
        if is_blank(name) {
            return None;
        }
        Some(VaultRef(String::from_str(name)))
    }

    /// Borrow the reference name (safe to log).
    pub fn name(&self) -> (r: &str)
        ensures
            r@ == self.spec_name(),
    {
        self.0.as_str()
    }
}

} // verus!
