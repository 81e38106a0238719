use vstd::prelude::*;
use vstd::string::*;

verus! {

/// Operating mode chosen on the command line.
#[derive(Debug, Clone)]
pub enum Command {
    /// Serve the detector's tools over stdio for agent integration.
    Mcp,
    /// Report events to the OpenClaw CLI, or print them (the default mode).
    Standalone(StandaloneArgs),
}

/// Options of the standalone mode.
#[derive(Debug, Clone)]
pub struct StandaloneArgs {
    /// Compatibility flag with no effect.
    pub openclaw: bool,
    /// OpenClaw agent id that receives the events.
    pub openclaw_agent: String,
    /// OpenClaw thinking level (off, minimal, low, medium or high).
    pub openclaw_thinking: String,
    /// OpenClaw session id for slap and shake events.
    pub openclaw_session_id: String,
    /// OpenClaw command timeout in seconds.
    pub openclaw_timeout_sec: u64,
    /// Deliver the agent's reply back to a channel.
    pub openclaw_deliver: bool,
    /// Reply channel override (such as discord).
    pub openclaw_reply_channel: Option<String>,
    /// Reply target override (such as channel:123456789).
    pub openclaw_reply_to: Option<String>,
    /// User to run the OpenClaw CLI as.
    pub openclaw_run_as: Option<String>,
    /// OpenClaw CLI binary path or name.
    pub openclaw_bin: String,
    /// Print events to stdout instead of invoking OpenClaw.
    pub local: bool,
}

impl StandaloneArgs {
    /// The documented defaults of the standalone options.
    pub open spec fn is_default(&self) -> bool {
        &&& !self.openclaw
        &&& self.openclaw_agent@ == "main"@
        &&& self.openclaw_thinking@ == "off"@
        &&& self.openclaw_session_id@ == "slap-detector"@
        &&& self.openclaw_timeout_sec == 20
        &&& !self.openclaw_deliver
        &&& self.openclaw_reply_channel is None
        &&& self.openclaw_reply_to is None
        &&& self.openclaw_run_as is None
        &&& self.openclaw_bin@ == "openclaw"@
        &&& !self.local
    }
}

impl Default for StandaloneArgs {
    fn default() -> (args: Self)
        ensures
            args.is_default(),
    {
        StandaloneArgs {
            openclaw: false,
            openclaw_agent: String::from_str("main"),
            openclaw_thinking: String::from_str("off"),
            openclaw_session_id: String::from_str("slap-detector"),
            openclaw_timeout_sec: 20,
            openclaw_deliver: false,
            openclaw_reply_channel: None,
            openclaw_reply_to: None,
            openclaw_run_as: None,
            openclaw_bin: String::from_str("openclaw"),
            local: false,
        }
    }
}

} // verus!
