use vstd::prelude::*;
use vstd::string::*;

use crate::detector::{severity_level, severity_name, Severity};
use crate::ids::{correlation_id_text, new_correlation_id};
use crate::text::{decimal, push_decimal};

verus! {

/// Event payload in the OpenClaw inbound format (serialized with camelCase
/// keys: senderId, text, correlationId).
pub struct SlapPayload {
    pub sender_id: String,
    pub text: String,
    pub correlation_id: String,
}

/// "SLAP DETECTED! Level <level> (<name>) - amplitude: <amplitude>g".
pub open spec fn slap_text(severity: Severity, amplitude: Seq<char>) -> Seq<char> {
    "SLAP DETECTED! Level "@ + decimal(severity_level(severity) as nat) + " ("@ + severity_name(
        severity,
    ) + ") - amplitude: "@ + amplitude + "g"@
}

impl SlapPayload {
    /// The payload announcing an event of `severity` whose amplitude in g,
    /// written with four decimals, is `amplitude`.
    pub fn from_event(severity: Severity, amplitude: &str) -> (p: Self)
        ensures
            p.sender_id@ == "slap-detector"@,
            p.text@ == slap_text(severity, amplitude@),
            correlation_id_text(p.correlation_id@),
    {
        proof {
            reveal_strlit("slap-detector");
            reveal_strlit("SLAP DETECTED! Level ");
            reveal_strlit(" (");
            reveal_strlit(") - amplitude: ");
            reveal_strlit("g");
        }
        let mut text = String::from_str("SLAP DETECTED! Level ");
        push_decimal(&mut text, severity.level() as u64);
        text.append(" (");
        text.append(severity.as_str());
        text.append(") - amplitude: ");
        text.append(amplitude);
        text.append("g");
        assert(text@ =~= slap_text(severity, amplitude@));
        SlapPayload {
            sender_id: String::from_str("slap-detector"),
            text,
            correlation_id: new_correlation_id(),
        }
    }
}

} // verus!
