use vstd::prelude::*;
use vstd::string::*;

use crate::detector::{kind_name, severity_level, severity_name, EventKind, Severity};
use crate::text::{decimal, push_decimal};

verus! {

/// The JSON line printed for an event in local mode:
/// {"senderId":"slap","text":"<KIND> #<level> <name>","correlationId":""}.
pub open spec fn local_line_text(kind: EventKind, severity: Severity) -> Seq<char> {
    "{\"senderId\":\"slap\",\"text\":\""@ + kind_name(kind) + " #"@ + decimal(
        severity_level(severity) as nat,
    ) + " "@ + severity_name(severity) + "\",\"correlationId\":\"\"}"@
}

pub fn local_event_line(kind: EventKind, severity: Severity) -> (line: String)
    ensures
        line@ == local_line_text(kind, severity),
{
    proof {
        reveal_strlit("{\"senderId\":\"slap\",\"text\":\"");
        reveal_strlit(" #");
        reveal_strlit(" ");
        reveal_strlit("\",\"correlationId\":\"\"}");
    }
    let mut line = String::from_str("{\"senderId\":\"slap\",\"text\":\"");
    line.append(kind.as_str());
    line.append(" #");
    push_decimal(&mut line, severity.level() as u64);
    line.append(" ");
    line.append(severity.as_str());
    line.append("\",\"correlationId\":\"\"}");
    assert(line@ =~= local_line_text(kind, severity));
    line
}

} // verus!
