use vstd::prelude::*;

verus! {

/// The reply of the set-always-on-top command for a host report. The
/// report is `None` when the host window manager set the attribute, and
/// `Some(cause)`, with the rendered underlying cause, when it refused
/// (an unsupported platform, a window already destroyed).
pub open spec fn set_reply_of(report: Option<String>) -> Result<(), String> {
    match report {
        None => Ok(()),
        Some(cause) => Err(cause),
    }
}

/// The reply of the is-always-on-top command for a host report. The
/// report is the flag the host window manager read, or the rendered
/// cause of its refusal.
pub open spec fn query_reply_of(report: Result<bool, String>) -> Result<bool, String> {
    match report {
        Ok(flag) => Ok(flag),
        Err(cause) => Err(cause),
    }
}

/// Shapes the set-always-on-top command's reply: success exactly when
/// the host window manager carried the request out, and the host's
/// rendered cause, surfaced verbatim, when it refused.
pub fn set_always_on_top_reply(report: Option<String>) -> (r: Result<(), String>)
    ensures
        r == set_reply_of(report),
        r is Ok <==> report is None,
{
    match report {
        None => Ok(()),
        Some(cause) => Err(cause),
    }
}

/// Shapes the is-always-on-top command's reply: the flag the host window
/// manager read when it read one, and the host's rendered cause,
/// surfaced verbatim, when it refused.
pub fn is_always_on_top_reply(report: Result<bool, String>) -> (r: Result<bool, String>)
    ensures
        r == query_reply_of(report),
        r is Ok <==> report is Ok,
{
    match report {
        Ok(flag) => Ok(flag),
        Err(cause) => Err(cause),
    }
}

/// A refused request surfaces a non-empty error string: when the host
/// window manager refuses a set or a query and renders a non-empty
/// cause, each command replies with an error that carries exactly that
/// text, so the error string is itself non-empty.
pub proof fn lemma_refusal_surfaces_cause(cause: String)
    requires
        cause@.len() > 0,
    ensures
        set_reply_of(Some(cause)) matches Err(m) && m == cause && m@.len() > 0,
        query_reply_of(Err(cause)) matches Err(m) && m == cause && m@.len() > 0,
{
}

} // verus!
