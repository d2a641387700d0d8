//! State the desktop UI keeps about the running server: the connected
//! clients, a bounded log, and what the tray and the settings panes show.
use crate::callbacks::{ConnectionEvent, LogEntry};
use crate::text::str_equals;
use std::collections::VecDeque;
use vstd::prelude::*;
use vstd::string::StringExecFns;

verus! {

/// A connected client, as the UI tracks it.
pub struct Connection {
    pub client_ip: String,
    pub client_name: String,
    pub connected_at: String,
    pub bytes_total: u64,
}

/// Answer to a settings update: whether the server must be restarted.
#[derive(Clone, Copy, PartialEq, Eq, Structural, Debug)]
pub struct SetConfigResponse {
    pub restart_required: bool,
}

/// `conns` without the clients at address `ip`, in order.
pub open spec fn without_client(conns: Seq<Connection>, ip: Seq<char>) -> Seq<Connection>
    decreases conns.len(),
{
    if conns.len() == 0 {
        conns
    } else {
        let rest = without_client(conns.drop_last(), ip);
        if conns.last().client_ip@ == ip {
            rest
        } else {
            rest.push(conns.last())
        }
    }
}

/// Whether `new` is `old` after `event`: a connection is appended with no
/// traffic yet; a disconnection removes every client of that address.
pub open spec fn connections_after(old: Seq<Connection>, new: Seq<Connection>, event: ConnectionEvent) -> bool {
    match event {
        ConnectionEvent::Connected(info) => {
            &&& new.len() == old.len() + 1
            &&& new.subrange(0, old.len() as int) == old
            &&& new.last().client_ip@ == info.client_ip@
            &&& new.last().client_name@ == info.client_name@
            &&& new.last().connected_at@ == info.connected_at@
            &&& new.last().bytes_total == 0
        },
        ConnectionEvent::Disconnected(info) => new == without_client(old, info.client_ip@),
    }
}

/// After a disconnection no client of that address is listed, and every
/// client of another address still is, in the same order.
pub proof fn lemma_disconnect_removes_address(conns: Seq<Connection>, ip: Seq<char>)
    ensures
        forall|i: int| 0 <= i < without_client(conns, ip).len() ==> #[trigger] without_client(
            conns,
            ip,
        )[i].client_ip@ != ip,
        forall|i: int|
            0 <= i < conns.len() && #[trigger] conns[i].client_ip@ != ip ==> without_client(
                conns,
                ip,
            ).contains(conns[i]),
        without_client(conns, ip).len() <= conns.len(),
    decreases conns.len(),
{
    if conns.len() > 0 {
        let init = conns.drop_last();
        lemma_disconnect_removes_address(init, ip);
        let rest = without_client(init, ip);
        assert forall|i: int| 0 <= i < conns.len() && #[trigger] conns[i].client_ip@ != ip implies without_client(
            conns,
            ip,
        ).contains(conns[i]) by {
            if i < conns.len() - 1 {
                assert(init[i] == conns[i]);
                let k = choose|k: int| 0 <= k < rest.len() && rest[k] == init[i];
                if conns.last().client_ip@ != ip {
                    assert(rest.push(conns.last())[k] == conns[i]);
                }
            } else {
                assert(rest.push(conns.last())[rest.len() as int] == conns[i]);
            }
        }
    }
}

/// Updates the list of connected clients after a connection event.
pub fn apply_connection_event(connections: &mut Vec<Connection>, event: &ConnectionEvent)
    ensures
        connections_after(old(connections)@, final(connections)@, *event),
{
    match event {
        ConnectionEvent::Connected(info) => {
            connections.push(
                Connection {
                    client_ip: info.client_ip.clone(),
                    client_name: info.client_name.clone(),
                    connected_at: info.connected_at.clone(),
                    bytes_total: 0,
                },
            );
            assert(connections@.subrange(0, old(connections)@.len() as int) =~= old(
                connections,
            )@);
        },
        ConnectionEvent::Disconnected(info) => {
            let ghost all = old(connections)@;
            let mut source: Vec<Connection> = Vec::new();
            std::mem::swap(&mut source, connections);
            let n = source.len();
            let mut kept: Vec<Connection> = Vec::new();
            let mut i: usize = 0;
            while i < n
                invariant
                    n == all.len(),
                    i <= n,
                    source@ == all.subrange(i as int, n as int),
                    kept@ == without_client(all.subrange(0, i as int), info.client_ip@),
                decreases n - i,
            {
                let c = source.remove(0);
                assert(all.subrange(0, i + 1).drop_last() =~= all.subrange(0, i as int));
                assert(source@ =~= all.subrange(i + 1, n as int));
                if str_equals(c.client_ip.as_str(), info.client_ip.as_str()) {
                } else {
                    kept.push(c);
                }
                i = i + 1;
            }
            assert(all.subrange(0, n as int) =~= all);
            *connections = kept;
        },
    }
}

/// Most log entries the UI keeps.
pub const MAX_LOG_ENTRIES: usize = 5000;

/// The log after `entry` is appended: when the log is full, its oldest
/// entry goes first.
pub open spec fn log_after_push(logs: Seq<LogEntry>, entry: LogEntry) -> Seq<LogEntry> {
    if logs.len() >= MAX_LOG_ENTRIES {
        logs.drop_first().push(entry)
    } else {
        logs.push(entry)
    }
}

/// Appends a log entry; when the log is full, its oldest entry goes first.
pub fn push_log(logs: &mut VecDeque<LogEntry>, entry: LogEntry)
    ensures
        final(logs)@ == log_after_push(old(logs)@, entry),
{
    if logs.len() >= MAX_LOG_ENTRIES {
        logs.pop_front();
    }
    logs.push_back(entry);
}

/// The log never holds more than `MAX_LOG_ENTRIES` entries: appending to a
/// log within the bound keeps it within, and the new entry is the newest.
pub proof fn lemma_log_stays_bounded(logs: Seq<LogEntry>, entry: LogEntry)
    requires
        logs.len() <= MAX_LOG_ENTRIES,
    ensures
        log_after_push(logs, entry).len() <= MAX_LOG_ENTRIES,
        log_after_push(logs, entry).last() == entry,
{
}

/// Log entries the UI shows when asked for `limit` of them (100 when it
/// does not say): the newest first.
pub open spec fn recent_log_count(len: nat, limit: Option<usize>) -> nat {
    let l = match limit {
        Some(n) => n as nat,
        None => 100,
    };
    if len < l {
        len
    } else {
        l
    }
}

/// The newest log entries, newest first, at most `limit` of them (100 when
/// no limit is given).
pub fn recent_logs(logs: &VecDeque<LogEntry>, limit: Option<usize>) -> (r: Vec<LogEntry>)
    ensures
        r@.len() == recent_log_count(logs@.len(), limit),
        forall|i: int| 0 <= i < r@.len() ==> r@[i] == logs@[logs@.len() - 1 - i],
{
    let limit = match limit {
        Some(n) => n,
        None => 100,
    };
    let n = logs.len();
    let count = if n < limit {
        n
    } else {
        limit
    };
    let mut r: Vec<LogEntry> = Vec::new();
    let mut i: usize = 0;
    while i < count
        invariant
            n == logs@.len(),
            count <= n,
            i <= count,
            r@.len() == i,
            forall|j: int| 0 <= j < i ==> r@[j] == logs@[n - 1 - j],
        decreases count - i,
    {
        r.push(logs[n - 1 - i].duplicate());
        i = i + 1;
    }
    r
}

/// What the tray shows for the server: `connected` while data flows,
/// `running` otherwise.
pub fn tray_state(bitrate_kbps: u64) -> (s: &'static str)
    ensures
        s@ == if bitrate_kbps > 0 {
            "connected"@
        } else {
            "running"@
        },
{
    if bitrate_kbps > 0 {
        "connected"
    } else {
        "running"
    }
}

/// Address of the System Settings privacy pane for screen recording.
pub const SCREEN_CAPTURE_PANE_URL: &'static str = "x-apple.systempreferences:com.apple.preference.security?Privacy_ScreenCapture";

/// Address of the System Settings privacy pane for accessibility.
pub const ACCESSIBILITY_PANE_URL: &'static str = "x-apple.systempreferences:com.apple.preference.security?Privacy_Accessibility";

/// Address of the System Settings privacy pane for the microphone.
pub const MICROPHONE_PANE_URL: &'static str = "x-apple.systempreferences:com.apple.preference.security?Privacy_Microphone";

/// The address of a System Settings privacy pane by its name
/// (`screen_recording` or `screen_capture`, `accessibility`, `microphone`),
/// or the message for an unknown name.
pub fn preferences_url(pane: &str) -> (r: Result<&'static str, String>)
    ensures
        r matches Ok(u) ==> u@ == if pane@ == "screen_recording"@ || pane@ == "screen_capture"@ {
            SCREEN_CAPTURE_PANE_URL@
        } else if pane@ == "accessibility"@ {
            ACCESSIBILITY_PANE_URL@
        } else {
            MICROPHONE_PANE_URL@
        },
        r is Ok <==> (pane@ == "screen_recording"@ || pane@ == "screen_capture"@ || pane@
            == "accessibility"@ || pane@ == "microphone"@),
        r matches Err(e) ==> e@ == "Unknown preferences pane: "@ + pane@,
{
    if str_equals(pane, "screen_recording") || str_equals(pane, "screen_capture") {
        Ok(SCREEN_CAPTURE_PANE_URL)
    } else if str_equals(pane, "accessibility") {
        Ok(ACCESSIBILITY_PANE_URL)
    } else if str_equals(pane, "microphone") {
        Ok(MICROPHONE_PANE_URL)
    } else {
        Err(String::from_str("Unknown preferences pane: ").concat(pane))
    }
}

} // verus!
