//! Rendering of per-request audit log lines: one JSON object per line, with a
//! fixed field set, keys in the order a tree-backed JSON map emits them.

use vstd::prelude::*;
use crate::jsonfmt::{append_dec_i32, append_json_quoted, dec_str, json_quoted};

verus! {

/// The one line appended to the request log for a pipeline event: a JSON
/// object holding the timestamp, the request and external ids, the output
/// location, a numeric code (0 for progress, 1 for a stage failure) and a
/// message, keys alphabetically ordered.
pub open spec fn log_line(
    timestamp: Seq<char>,
    request_id: Seq<char>,
    external_id: Seq<char>,
    out_dir: Seq<char>,
    code: int,
    message: Seq<char>,
) -> Seq<char> {
    "{\"code\":"@ + dec_str(code) + ",\"external_id\":"@ + json_quoted(external_id)
        + ",\"message\":"@ + json_quoted(message) + ",\"out_dir\":"@ + json_quoted(out_dir)
        + ",\"request_id\":"@ + json_quoted(request_id) + ",\"timestamp\":"@ + json_quoted(
        timestamp,
    ) + "}"@
}

/// Renders the log line for one pipeline event. The caller appends it, with a
/// line break, to the workspace's request log; failures of that write are
/// best-effort and never abort the pipeline.
pub fn format_log_entry(
    timestamp: &str,
    request_id: &str,
    external_id: &str,
    out_dir: &str,
    code: i32,
    message: &str,
) -> (r: String)
    ensures
        r@ == log_line(timestamp@, request_id@, external_id@, out_dir@, code as int, message@),
{
    let mut out = String::new();
    out.append("{\"code\":");
    append_dec_i32(&mut out, code);
    out.append(",\"external_id\":");
    append_json_quoted(&mut out, external_id);
    out.append(",\"message\":");
    append_json_quoted(&mut out, message);
    out.append(",\"out_dir\":");
    append_json_quoted(&mut out, out_dir);
    out.append(",\"request_id\":");
    append_json_quoted(&mut out, request_id);
    out.append(",\"timestamp\":");
    append_json_quoted(&mut out, timestamp);
    out.append("}");
    proof {
        assert(out@ =~= log_line(
            timestamp@,
            request_id@,
            external_id@,
            out_dir@,
            code as int,
            message@,
        ));
    }
    out
}

} // verus!
