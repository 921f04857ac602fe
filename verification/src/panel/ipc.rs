use vstd::prelude::*;

verus! {

/// Commands sent from the panel JS → Rust via `window.ipc.postMessage(JSON)`.
#[derive(Debug, Clone, Copy, PartialEq, Eq, Structural)]
pub enum PanelCmd {
    StartRecording { index: u8 },
    StartTest,
    StopTest,
    ReplayTest,
    ReplayTestRaw,
    StopPlayback,
    ConfirmEnrollment,
    Reenroll,
    OpenBlackholeLink,
    // Phase 8: filter and noise suppression toggles
    ToggleFilter,
    SetNoiseSuppression { enabled: bool },
    // Driver setup: background driver installation
    InstallDriver,
    // Reset flow: full reset (wipe config + driver)
    FullReset,
    // Driver setup: open system sound settings
    OpenSystemSound,
}

/// A JSON encoding failed.
#[derive(Debug, PartialEq, Eq, Structural)]
pub struct IpcError;

/// The lowercase hexadecimal digit of `d` (below 16).
pub open spec fn hex_digit(d: int) -> char {
    if d < 10 {
        (48 + d) as char
    } else {
        (87 + d) as char
    }
}

/// How serde_json writes one character inside a JSON string: `"` and `\`
/// behind a backslash, the control characters backspace, tab, line feed,
/// form feed and carriage return as `\b`, `\t`, `\n`, `\f`, `\r`, the other
/// characters below U+0020 as `\u00` and two lowercase hex digits, and every
/// other character as it is.
pub open spec fn json_escape(c: char) -> Seq<char> {
    let n = c as int;
    if c == '"' {
        seq!['\\', '"']
    } else if c == '\\' {
        seq!['\\', '\\']
    } else if n == 8 {
        seq!['\\', 'b']
    } else if n == 9 {
        seq!['\\', 't']
    } else if n == 10 {
        seq!['\\', 'n']
    } else if n == 12 {
        seq!['\\', 'f']
    } else if n == 13 {
        seq!['\\', 'r']
    } else if n < 32 {
        seq!['\\', 'u', '0', '0', hex_digit(n / 16), hex_digit(n % 16)]
    } else {
        seq![c]
    }
}

/// The JSON string literal of `s`, as `serde_json::to_string` writes it:
/// each character escaped, between double quotes.
pub open spec fn json_string_literal(s: Seq<char>) -> Seq<char> {
    seq!['"'] + s.map_values(|c: char| json_escape(c)).flatten() + seq!['"']
}

/// Calls `serde_json::to_string` on a string: its JSON string literal, with
/// the escapes of `format_escaped_str` and its escape table. The
/// crate documents that serialising fails only where the value's `Serialize`
/// implementation decides to fail or the value holds a map with non-string
/// keys; a string's implementation writes the escaped string into a `Vec<u8>`,
/// whose writes do not fail. So the call succeeds, with the literal of `s`.
#[verifier::external_body]
fn json_quote(s: &str) -> (r: Result<String, IpcError>)
    ensures
        r is Ok,
        r matches Ok(q) ==> q@ == json_string_literal(s@),
{
    match serde_json::to_string(s) {
        Ok(q) => Ok(q),
        Err(_) => Err(IpcError),
    }
}

/// The script that hands an event's JSON `payload` to the panel:
/// `window.__voce_update(<json-string-literal>)`.
pub open spec fn js_update_script(payload: Seq<char>) -> Seq<char> {
    "window.__voce_update("@ + json_string_literal(payload) + ")"@
}

/// Produce the JS `evaluate_script` call string for an event already
/// serialised to `payload`. That JSON string is itself JSON-encoded to produce
/// a valid JS string literal argument, which handles all Unicode escapes
/// (including U+2028/U+2029) correctly. Quoting a string does not fail, so
/// the call is always made.
pub fn js_update_call(payload: &str) -> (r: Result<String, IpcError>)
    ensures
        r matches Ok(s) && s@ == js_update_script(payload@),
{
    let quoted = json_quote(payload)?;
    let mut call = String::from_str("window.__voce_update(");
    call.append(quoted.as_str());
    call.append(")");
    Ok(call)
}

} // verus!
