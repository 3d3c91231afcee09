//! Callback scripts: a guarded call of `window[name]` with a JSON argument.
use vstd::prelude::*;
use crate::json::{json_text, to_json_text};

verus! {

/// The text that invokes the callback `name` with the argument text `arg`:
/// `window["name"](arg)`.
pub open spec fn invocation(name: Seq<char>, arg: Seq<char>) -> Seq<char> {
    "window[\""@ + name + "\"]("@ + arg + ")"@
}

/// The script that calls `window[name]` with `arg` when that function exists,
/// and otherwise logs a warning that names the callback.
pub open spec fn callback_script(name: Seq<char>, arg: Seq<char>) -> Seq<char> {
    "\n      if (window[\""@ + name + "\"]) {\n        "@ + invocation(name, arg)
        + "\n      } else {\n        console.warn(\"[TAURI] Couldn't find callback id "@
        + name
        + " in window. This happens when the app is reloaded while Rust is running an asynchronous operation.\")\n      }\n    "@
}

/// Builds the callback script for `function_name` around an argument that is
/// already JSON text. The name is inserted as it is, without escaping.
pub fn format_callback_json(function_name: &str, arg_json: &str) -> (r: String)
    ensures
        r@ == callback_script(function_name@, arg_json@),
{
    let mut s = String::from_str("\n      if (window[\"");
    s.append(function_name);
    s.append("\"]) {\n        ");
    s.append("window[\"");
    s.append(function_name);
    s.append("\"](");
    s.append(arg_json);
    s.append(")");
    s.append("\n      } else {\n        console.warn(\"[TAURI] Couldn't find callback id ");
    s.append(function_name);
    s.append(" in window. This happens when the app is reloaded while Rust is running an asynchronous operation.\")\n      }\n    ");
    s
}

/// Builds the callback script for `function_name` with `arg` as its sole
/// argument, written as compact JSON text.
pub fn format_callback(function_name: &str, arg: serde_json::Value) -> (r: String)
    ensures
        r@ == callback_script(function_name@, json_text(arg)),
{
    let arg_json = to_json_text(&arg);
    format_callback_json(function_name, arg_json.as_str())
}

/// The script for an outcome: the success callback with the `Ok` payload, or
/// the error callback with the `Err` payload.
pub open spec fn result_script(
    result: Result<serde_json::Value, serde_json::Value>,
    success_callback: Seq<char>,
    error_callback: Seq<char>,
) -> Seq<char> {
    match result {
        Ok(v) => callback_script(success_callback, json_text(v)),
        Err(e) => callback_script(error_callback, json_text(e)),
    }
}

/// Builds the script that settles an outcome whose payloads are already
/// JSON values: `Ok` goes to `success_callback`, `Err` to `error_callback`.
pub fn format_callback_result(
    result: Result<serde_json::Value, serde_json::Value>,
    success_callback: String,
    error_callback: String,
) -> (r: String)
    ensures
        r@ == result_script(result, success_callback@, error_callback@),
{
    match result {
        Ok(v) => format_callback(success_callback.as_str(), v),
        Err(e) => format_callback(error_callback.as_str(), e),
    }
}

/// `part` occurs in `text` as a contiguous run of characters.
pub open spec fn contains(text: Seq<char>, part: Seq<char>) -> bool {
    exists|i: int|
        0 <= i && i + part.len() <= text.len() && #[trigger] text.subrange(i, i + part.len()) == part
}

/// `name` holds no double quote, so it cannot close the bracketed string
/// that names the callback.
pub open spec fn quote_free(name: Seq<char>) -> bool {
    forall|i: int| 0 <= i < name.len() ==> name[i] != '"'
}

/// `script` is the guarded call of `window[name]`, with some argument.
pub open spec fn invokes(script: Seq<char>, name: Seq<char>) -> bool {
    exists|arg: Seq<char>| script == #[trigger] callback_script(name, arg)
}

/// The script for `name` and `arg` holds `window["name"](arg)`.
pub proof fn lemma_script_contains_invocation(name: Seq<char>, arg: Seq<char>)
    ensures
        contains(callback_script(name, arg), invocation(name, arg)),
{
    let head = "\n      if (window[\""@ + name + "\"]) {\n        "@;
    let inv = invocation(name, arg);
    let tail = "\n      } else {\n        console.warn(\"[TAURI] Couldn't find callback id "@
        + name
        + " in window. This happens when the app is reloaded while Rust is running an asynchronous operation.\")\n      }\n    "@;
    let script = callback_script(name, arg);
    assert(script =~= head + inv + tail);
    assert(script.subrange(head.len() as int, head.len() + inv.len() as int) =~= inv);
}

/// What `format_callback(f, a)` returns holds `window["f"](t)`, where `t` is
/// the JSON text of `a`.
pub proof fn lemma_format_callback_invokes(function_name: Seq<char>, arg: serde_json::Value)
    ensures
        contains(
            callback_script(function_name, json_text(arg)),
            invocation(function_name, json_text(arg)),
        ),
{
    lemma_script_contains_invocation(function_name, json_text(arg));
}

/// The script for an outcome invokes the callback that matches the outcome,
/// with that branch's payload as JSON text.
pub proof fn lemma_result_invokes_selected(
    result: Result<serde_json::Value, serde_json::Value>,
    success_callback: Seq<char>,
    error_callback: Seq<char>,
)
    ensures
        match result {
            Ok(v) => contains(
                result_script(result, success_callback, error_callback),
                invocation(success_callback, json_text(v)),
            ),
            Err(e) => contains(
                result_script(result, success_callback, error_callback),
                invocation(error_callback, json_text(e)),
            ),
        },
{
    match result {
        Ok(v) => lemma_script_contains_invocation(success_callback, json_text(v)),
        Err(e) => lemma_script_contains_invocation(error_callback, json_text(e)),
    }
}

/// The script opens with a fixed text, then the name, then a double quote.
proof fn lemma_script_name_position(name: Seq<char>, arg: Seq<char>)
    ensures
        "\n      if (window[\""@.len() + name.len() < callback_script(name, arg).len(),
        forall|k: int|
            0 <= k < name.len() ==> #[trigger] callback_script(name, arg)["\n      if (window[\""@.len() + k]
                == name[k],
        callback_script(name, arg)["\n      if (window[\""@.len() + name.len() as int] == '"',
{
    reveal_strlit("\"]) {\n        ");
    let open = "\n      if (window[\""@;
    let rest = "\"]) {\n        "@ + invocation(name, arg)
        + "\n      } else {\n        console.warn(\"[TAURI] Couldn't find callback id "@
        + name
        + " in window. This happens when the app is reloaded while Rust is running an asynchronous operation.\")\n      }\n    "@;
    assert(callback_script(name, arg) =~= open + name + rest);
    assert(rest[0] == '"');
}

/// Two different quote-free names never give the same script, whatever the
/// arguments.
pub proof fn lemma_script_determines_name(
    name1: Seq<char>,
    arg1: Seq<char>,
    name2: Seq<char>,
    arg2: Seq<char>,
)
    requires
        quote_free(name1),
        quote_free(name2),
        name1 != name2,
    ensures
        callback_script(name1, arg1) != callback_script(name2, arg2),
{
    let n: int = "\n      if (window[\""@.len() as int;
    let s1 = callback_script(name1, arg1);
    let s2 = callback_script(name2, arg2);
    lemma_script_name_position(name1, arg1);
    lemma_script_name_position(name2, arg2);
    if name1.len() == name2.len() {
        assert(!(name1 =~= name2));
        let k = choose|k: int| 0 <= k < name1.len() && name1[k] != name2[k];
        assert(s1[n + k] != s2[n + k]);
    } else if name1.len() < name2.len() {
        assert(s1[n + name1.len() as int] != s2[n + name1.len() as int]);
    } else {
        assert(s1[n + name2.len() as int] != s2[n + name2.len() as int]);
    }
}

/// With two different quote-free names, the script for an outcome is never a
/// call of the callback that the outcome did not select.
pub proof fn lemma_result_skips_other(
    result: Result<serde_json::Value, serde_json::Value>,
    success_callback: Seq<char>,
    error_callback: Seq<char>,
)
    requires
        quote_free(success_callback),
        quote_free(error_callback),
        success_callback != error_callback,
    ensures
        result is Ok ==> !invokes(
            result_script(result, success_callback, error_callback),
            error_callback,
        ),
        result is Err ==> !invokes(
            result_script(result, success_callback, error_callback),
            success_callback,
        ),
{
    let script = result_script(result, success_callback, error_callback);
    match result {
        Ok(v) => {
            assert forall|arg: Seq<char>| script != #[trigger] callback_script(error_callback, arg) by {
                lemma_script_determines_name(success_callback, json_text(v), error_callback, arg);
            }
        },
        Err(e) => {
            assert forall|arg: Seq<char>| script != #[trigger] callback_script(success_callback, arg) by {
                lemma_script_determines_name(error_callback, json_text(e), success_callback, arg);
            }
        },
    }
}

/// Formatting the same name and value twice gives the same text: the script
/// depends on its inputs alone.
pub proof fn lemma_format_callback_deterministic(
    function_name: Seq<char>,
    arg: serde_json::Value,
    first: Seq<char>,
    second: Seq<char>,
)
    requires
        first == callback_script(function_name, json_text(arg)),
        second == callback_script(function_name, json_text(arg)),
    ensures
        first == second,
{
}

/// Formatting the same outcome and names twice gives the same text.
pub proof fn lemma_format_callback_result_deterministic(
    result: Result<serde_json::Value, serde_json::Value>,
    success_callback: Seq<char>,
    error_callback: Seq<char>,
    first: Seq<char>,
    second: Seq<char>,
)
    requires
        first == result_script(result, success_callback, error_callback),
        second == result_script(result, success_callback, error_callback),
    ensures
        first == second,
{
}

} // verus!
