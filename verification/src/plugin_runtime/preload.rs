//! The script run in every plugin view before its own code: it defines
//! `window.litools` (runtime, permissions, lifecycle, ui and storage calls
//! over the runtime bridge) and relays the lifecycle events to listeners.
use crate::text::concat;
use vstd::prelude::*;

verus! {

/// The event a view receives when focus enters it.
pub const LIFECYCLE_ENTER_EVENT: &'static str = "plugin-runtime://enter";

/// The event a view receives when focus leaves it.
pub const LIFECYCLE_LEAVE_EVENT: &'static str = "plugin-runtime://leave";

/// The script up to the name of the enter event.
pub const SCRIPT_HEAD: &'static str = r#"(function () {
  if (Object.prototype.hasOwnProperty.call(window, 'litools')) {
    return;
  }

  function invokeRuntime(method, params) {
    var internals = window.__TAURI_INTERNALS__;
    if (!internals || typeof internals.invoke !== 'function') {
      return Promise.reject(new Error('litools runtime bridge is unavailable'));
    }
    return internals.invoke('plugin_runtime_call', { method: method, params: params || {} });
  }

  function listenRuntimeEvent(eventName, callback) {
    if (typeof callback !== 'function') {
      throw new TypeError('callback must be a function');
    }
    window.__litoolsLifecycleListeners[eventName].add(callback);
    return function unsubscribe() {
      window.__litoolsLifecycleListeners[eventName].delete(callback);
    };
  }

  Object.defineProperty(window, '__litoolsLifecycleListeners', {
    value: {
      enter: new Set(),
      leave: new Set()
    },
    writable: false,
    configurable: false,
    enumerable: false
  });

  function emitLifecycle(eventName) {
    var listeners = window.__litoolsLifecycleListeners[eventName];
    if (!listeners) {
      return;
    }
    Array.from(listeners).forEach(function (listener) {
      try {
        listener();
      } catch (error) {
        console.error(error);
      }
    });
  }

  window.addEventListener('"#;

/// The script between the names of the enter and the leave events.
pub const SCRIPT_MIDDLE: &'static str = r#"', function () { emitLifecycle('enter'); });
  window.addEventListener('"#;

/// The script after the name of the leave event.
pub const SCRIPT_TAIL: &'static str = r#"', function () { emitLifecycle('leave'); });

  var runtime = Object.freeze({
    ready: function () { return invokeRuntime('runtime.ready'); },
    getInfo: function () { return invokeRuntime('runtime.getInfo'); }
  });
  var permissions = Object.freeze({
    query: function (permission) { return invokeRuntime('permissions.query', { permission: permission }); }
  });
  var lifecycle = Object.freeze({
    onEnter: function (callback) { return listenRuntimeEvent('enter', callback); },
    onLeave: function (callback) { return listenRuntimeEvent('leave', callback); }
  });
  var ui = Object.freeze({
    close: function () { return invokeRuntime('ui.close'); },
    setTitle: function (title) { return invokeRuntime('ui.setTitle', { title: title }); },
    toast: function (message, options) { return invokeRuntime('ui.toast', { message: message, options: options || null }); }
  });
  var storage = Object.freeze({
    get: function (key) { return invokeRuntime('storage.get', { key: key }); },
    set: function (key, value) { return invokeRuntime('storage.set', { key: key, value: value }); },
    remove: function (key) { return invokeRuntime('storage.remove', { key: key }); },
    clear: function () { return invokeRuntime('storage.clear'); }
  });

  var litools = Object.freeze({
    runtime: runtime,
    permissions: permissions,
    lifecycle: lifecycle,
    ui: ui,
    storage: storage
  });

  Object.defineProperty(window, 'litools', {
    value: litools,
    writable: false,
    configurable: false,
    enumerable: true
  });
})();"#;

/// The script plugin views run first, with the lifecycle event names in
/// their places.
pub fn initialization_script() -> (s: String)
    ensures
        s@ == SCRIPT_HEAD@ + LIFECYCLE_ENTER_EVENT@ + SCRIPT_MIDDLE@ + LIFECYCLE_LEAVE_EVENT@
            + SCRIPT_TAIL@,
{
    let a = concat(SCRIPT_HEAD, LIFECYCLE_ENTER_EVENT);
    let b = concat(a.as_str(), SCRIPT_MIDDLE);
    let c = concat(b.as_str(), LIFECYCLE_LEAVE_EVENT);
    concat(c.as_str(), SCRIPT_TAIL)
}

/// Hexadecimal digit, lower case.
pub open spec fn hex_digit_char(d: u32) -> char {
    if d < 10 {
        ((d + 0x30) as u32) as char
    } else {
        ((d - 10 + 0x61) as u32) as char
    }
}

/// How a JSON string writes one character: `"` and `\` and the control
/// characters are escaped (`\b \t \n \f \r` where there is a short form,
/// `\u00XX` otherwise); every other character stands for itself.
pub open spec fn json_escape_char(c: char) -> Seq<char> {
    let u = c as u32;
    if c == '"' {
        seq!['\\', '"']
    } else if c == '\\' {
        seq!['\\', '\\']
    } else if u == 0x08 {
        seq!['\\', 'b']
    } else if u == 0x09 {
        seq!['\\', 't']
    } else if u == 0x0a {
        seq!['\\', 'n']
    } else if u == 0x0c {
        seq!['\\', 'f']
    } else if u == 0x0d {
        seq!['\\', 'r']
    } else if u < 0x20 {
        seq!['\\', 'u', '0', '0', hex_digit_char(u / 16), hex_digit_char(u % 16)]
    } else {
        seq![c]
    }
}

/// The characters of a JSON string body.
pub open spec fn json_escaped(s: Seq<char>) -> Seq<char>
    decreases s.len(),
{
    if s.len() == 0 {
        Seq::empty()
    } else {
        json_escaped(s.drop_last()) + json_escape_char(s.last())
    }
}

/// A string written as a JSON string literal.
pub open spec fn json_string_literal(s: Seq<char>) -> Seq<char> {
    seq!['"'] + json_escaped(s) + seq!['"']
}

/// `serde_json::to_string` on a string: its source writes the string
/// between double quotes, escaping as `json_escape_char` says. Writing into
/// memory cannot fail.
#[verifier::external_body]
fn json_string(s: &str) -> (r: String)
    ensures
        r@ == json_string_literal(s@),
{
    serde_json::to_string(s).unwrap_or_default()
}

/// The script that raises the lifecycle event `event_name` in a view.
pub fn lifecycle_eval_script(event_name: &str) -> (s: String)
    ensures
        s@ == "window.dispatchEvent(new CustomEvent("@ + json_string_literal(event_name@)
            + "));"@,
{
    let quoted = json_string(event_name);
    let a = concat("window.dispatchEvent(new CustomEvent(", quoted.as_str());
    concat(a.as_str(), "));")
}

} // verus!
