//! The script run in every docked plugin view before its own code: it
//! makes the view's chrome transparent with rounded bottom corners, turns
//! off the native context menu, and relays the lifecycle events to the
//! listeners registered by the view.
use crate::plugin_runtime::preload::{LIFECYCLE_ENTER_EVENT, LIFECYCLE_LEAVE_EVENT};
use crate::text::concat;
use vstd::prelude::*;

verus! {

/// The script up to the name of the enter event.
pub const VIEW_SCRIPT_HEAD: &'static str = r#"(function () {
  // Transparent webview chrome + bottom rounded corners.
  var cornerStyle = document.createElement('style');
  cornerStyle.textContent = 'html { height: 100vh!important; width: 100vw!important; overflow: hidden!important; background: transparent!important;} body { margin: 0!important; height: 100%!important; width: 100%!important; overflow: auto!important; background: transparent!important; border-radius: 0 0 20px 20px!important; }';
  document.addEventListener('DOMContentLoaded', function () {
    document.head.appendChild(cornerStyle);
  });

  // Disable native context menu.
  window.addEventListener('contextmenu', function (event) {
    event.preventDefault();
  });

  // Lifecycle listeners.
  Object.defineProperty(window, '__litoolsLifecycleListeners', {
    value: { enter: new Set(), leave: new Set() },
    writable: false, configurable: false, enumerable: false
  });

  function emitLifecycle(eventName) {
    var listeners = window.__litoolsLifecycleListeners[eventName];
    if (!listeners) return;
    Array.from(listeners).forEach(function (cb) { try { cb(); } catch (e) { console.error(e); } });
  }

  window.addEventListener('"#;

/// The script between the names of the enter and the leave events.
pub const VIEW_SCRIPT_MIDDLE: &'static str = r#"', function () { emitLifecycle('enter'); });
  window.addEventListener('"#;

/// The script after the name of the leave event.
pub const VIEW_SCRIPT_TAIL: &'static str = r#"', function () { emitLifecycle('leave'); });
})();"#;

/// The script docked plugin views run first, with the lifecycle event
/// names in their places.
pub fn initialization_script() -> (s: String)
    ensures
        s@ == VIEW_SCRIPT_HEAD@ + LIFECYCLE_ENTER_EVENT@ + VIEW_SCRIPT_MIDDLE@
            + LIFECYCLE_LEAVE_EVENT@ + VIEW_SCRIPT_TAIL@,
{
    let a = concat(VIEW_SCRIPT_HEAD, LIFECYCLE_ENTER_EVENT);
    let b = concat(a.as_str(), VIEW_SCRIPT_MIDDLE);
    let c = concat(b.as_str(), LIFECYCLE_LEAVE_EVENT);
    concat(c.as_str(), VIEW_SCRIPT_TAIL)
}

} // verus!
