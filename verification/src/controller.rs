//! The desktop controller: the foreground-owned half of the bridge.
//!
//! The controller holds the registry of live windows, the readiness flag,
//! the quit-on-last-close policy, and the sending end of the message channel
//! into the engine worker. The foreground event loop drives it: surface
//! remote calls are routed through `handle_rpc`, destroyed windows through
//! `close_window`, and every wake signal or idle tick through
//! `try_load_ready_webviews`, which drains the edit queue once the flag
//! reads ready.

use vstd::prelude::*;
use vstd::string::StringExecFns;
use crate::channel::send_message;
use crate::readiness::ReadinessFlag;
use crate::message::{BridgeError, ScheduledMessage, json_decodes, decode_user_event};
use crate::queue::{EditQueue, appended_in_order, lemma_fifo_order};
use crate::registry::WindowRegistry;
use futures_channel::mpsc::UnboundedSender;

verus! {

/// The foreground state of the bridge: every native window and surface, the
/// readiness flag, and the write end of the message channel.
pub struct DesktopController {
    /// The windows that are currently open, by native identity.
    pub webviews: WindowRegistry,
    /// The sending end of the message channel into the engine worker.
    pub sender: UnboundedSender<ScheduledMessage>,
    /// Whether closing the last window leaves the event loop.
    pub quit_app_on_close: bool,
    /// Whether the primary surface has finished bootstrapping.
    pub is_ready: ReadinessFlag,
}

/// What handling one surface remote call amounted to.
#[derive(Clone, Copy, Debug, PartialEq, Eq, Structural)]
pub enum RpcOutcome {
    /// The payload decoded and the message went to the engine worker.
    EventForwarded,
    /// The event was not delivered: either its payload was malformed and it
    /// was dropped, or the channel's receiving end is gone.
    EventRejected(BridgeError),
    /// The surface signalled that its bootstrap is complete; the readiness
    /// flag is now set.
    BootstrapComplete,
    /// A method the bridge does not know; ignored.
    Unhandled,
}

/// Relies on str's PartialEq: two string slices compare equal exactly when
/// they hold the same characters.
#[verifier::external_body]
pub(crate) fn str_eq(a: &str, b: &str) -> (r: bool)
    ensures
        r == (a@ == b@),
{
    a == b
}

impl DesktopController {
    /// A fresh controller: no window open, the flag not ready, and the
    /// quit-on-last-close policy enabled.
    pub fn new(sender: UnboundedSender<ScheduledMessage>) -> (c: DesktopController)
        ensures
            c.webviews@ == Set::<u64>::empty(),
            c.webviews@.finite(),
            !c.is_ready.ready(),
            c.quit_app_on_close,
    {
        DesktopController {
            webviews: WindowRegistry::new(),
            sender,
            quit_app_on_close: true,
            is_ready: ReadinessFlag::new(),
        }
    }

    /// Register a freshly constructed native window and its surface.
    pub fn register_window(&mut self, window_id: u64)
        ensures
            final(self).webviews@ == old(self).webviews@.insert(window_id),
            final(self).webviews@.finite(),
            final(self).sender == old(self).sender,
            final(self).quit_app_on_close == old(self).quit_app_on_close,
            final(self).is_ready == old(self).is_ready,
    {
        self.webviews.insert(window_id);
    }

    /// Remove a destroyed window from the registry. Exactly that entry
    /// disappears; a window that was already removed is a no-op. Returns
    /// whether the event loop must exit: true exactly when the registry
    /// became empty and the quit-on-last-close policy is enabled.
    pub fn close_window(&mut self, window_id: u64) -> (exit: bool)
        ensures
            final(self).webviews@ == old(self).webviews@.remove(window_id),
            final(self).webviews@.finite(),
            exit == (final(self).webviews@.len() == 0 && old(self).quit_app_on_close),
            final(self).sender == old(self).sender,
            final(self).quit_app_on_close == old(self).quit_app_on_close,
            final(self).is_ready == old(self).is_ready,
    {
        let _ = self.webviews.remove(window_id);
        self.webviews.is_empty() && self.quit_app_on_close
    }

    /// Handle one surface remote call. A bootstrap-complete call sets the
    /// readiness flag, monotonically; a user event is decoded and, when
    /// well-formed, forwarded over the message channel; a malformed payload
    /// is dropped with a decode failure, touching neither the flag nor the
    /// registry, so later events flow as if it had never arrived; anything
    /// else is ignored.
    pub fn handle_rpc(&mut self, method: &str, params: Option<&str>) -> (r: RpcOutcome)
        ensures
            final(self).webviews == old(self).webviews,
            final(self).sender == old(self).sender,
            final(self).quit_app_on_close == old(self).quit_app_on_close,
            final(self).is_ready.ready() == (old(self).is_ready.ready() || method@
                == "initialize"@),
            method@ == "initialize"@ ==> r == RpcOutcome::BootstrapComplete,
            method@ == "user_event"@ && params is None ==> r == RpcOutcome::EventRejected(
                BridgeError::DecodeFailure,
            ),
            method@ == "user_event"@ && (params matches Some(p) && !json_decodes(p@)) ==> r
                == RpcOutcome::EventRejected(BridgeError::DecodeFailure),
            method@ == "user_event"@ && (params matches Some(p) && json_decodes(p@)) ==> (r
                == RpcOutcome::EventForwarded || r == RpcOutcome::EventRejected(
                BridgeError::ChannelClosed,
            )),
            method@ != "initialize"@ && method@ != "user_event"@ ==> r == RpcOutcome::Unhandled,
    {
        proof {
            reveal_strlit("user_event");
            reveal_strlit("initialize");
            assert("user_event"@[0] == 'u' && "initialize"@[0] == 'i');
            assert("user_event"@ != "initialize"@);
        }
        if str_eq(method, "user_event") {
            match params {
                Some(p) => match decode_user_event(p) {
                    Ok(msg) => match send_message(&self.sender, msg) {
                        Ok(_) => RpcOutcome::EventForwarded,
                        Err(e) => RpcOutcome::EventRejected(e),
                    },
                    Err(e) => RpcOutcome::EventRejected(e),
                },
                None => RpcOutcome::EventRejected(BridgeError::DecodeFailure),
            }
        } else if str_eq(method, "initialize") {
            self.is_ready.set_ready();
            RpcOutcome::BootstrapComplete
        } else {
            RpcOutcome::Unhandled
        }
    }

    /// Window-construction failure policy: the failure is fatal to the
    /// whole process only when no window exists at all — then loop setup
    /// never managed to open one; otherwise it is fatal only to that
    /// window-open request, and the loop goes on.
    pub fn classify_construction_failure(&self) -> (r: (BridgeError, bool))
        ensures
            r.0 == BridgeError::WindowConstructionFailure,
            r.1 == (self.webviews@.len() == 0),
    {
        (BridgeError::WindowConstructionFailure, self.webviews.is_empty())
    }

    /// Attempt one application tick: if the readiness flag is set and a
    /// surface exists, drain the whole edit queue and return the batches,
    /// in append order, together with the window they go to. While the flag
    /// is not ready — or no window is open to receive patches — nothing is
    /// applied and nothing is lost: the backlog stays queued, intact.
    pub fn try_load_ready_webviews(&self, pending: &mut EditQueue) -> (work: Option<
        (u64, Vec<String>),
    >)
        ensures
            (work is Some) == (self.is_ready.ready() && self.webviews@.len() != 0),
            work matches Some(p) ==> {
                &&& self.webviews@.contains(p.0)
                &&& p.1@ == old(pending)@
                &&& p.1@ == tick_applied(
                    self.is_ready.ready(),
                    self.webviews@.len() != 0,
                    old(pending)@,
                )
            },
            final(pending)@ == tick_remaining(
                self.is_ready.ready(),
                self.webviews@.len() != 0,
                old(pending)@,
            ),
    {
        if self.is_ready.is_ready() {
            match self.webviews.first() {
                Some(w) => {
                    let batches = pending.drain_all();
                    proof {
                        assert(pending@ =~= Seq::<String>::empty());
                    }
                    Some((w, batches))
                },
                None => None,
            }
        } else {
            None
        }
    }
}

/// Patch-application failure policy: the batch a surface rejected, and every
/// drained batch after it, go back to the queue's old end in their original
/// order, ahead of anything the worker queued meanwhile — a transient
/// failure must not cost the later mutations, which are attempted again on
/// the next tick. Returns the failure to report.
pub fn requeue_unapplied(pending: &mut EditQueue, batches: Vec<String>, failed: usize) -> (r:
    BridgeError)
    requires
        failed < batches@.len(),
    ensures
        final(pending)@ == batches@.subrange(failed as int, batches@.len() as int) + old(
            pending,
        )@,
        r == BridgeError::PatchApplicationFailure,
{
    let mut batches = batches;
    let rest = batches.split_off(failed);
    pending.restore_front(rest);
    BridgeError::PatchApplicationFailure
}

/// The script a surface executes to apply one encoded mutation batch: the
/// batch handed, verbatim, to the surface-side edit interpreter.
pub fn handle_edits_script(edit: &str) -> (script: String)
    ensures
        script@ == "window.interpreter.handleEdits("@ + edit@ + ")"@,
{
    let mut script = String::from_str("window.interpreter.handleEdits(");
    script.append(edit);
    script.append(")");
    script
}

/// What one application tick applies, and what it leaves queued. A tick
/// applies the whole queue when the flag is ready and a surface exists, and
/// nothing otherwise; what it does not apply, it keeps.
pub open spec fn tick_applied(ready: bool, has_surface: bool, queue: Seq<String>) -> Seq<String> {
    if ready && has_surface {
        queue
    } else {
        Seq::empty()
    }
}

/// The queue contents remaining after one application tick.
pub open spec fn tick_remaining(ready: bool, has_surface: bool, queue: Seq<String>) -> Seq<
    String,
> {
    if ready && has_surface {
        Seq::empty()
    } else {
        queue
    }
}

/// Readiness law: a tick taken before the flag is ready applies no
/// batch and loses none; batches appended meanwhile accumulate behind the
/// earlier backlog; and the first tick taken once the flag is ready (with a
/// surface present) applies exactly the accumulated backlog, in original
/// append order, leaving the queue empty.
pub proof fn lemma_readiness_holdback(q0: Seq<String>, batches: Seq<String>, has_surface: bool)
    ensures
        tick_applied(false, has_surface, q0).len() == 0,
        tick_remaining(false, has_surface, q0) == q0,
        tick_applied(true, true, appended_in_order(tick_remaining(false, has_surface, q0), batches))
            == q0 + batches,
        tick_remaining(
            true,
            true,
            appended_in_order(tick_remaining(false, has_surface, q0), batches),
        ).len() == 0,
{
    lemma_fifo_order(q0, batches);
}

} // verus!
