//! The instance controller: process-wide state of "is the UI created yet"
//! and "which command handler is armed", and the routing of every
//! externally requested command to the one long-lived instance.
//!
//! The detach/re-arm pairing is the core correctness device: the armed
//! handler is detached before a command is dispatched and a fresh one armed
//! after, so at most one handler is ever armed and a command is fully
//! processed before the next one can be accepted.

use vstd::prelude::*;
use crate::action::ActionTypes;
use crate::strings::str_eq;

verus! {

/// Why an invocation's contribution was rejected. A rejected invocation
/// leaves the running instance's state unchanged.
#[derive(Debug, PartialEq, Eq, Structural, Clone, Copy)]
pub enum RoutingError {
    /// A command arrived before the UI existed. Launching the instance and
    /// acting on it in one invocation is unsupported: the launching
    /// invocation must be the one with no action argument.
    NotReady,
    /// More than one action was requested in one invocation, or the action
    /// token was not recognized.
    MalformedInput,
    /// A well-formed delivery whose payload did not decode to a known
    /// command.
    ParseFailure,
}

/// The popup window as the controller sees it: the UI surface with its
/// idempotent `show`, `hide` and `toggle`. Widgets, placement and rendering
/// belong to the toolkit outside this crate; the rows a show cycle displays
/// are built by the resolution pipeline.
#[derive(Debug, PartialEq, Eq, Structural, Clone, Copy)]
pub struct ScratchpadWindow {
    pub visible: bool,
}

impl ScratchpadWindow {
    /// A fresh window starts hidden.
    pub fn new() -> (w: ScratchpadWindow)
        ensures
            !w.visible,
    {
        ScratchpadWindow { visible: false }
    }

    /// Shows the window.
    pub fn show(&mut self)
        ensures
            final(self).visible,
    {
        self.visible = true;
    }

    /// Hides the window.
    pub fn hide_window(&mut self)
        ensures
            !final(self).visible,
    {
        self.visible = false;
    }

    /// Toggles the window: a hide when visible, a show when hidden.
    pub fn toggle(&mut self)
        ensures
            final(self).visible == !old(self).visible,
    {
        if self.is_visible() {
            self.hide_window()
        } else {
            self.show()
        }
    }

    /// Whether the window is currently shown.
    pub fn is_visible(&self) -> (r: bool)
        ensures
            r == self.visible,
    {
        self.visible
    }
}

/// The process-wide singleton state. `started` transitions false to true
/// exactly once, when the UI is first realized. `current_handler` names the
/// currently armed command handler; it is replaced, never composed, and
/// nothing is armed while a command is being processed.
#[derive(Debug, PartialEq, Eq, Structural, Clone, Copy)]
pub struct InstanceController {
    /// Whether the UI has been realized.
    pub started: bool,
    /// The token of the currently armed handler, where one is armed.
    pub current_handler: Option<u64>,
    /// The next handler token to hand out.
    pub next_token: u64,
    /// The UI surface commands are dispatched to.
    pub window: ScratchpadWindow,
}

impl InstanceController {
    /// Armed handler tokens stay below the next token to hand out, so a
    /// re-armed handler is always fresh.
    pub open spec fn wf(self) -> bool {
        self.current_handler matches Some(h) ==> h < self.next_token
    }

    /// Ready: the UI exists and a handler is armed, so commands can be
    /// accepted.
    pub open spec fn is_ready(self) -> bool {
        self.started && self.current_handler is Some
    }

    /// A fresh controller: uninitialized, with no UI and nothing armed.
    pub fn new() -> (c: InstanceController)
        ensures
            !c.started,
            c.current_handler is None,
            c.next_token == 0,
            !c.window.visible,
            c.wf(),
    {
        InstanceController {
            started: false,
            current_handler: None,
            next_token: 0,
            window: ScratchpadWindow::new(),
        }
    }

    /// Arms the first command handler, as registering the command channel
    /// does at startup.
    pub fn arm(&mut self)
        requires
            old(self).next_token < u64::MAX,
        ensures
            final(self).current_handler == Some(old(self).next_token),
            final(self).next_token == old(self).next_token + 1,
            final(self).started == old(self).started,
            final(self).window == old(self).window,
            final(self).wf(),
    {
        self.current_handler = Some(self.next_token);
        self.next_token = self.next_token + 1;
    }

    /// The first activation of any kind realizes the UI, hidden; activating
    /// an already-started instance changes nothing.
    pub fn activate(&mut self)
        ensures
            final(self).started,
            old(self).started ==> *final(self) == *old(self),
            !old(self).started ==> *final(self) == (InstanceController {
                started: true,
                window: ScratchpadWindow { visible: false },
                ..*old(self)
            }),
            old(self).wf() ==> final(self).wf(),
    {
        if !self.started {
            self.started = true;
            self.window = ScratchpadWindow::new();
        }
    }

    /// One command delivery. Before `Ready` the command is rejected and
    /// nothing changes. In `Ready` the armed handler is detached, the
    /// command dispatched — `Show`, `Hide` and `Toggle` to the window, the
    /// invalid sentinel to a parse failure with no UI action — and a fresh
    /// handler armed for the next command.
    pub open spec fn spec_step(s: InstanceController, cmd: ActionTypes) -> (
        InstanceController,
        Result<(), RoutingError>,
    ) {
        if !s.is_ready() {
            (s, Err(RoutingError::NotReady))
        } else {
            let rearmed = InstanceController {
                current_handler: Some(s.next_token),
                next_token: (s.next_token + 1) as u64,
                ..s
            };
            match cmd {
                ActionTypes::Invalid => (rearmed, Err(RoutingError::ParseFailure)),
                ActionTypes::Show => (
                    InstanceController { window: ScratchpadWindow { visible: true }, ..rearmed },
                    Ok(()),
                ),
                ActionTypes::Hide => (
                    InstanceController { window: ScratchpadWindow { visible: false }, ..rearmed },
                    Ok(()),
                ),
                ActionTypes::Toggle => (
                    InstanceController {
                        window: ScratchpadWindow { visible: !s.window.visible },
                        ..rearmed
                    },
                    Ok(()),
                ),
            }
        }
    }

    /// Routes one command to the UI: exactly the step `spec_step`
    /// describes happens.
    pub fn submit(&mut self, cmd: ActionTypes) -> (r: Result<(), RoutingError>)
        requires
            old(self).next_token < u64::MAX,
        ensures
            (*final(self), r) == Self::spec_step(*old(self), cmd),
            old(self).wf() ==> final(self).wf(),
            old(self).wf() && old(self).is_ready() ==> final(self).current_handler != old(
                self,
            ).current_handler,
    {
        if !self.started || self.current_handler.is_none() {
            return Err(RoutingError::NotReady);
        }
        // Detach the armed handler: nothing is armed while the command is
        // being processed, so processing cannot re-enter.
        self.current_handler = None;
        let r: Result<(), RoutingError> = match cmd {
            ActionTypes::Invalid => Err(RoutingError::ParseFailure),
            ActionTypes::Show => {
                self.window.show();
                Ok(())
            },
            ActionTypes::Hide => {
                self.window.hide_window();
                Ok(())
            },
            ActionTypes::Toggle => {
                self.window.toggle();
                Ok(())
            },
        };
        // Re-arm a fresh handler for the next command.
        self.current_handler = Some(self.next_token);
        self.next_token = self.next_token + 1;
        r
    }

    /// Decodes a wire payload and routes it: what the command channel's
    /// activation callback does for each delivery.
    pub fn deliver(&mut self, payload: &str) -> (r: Result<(), RoutingError>)
        requires
            old(self).next_token < u64::MAX,
        ensures
            (*final(self), r) == Self::spec_step(*old(self), ActionTypes::spec_parse(payload@)),
            old(self).wf() ==> final(self).wf(),
    {
        let cmd = ActionTypes::parse(payload);
        self.submit(cmd)
    }
}

/// What one process invocation's flag-style arguments mean. Zero arguments:
/// become (or confirm) the running instance, no command. Exactly one known
/// key: route that command. More than one argument, or an unrecognized key,
/// is malformed input.
pub open spec fn spec_local_options(args: Seq<String>) -> Result<
    Option<ActionTypes>,
    RoutingError,
> {
    if args.len() > 1 {
        Err(RoutingError::MalformedInput)
    } else if args.len() == 0 {
        Ok(None)
    } else if args[0]@ == "show"@ {
        Ok(Some(ActionTypes::Show))
    } else if args[0]@ == "hide"@ {
        Ok(Some(ActionTypes::Hide))
    } else if args[0]@ == "toggle"@ {
        Ok(Some(ActionTypes::Toggle))
    } else {
        Err(RoutingError::MalformedInput)
    }
}

/// Parses one invocation's arguments. This takes no instance state: a
/// malformed invocation terminates its own contribution and cannot touch
/// the running instance.
pub fn handle_local_options(args: &Vec<String>) -> (r: Result<Option<ActionTypes>, RoutingError>)
    ensures
        r == spec_local_options(args@),
{
    if args.len() > 1 {
        Err(RoutingError::MalformedInput)
    } else if args.len() == 0 {
        Ok(None)
    } else if str_eq(args[0].as_str(), "show") {
        Ok(Some(ActionTypes::Show))
    } else if str_eq(args[0].as_str(), "hide") {
        Ok(Some(ActionTypes::Hide))
    } else if str_eq(args[0].as_str(), "toggle") {
        Ok(Some(ActionTypes::Toggle))
    } else {
        Err(RoutingError::MalformedInput)
    }
}

/// While `Ready`, a well-formed single-action command succeeds, applies
/// exactly the requested one of show/hide/toggle, and re-arms a handler —
/// so a second immediate delivery of the same command also succeeds.
pub proof fn lemma_ready_command_applied(s: InstanceController, cmd: ActionTypes)
    requires
        s.is_ready(),
        cmd != ActionTypes::Invalid,
    ensures
        InstanceController::spec_step(s, cmd).1 == Ok::<(), RoutingError>(()),
        InstanceController::spec_step(s, cmd).0.is_ready(),
        cmd == ActionTypes::Show ==> InstanceController::spec_step(s, cmd).0.window.visible,
        cmd == ActionTypes::Hide ==> !InstanceController::spec_step(s, cmd).0.window.visible,
        cmd == ActionTypes::Toggle ==> InstanceController::spec_step(s, cmd).0.window.visible == !s.window.visible,
        InstanceController::spec_step(InstanceController::spec_step(s, cmd).0, cmd).1 == Ok::<
            (),
            RoutingError,
        >(()),
{
}

/// Two or more action arguments in one invocation are always malformed
/// input — and the argument parse takes no instance state, so the running
/// instance is untouched by such an invocation.
pub proof fn lemma_multi_arg_malformed(args: Seq<String>)
    requires
        args.len() > 1,
    ensures
        spec_local_options(args) == Err::<Option<ActionTypes>, RoutingError>(
            RoutingError::MalformedInput,
        ),
{
}

/// A command delivered before the UI is ready is rejected as `NotReady` and
/// mutates nothing, whatever the command was.
pub proof fn lemma_not_ready_rejected(s: InstanceController, cmd: ActionTypes)
    requires
        !s.is_ready(),
    ensures
        InstanceController::spec_step(s, cmd).1 == Err::<(), RoutingError>(RoutingError::NotReady),
        InstanceController::spec_step(s, cmd).0 == s,
{
}

/// Toggle is a pure function of current visibility: delivered while ready,
/// it is exactly a hide when the window is visible and exactly a show when
/// it is hidden.
pub proof fn lemma_toggle_purity(s: InstanceController)
    requires
        s.is_ready(),
    ensures
        InstanceController::spec_step(s, ActionTypes::Toggle) == (if s.window.visible {
            InstanceController::spec_step(s, ActionTypes::Hide)
        } else {
            InstanceController::spec_step(s, ActionTypes::Show)
        }),
{
}

/// `n` toggles delivered from a ready state.
pub open spec fn spec_toggles(s: InstanceController, n: nat) -> InstanceController
    decreases n,
{
    if n == 0 {
        s
    } else {
        InstanceController::spec_step(spec_toggles(s, (n - 1) as nat), ActionTypes::Toggle).0
    }
}

/// For every sequence of toggles, the parity of the toggle count gives the
/// visibility relative to the initial state, and the instance stays ready.
pub proof fn lemma_toggle_parity(s: InstanceController, n: nat)
    requires
        s.is_ready(),
    ensures
        spec_toggles(s, n).is_ready(),
        spec_toggles(s, n).window.visible == (if n % 2 == 0 {
            s.window.visible
        } else {
            !s.window.visible
        }),
    decreases n,
{
    if n > 0 {
        lemma_toggle_parity(s, (n - 1) as nat);
    }
}

} // verus!
