//! The cached state of one host window and the layout passes run on it.
//!
//! A pass is decided here and carried out by the caller: `relayout`,
//! `on_resize` and `on_ask_mode_changed` return one command per pane, the
//! caller hands each to the host, and `complete_pass` records which ones the
//! host accepted.
use vstd::prelude::*;

use crate::geometry::{
    compute_plan_clamped, plan_spec, LayoutPlan, PaneId, PanePlacement, PaneRect, PhysicalSize,
    Scale,
};
use crate::registry::{with_rect, PaneEntry, PaneError, PaneRegistry};

verus! {

/// What a layout pass reads of the window, sampled together.
#[derive(Clone, Copy, Debug, PartialEq, Eq, Structural)]
pub struct ViewportState {
    pub scale: Scale,
    pub window_size: PhysicalSize,
    pub titlebar_logical: u32,
    pub ask_logical: u32,
}

impl ViewportState {
    pub open spec fn wf(self) -> bool {
        self.scale.wf()
    }
}

/// One pane's part of a pass: the host handle to move (`None` when the pane
/// is not attached) and where to put it.
#[derive(Clone, Copy, Debug, PartialEq, Eq, Structural)]
pub struct PaneCommand {
    pub id: PaneId,
    pub handle: Option<u64>,
    pub rect: PaneRect,
}

/// The plan for a viewport and an ask mode.
pub open spec fn session_plan(v: ViewportState, ask_enabled: bool) -> LayoutPlan {
    plan_spec(v.window_size, v.scale, v.titlebar_logical, ask_enabled, v.ask_logical)
}

/// The command that carries out `p` on the panes of `panes`.
pub open spec fn command_for(panes: PaneRegistry, p: PanePlacement) -> PaneCommand {
    PaneCommand {
        id: p.id,
        handle: match panes.entry(p.id) {
            Some(e) => Some(e.handle),
            None => None,
        },
        rect: p.rect,
    }
}

/// The commands of a pass over `plan`, in the plan's order.
pub open spec fn commands_spec(plan: LayoutPlan, panes: PaneRegistry) -> Seq<PaneCommand> {
    seq![
        command_for(panes, plan.titlebar),
        command_for(panes, plan.main),
        command_for(panes, plan.ask),
    ]
}

/// The rectangle of the last command for `id` that the host accepted.
pub open spec fn last_accepted(cmds: Seq<PaneCommand>, accepted: Seq<bool>, id: PaneId) -> Option<
    PaneRect,
>
    decreases cmds.len(),
{
    if cmds.len() == 0 {
        None
    } else {
        let k = cmds.len() - 1;
        if cmds[k].id == id && accepted[k] {
            Some(cmds[k].rect)
        } else {
            last_accepted(cmds.drop_last(), accepted.take(k), id)
        }
    }
}

/// The entry of pane `id` after a pass, from its entry before.
pub open spec fn entry_after_pass(
    e: Option<PaneEntry>,
    cmds: Seq<PaneCommand>,
    accepted: Seq<bool>,
    id: PaneId,
) -> Option<PaneEntry> {
    match last_accepted(cmds, accepted, id) {
        Some(r) => with_rect(e, r),
        None => e,
    }
}

/// The outcome of one command of a pass.
pub open spec fn command_result(panes: PaneRegistry, c: PaneCommand, accepted: bool) -> Result<
    (),
    PaneError,
> {
    if !panes.attached(c.id) {
        Err(PaneError::PaneNotFound)
    } else if !accepted {
        Err(PaneError::HostRejected)
    } else {
        Ok(())
    }
}

/// The outcome of a pass: the error of its first failed command, if any.
pub open spec fn pass_result(panes: PaneRegistry, cmds: Seq<PaneCommand>, accepted: Seq<bool>) -> Result<
    (),
    PaneError,
>
    decreases cmds.len(),
{
    if cmds.len() == 0 {
        Ok(())
    } else {
        let k = cmds.len() - 1;
        let prev = pass_result(panes, cmds.drop_last(), accepted.take(k));
        if prev is Err {
            prev
        } else {
            command_result(panes, cmds[k], accepted[k])
        }
    }
}

/// The layout state of one host window: its viewport, its ask mode and its
/// panes. It is the one source from which layout passes are computed.
#[derive(Clone, Copy, Debug)]
pub struct WindowSession {
    viewport: ViewportState,
    ask_enabled: bool,
    panes: PaneRegistry,
}

impl WindowSession {
    pub closed spec fn viewport_spec(self) -> ViewportState {
        self.viewport
    }

    pub closed spec fn ask_enabled_spec(self) -> bool {
        self.ask_enabled
    }

    pub closed spec fn panes_spec(self) -> PaneRegistry {
        self.panes
    }

    pub open spec fn wf(self) -> bool {
        self.viewport_spec().wf()
    }

    /// The plan that the session's current state calls for.
    pub open spec fn plan_of(self) -> LayoutPlan {
        session_plan(self.viewport_spec(), self.ask_enabled_spec())
    }

    /// A session with the given viewport and ask mode and no pane attached.
    pub fn new(viewport: ViewportState, ask_enabled: bool) -> (r: WindowSession)
        requires
            viewport.wf(),
        ensures
            r.wf(),
            r.viewport_spec() == viewport,
            r.ask_enabled_spec() == ask_enabled,
            forall|id: PaneId| #[trigger] r.panes_spec().entry(id) == None::<PaneEntry>,
    {
        WindowSession { viewport, ask_enabled, panes: PaneRegistry::new() }
    }

    pub fn viewport(&self) -> (r: ViewportState)
        ensures
            r == self.viewport_spec(),
    {
        self.viewport
    }

    pub fn ask_enabled(&self) -> (r: bool)
        ensures
            r == self.ask_enabled_spec(),
    {
        self.ask_enabled
    }

    pub fn panes(&self) -> (r: &PaneRegistry)
        ensures
            *r == self.panes_spec(),
    {
        &self.panes
    }

    /// Attaches pane `id` with the host's `handle`, as `PaneRegistry::attach`.
    pub fn attach_pane(&mut self, id: PaneId, handle: u64) -> (r: Result<(), PaneError>)
        ensures
            final(self).viewport_spec() == old(self).viewport_spec(),
            final(self).ask_enabled_spec() == old(self).ask_enabled_spec(),
            old(self).panes_spec().attached(id) ==> r == Err::<(), PaneError>(
                PaneError::DuplicatePane,
            ) && final(self).panes_spec().same_entries(old(self).panes_spec()),
            !old(self).panes_spec().attached(id) ==> r == Ok::<(), PaneError>(())
                && final(self).panes_spec().entry(id) == Some(PaneEntry { handle, rect: None })
                && final(self).panes_spec().same_except(old(self).panes_spec(), id),
    {
        self.panes.attach(id, handle)
    }

    /// The plan for the current state; the main pane's height is clamped at
    /// zero where the window is too small.
    pub fn plan(&self) -> (r: LayoutPlan)
        requires
            self.wf(),
        ensures
            r == self.plan_of(),
    {
        let v = self.viewport;
        compute_plan_clamped(
            v.window_size,
            v.scale,
            v.titlebar_logical,
            self.ask_enabled,
            v.ask_logical,
        )
    }

    fn command(&self, p: PanePlacement) -> (r: PaneCommand)
        ensures
            r == command_for(self.panes, p),
    {
        PaneCommand { id: p.id, handle: self.panes.get(p.id), rect: p.rect }
    }

    /// The commands of a pass over the current state, one per pane, in the
    /// order title bar, main pane, ask pane.
    pub fn relayout(&self) -> (r: Vec<PaneCommand>)
        requires
            self.wf(),
        ensures
            r@ == commands_spec(self.plan_of(), self.panes_spec()),
    {
        let plan = self.plan();
        let r = vec![self.command(plan.titlebar), self.command(plan.main), self.command(plan.ask)];
        assert(r@ =~= commands_spec(self.plan_of(), self.panes_spec()));
        r
    }

    /// Takes the window's new physical size and returns the pass it calls for.
    pub fn on_resize(&mut self, size: PhysicalSize) -> (r: Vec<PaneCommand>)
        requires
            old(self).wf(),
        ensures
            final(self).wf(),
            final(self).viewport_spec() == (ViewportState {
                window_size: size,
                ..old(self).viewport_spec()
            }),
            final(self).ask_enabled_spec() == old(self).ask_enabled_spec(),
            final(self).panes_spec() == old(self).panes_spec(),
            r@ == commands_spec(final(self).plan_of(), final(self).panes_spec()),
    {
        self.viewport.window_size = size;
        self.relayout()
    }

    /// Takes the new ask mode and returns the pass it calls for.
    pub fn on_ask_mode_changed(&mut self, enabled: bool) -> (r: Vec<PaneCommand>)
        requires
            old(self).wf(),
        ensures
            final(self).wf(),
            final(self).viewport_spec() == old(self).viewport_spec(),
            final(self).ask_enabled_spec() == enabled,
            final(self).panes_spec() == old(self).panes_spec(),
            r@ == commands_spec(final(self).plan_of(), final(self).panes_spec()),
    {
        self.ask_enabled = enabled;
        self.relayout()
    }

    /// Records which commands of a pass the host accepted (`accepted[i]` for
    /// `cmds[i]`). Every attached pane takes the rectangle of its last
    /// accepted command; the others keep theirs. The result is the error of
    /// the first command that failed: `PaneNotFound` for a pane that is not
    /// attached, `HostRejected` for one the host refused.
    pub fn complete_pass(&mut self, cmds: &Vec<PaneCommand>, accepted: &Vec<bool>) -> (r: Result<
        (),
        PaneError,
    >)
        requires
            cmds.len() == accepted.len(),
        ensures
            final(self).viewport_spec() == old(self).viewport_spec(),
            final(self).ask_enabled_spec() == old(self).ask_enabled_spec(),
            forall|id: PaneId| #[trigger]
                final(self).panes_spec().entry(id) == entry_after_pass(
                    old(self).panes_spec().entry(id),
                    cmds@,
                    accepted@,
                    id,
                ),
            r == pass_result(old(self).panes_spec(), cmds@, accepted@),
    {
        let ghost start = self.panes;
        let mut result: Result<(), PaneError> = Ok(());
        let mut i: usize = 0;
        while i < cmds.len()
            invariant
                cmds.len() == accepted.len(),
                0 <= i <= cmds.len(),
                self.viewport == old(self).viewport,
                self.ask_enabled == old(self).ask_enabled,
                start == old(self).panes,
                forall|id: PaneId| #[trigger]
                    self.panes.entry(id) == entry_after_pass(
                        start.entry(id),
                        cmds@.take(i as int),
                        accepted@.take(i as int),
                        id,
                    ),
                result == pass_result(start, cmds@.take(i as int), accepted@.take(i as int)),
            decreases cmds.len() - i,
        {
            let c = cmds[i];
            let acc = accepted[i];
            let ghost before = self.panes;
            let r = self.panes.apply(c.id, c.rect, acc);
            proof {
                let ct = cmds@.take(i + 1);
                let at = accepted@.take(i + 1);
                assert(ct.drop_last() =~= cmds@.take(i as int));
                assert(at.take(i as int) =~= accepted@.take(i as int));
                assert(ct[i as int] == c);
                assert(at[i as int] == acc);
                assert(before.attached(c.id) == start.attached(c.id));
                assert forall|id: PaneId| #[trigger]
                    self.panes.entry(id) == entry_after_pass(start.entry(id), ct, at, id) by {
                    if id != c.id {
                        assert(self.panes.entry(id) == before.entry(id));
                    }
                }
            }
            if result.is_ok() {
                result = r;
            }
            i = i + 1;
        }
        assert(cmds@.take(cmds.len() as int) =~= cmds@);
        assert(accepted@.take(cmds.len() as int) =~= accepted@);
        result
    }
}

/// The pane that takes the keyboard focus after the ask mode is set:
/// the ask pane when it is on, the main pane when it is off.
pub fn focus_pane(ask_enabled: bool) -> (r: PaneId)
    ensures
        r == (if ask_enabled { PaneId::AskOverlay } else { PaneId::MainContent }),
{
    if ask_enabled {
        PaneId::AskOverlay
    } else {
        PaneId::MainContent
    }
}

/// Layout is idempotent: carrying out the same pass a second time, with the
/// host accepting the same commands, leaves every pane where the first
/// pass put it.
pub proof fn lemma_pass_replay_idempotent(
    e: Option<PaneEntry>,
    cmds: Seq<PaneCommand>,
    accepted: Seq<bool>,
    id: PaneId,
)
    ensures
        entry_after_pass(entry_after_pass(e, cmds, accepted, id), cmds, accepted, id)
            == entry_after_pass(e, cmds, accepted, id),
{
}

/// Two sessions in the same viewport and ask mode call for the same pass:
/// the commands depend on nothing else.
pub proof fn lemma_relayout_deterministic(a: WindowSession, b: WindowSession)
    requires
        a.viewport_spec() == b.viewport_spec(),
        a.ask_enabled_spec() == b.ask_enabled_spec(),
        a.panes_spec() == b.panes_spec(),
    ensures
        commands_spec(a.plan_of(), a.panes_spec()) == commands_spec(b.plan_of(), b.panes_spec()),
{
}

/// Switching the ask mode and switching it back restores the plan exactly.
pub proof fn lemma_ask_toggle_round_trip(
    start: WindowSession,
    toggled: WindowSession,
    back: WindowSession,
)
    requires
        toggled.viewport_spec() == start.viewport_spec(),
        toggled.ask_enabled_spec() == !start.ask_enabled_spec(),
        back.viewport_spec() == toggled.viewport_spec(),
        back.ask_enabled_spec() == start.ask_enabled_spec(),
    ensures
        back.plan_of() == start.plan_of(),
{
}

} // verus!
