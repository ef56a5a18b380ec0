//! The panes attached to one host window, with the rectangle last applied to
//! each.
use vstd::prelude::*;

use crate::geometry::{PaneId, PaneRect};

verus! {

/// Errors of attaching panes and applying rectangles to them.
#[derive(Clone, Copy, Debug, PartialEq, Eq, Structural)]
pub enum PaneError {
    /// The pane was never attached.
    PaneNotFound,
    /// The pane is attached already.
    DuplicatePane,
    /// The host refused the new rectangle.
    HostRejected,
}

/// One attached pane: the host's handle for it and the rectangle that the host
/// last accepted.
#[derive(Clone, Copy, Debug, PartialEq, Eq, Structural)]
pub struct PaneEntry {
    pub handle: u64,
    pub rect: Option<PaneRect>,
}

/// Panes of one host window, at most one per identity.
#[derive(Clone, Copy, Debug)]
pub struct PaneRegistry {
    titlebar: Option<PaneEntry>,
    main: Option<PaneEntry>,
    ask: Option<PaneEntry>,
}

/// The entry that results from putting `rect` on `e`, if `e` is attached.
pub open spec fn with_rect(e: Option<PaneEntry>, rect: PaneRect) -> Option<PaneEntry> {
    match e {
        Some(p) => Some(PaneEntry { handle: p.handle, rect: Some(rect) }),
        None => None,
    }
}

impl PaneRegistry {
    /// The entry attached under `id`.
    pub closed spec fn entry(self, id: PaneId) -> Option<PaneEntry> {
        match id {
            PaneId::TitleBar => self.titlebar,
            PaneId::MainContent => self.main,
            PaneId::AskOverlay => self.ask,
        }
    }

    /// Whether `id` is attached.
    pub open spec fn attached(self, id: PaneId) -> bool {
        self.entry(id) is Some
    }

    /// Every entry but that of `id` is the same in `self` and `other`.
    pub open spec fn same_except(self, other: PaneRegistry, id: PaneId) -> bool {
        forall|o: PaneId| o != id ==> #[trigger] self.entry(o) == other.entry(o)
    }

    /// Both registries hold the same entries.
    pub open spec fn same_entries(self, other: PaneRegistry) -> bool {
        forall|o: PaneId| #[trigger] self.entry(o) == other.entry(o)
    }

    /// A registry with no pane attached.
    pub fn new() -> (r: PaneRegistry)
        ensures
            forall|id: PaneId| #[trigger] r.entry(id) == None::<PaneEntry>,
    {
        PaneRegistry { titlebar: None, main: None, ask: None }
    }

    fn slot(&mut self, id: PaneId) -> (r: &mut Option<PaneEntry>)
        ensures
            *r == old(self).entry(id),
            final(self).entry(id) == *final(r),
            final(self).same_except(*old(self), id),
    {
        match id {
            PaneId::TitleBar => &mut self.titlebar,
            PaneId::MainContent => &mut self.main,
            PaneId::AskOverlay => &mut self.ask,
        }
    }

    /// Registers the host's handle for pane `id`; fails with `DuplicatePane`
    /// when `id` is attached already, leaving the registry as it was.
    pub fn attach(&mut self, id: PaneId, handle: u64) -> (r: Result<(), PaneError>)
        ensures
            old(self).attached(id) ==> r == Err::<(), PaneError>(PaneError::DuplicatePane)
                && final(self).same_entries(*old(self)),
            !old(self).attached(id) ==> r == Ok::<(), PaneError>(()) && final(self).entry(id)
                == Some(PaneEntry { handle, rect: None }) && final(self).same_except(
                *old(self),
                id,
            ),
    {
        let slot = self.slot(id);
        if slot.is_some() {
            Err(PaneError::DuplicatePane)
        } else {
            *slot = Some(PaneEntry { handle, rect: None });
            Ok(())
        }
    }

    /// The host's handle for pane `id`, if attached.
    pub fn get(&self, id: PaneId) -> (r: Option<u64>)
        ensures
            r == (match self.entry(id) {
                Some(e) => Some(e.handle),
                None => None::<u64>,
            }),
    {
        let e = match id {
            PaneId::TitleBar => self.titlebar,
            PaneId::MainContent => self.main,
            PaneId::AskOverlay => self.ask,
        };
        match e {
            Some(p) => Some(p.handle),
            None => None,
        }
    }

    /// The rectangle that the host last accepted for pane `id`.
    pub fn rect(&self, id: PaneId) -> (r: Option<PaneRect>)
        ensures
            r == (match self.entry(id) {
                Some(e) => e.rect,
                None => None::<PaneRect>,
            }),
    {
        let e = match id {
            PaneId::TitleBar => self.titlebar,
            PaneId::MainContent => self.main,
            PaneId::AskOverlay => self.ask,
        };
        match e {
            Some(p) => p.rect,
            None => None,
        }
    }

    /// Records the outcome of handing `rect` for pane `id` to the host.
    /// Fails with `PaneNotFound` when `id` is not attached and with
    /// `HostRejected` when the host refused; in both cases nothing changes.
    /// Otherwise the pane's rectangle becomes `rect`.
    pub fn apply(&mut self, id: PaneId, rect: PaneRect, host_accepted: bool) -> (r: Result<
        (),
        PaneError,
    >)
        ensures
            !old(self).attached(id) ==> r == Err::<(), PaneError>(PaneError::PaneNotFound),
            old(self).attached(id) && !host_accepted ==> r == Err::<(), PaneError>(
                PaneError::HostRejected,
            ),
            old(self).attached(id) && host_accepted ==> r == Ok::<(), PaneError>(()),
            final(self).entry(id) == (if host_accepted {
                with_rect(old(self).entry(id), rect)
            } else {
                old(self).entry(id)
            }),
            final(self).same_except(*old(self), id),
    {
        let slot = self.slot(id);
        match slot {
            None => Err(PaneError::PaneNotFound),
            Some(p) => {
                if host_accepted {
                    p.rect = Some(rect);
                    Ok(())
                } else {
                    Err(PaneError::HostRejected)
                }
            },
        }
    }
}

} // verus!
