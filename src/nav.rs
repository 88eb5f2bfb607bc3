//! Which view is shown, and where an overlay returns to when dismissed.
use crate::message::ComponentIds;
use vstd::prelude::*;

verus! {

#[derive(Clone, Copy, Debug, PartialEq, Eq, Structural)]
pub struct Navigation {
    pub current: ComponentIds,
    /// The view under the overlay being shown; none while no overlay is.
    pub previous: Option<ComponentIds>,
}

impl Navigation {
    /// An overlay is shown exactly when a view to return to is remembered,
    /// and that view is never itself an overlay.
    pub open spec fn wf(self) -> bool {
        &&& self.previous.is_some() == self.current.spec_is_overlay()
        &&& (self.previous matches Some(p) ==> !p.spec_is_overlay())
    }

    pub open spec fn activated(self, v: ComponentIds) -> Navigation {
        Navigation { current: v, previous: None }
    }

    /// An overlay shown over the current view; over another overlay, the
    /// view to return to is kept.
    pub open spec fn with_overlay(self, v: ComponentIds) -> Navigation {
        if self.current.spec_is_overlay() {
            Navigation { current: v, previous: self.previous }
        } else {
            Navigation { current: v, previous: Some(self.current) }
        }
    }

    /// Back to the remembered view, or to the entry list if none is.
    pub open spec fn dismissed(self) -> Navigation {
        match self.previous {
            Some(p) => Navigation { current: p, previous: None },
            None => Navigation { current: ComponentIds::FeedEntryList, previous: None },
        }
    }

    /// The loading screen, which is where the client starts.
    pub fn new() -> (r: Navigation)
        ensures
            r == (Navigation { current: ComponentIds::LoadingText, previous: None }),
            r.wf(),
    {
        Navigation { current: ComponentIds::LoadingText, previous: None }
    }

    pub fn activate(&mut self, v: ComponentIds)
        requires
            !v.spec_is_overlay(),
        ensures
            *final(self) == old(self).activated(v),
            final(self).wf(),
    {
        self.current = v;
        self.previous = None;
    }

    pub fn show_overlay(&mut self, v: ComponentIds)
        requires
            old(self).wf(),
            v.spec_is_overlay(),
        ensures
            *final(self) == old(self).with_overlay(v),
            final(self).wf(),
    {
        if !self.current.is_overlay() {
            self.previous = Some(self.current);
        }
        self.current = v;
    }

    pub fn dismiss_overlay(&mut self)
        requires
            old(self).wf(),
        ensures
            *final(self) == old(self).dismissed(),
            final(self).wf(),
    {
        self.current = match self.previous {
            Some(p) => p,
            None => ComponentIds::FeedEntryList,
        };
        self.previous = None;
    }
}

} // verus!
