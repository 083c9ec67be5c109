//! An image view that fits itself to the space it is given.
//!
//! While the view is wider than the image's target size the image is shown
//! at its natural size; otherwise it is scaled down to fit.
use vstd::prelude::*;

verus! {

/// How the image is laid out inside its view.
#[derive(Debug, Clone, Copy, PartialEq, Eq, Structural, PartialOrd, Ord)]
pub enum ImageStatus {
    /// The image keeps its natural size.
    Size,
    /// The image is scaled down to the smallest side of its view.
    Smallest,
}

impl Default for ImageStatus {
    fn default() -> (r: ImageStatus)
        ensures
            r == ImageStatus::Size,
    {
        ImageStatus::Size
    }
}

/// The event kinds an auto-fit image tells apart.
#[derive(Debug, Clone, Copy, PartialEq, Eq, Structural)]
pub enum FitEvent {
    /// Application actions were delivered.
    Actions,
    /// The window's geometry changed.
    WindowGeomChange,
    /// Any other event.
    Other,
}

/// What the widget must do after handing an event to its model.
#[derive(Debug, Clone, Copy, PartialEq, Eq, Structural)]
pub enum FitStep {
    /// The image has no texture yet: the event is dropped, not even passed on
    /// to the inner view.
    NoTexture,
    /// No target size is known yet: record the image's current size as the
    /// target.
    RecordTarget,
    /// The layout must switch to the given status.
    Apply(ImageStatus),
    /// Nothing changes.
    Keep,
}

/// The status an image should have, given whether its view is wider than
/// the target size.
pub open spec fn status_for(view_wider: bool) -> ImageStatus {
    if view_wider {
        ImageStatus::Size
    } else {
        ImageStatus::Smallest
    }
}

/// Whether an event can change the available width.
pub open spec fn is_relayout(event: FitEvent) -> bool {
    event == FitEvent::Actions || event == FitEvent::WindowGeomChange
}

/// The step the model takes from state `(status, target_known)`.
pub open spec fn fit_step(
    status: ImageStatus,
    target_known: bool,
    has_texture: bool,
    event: FitEvent,
    view_wider: bool,
) -> FitStep {
    if !has_texture {
        FitStep::NoTexture
    } else if !target_known {
        FitStep::RecordTarget
    } else if is_relayout(event) && status_for(view_wider) != status {
        FitStep::Apply(status_for(view_wider))
    } else {
        FitStep::Keep
    }
}

/// Whether the widget passes the event on to its inner view after a step.
pub open spec fn forwards(step: FitStep) -> bool {
    step != FitStep::NoTexture
}

/// The status after a step taken from `status`.
pub open spec fn status_after(status: ImageStatus, step: FitStep) -> ImageStatus {
    match step {
        FitStep::Apply(s) => s,
        _ => status,
    }
}

/// The layout settles at once: after a relayout event has been taken with a
/// texture and a known target, taking the same event again changes nothing.
pub proof fn lemma_relayout_settles(status: ImageStatus, event: FitEvent, view_wider: bool)
    requires
        is_relayout(event),
    ensures
        fit_step(
            status_after(status, fit_step(status, true, true, event, view_wider)),
            true,
            true,
            event,
            view_wider,
        ) == FitStep::Keep,
{
}

/// Chooses the layout status: natural size while the view is wider than
/// the target, scaled to fit otherwise.
pub fn choose_status(view_wider: bool) -> (r: ImageStatus)
    ensures
        r == status_for(view_wider),
{
    if view_wider {
        ImageStatus::Size
    } else {
        ImageStatus::Smallest
    }
}

/// Whether the widget passes the event on to its inner view after `step`.
pub fn passes_on(step: FitStep) -> (r: bool)
    ensures
        r == forwards(step),
{
    match step {
        FitStep::NoTexture => false,
        _ => true,
    }
}

/// The state an auto-fit image keeps between events.
///
/// The target size itself is a pair of floating-point lengths that the widget
/// holds; the model only records whether one is known.
#[derive(Debug, Clone, Copy, PartialEq, Eq, Structural)]
pub struct RobrixAutoFitImage {
    pub visible: bool,
    pub status: ImageStatus,
    pub target_known: bool,
}

impl RobrixAutoFitImage {
    /// A visible image at its natural size, with no target size yet.
    pub fn new() -> (r: RobrixAutoFitImage)
        ensures
            r.visible,
            r.status == ImageStatus::Size,
            !r.target_known,
    {
        RobrixAutoFitImage { visible: true, status: ImageStatus::Size, target_known: false }
    }

    /// Handles one event. `has_texture` tells whether the image holds a
    /// texture, and `view_wider` whether the view's current width exceeds
    /// the target width (only read when a target is known).
    pub fn handle_event(&mut self, has_texture: bool, event: FitEvent, view_wider: bool) -> (r:
        FitStep)
        ensures
            r == fit_step(old(self).status, old(self).target_known, has_texture, event, view_wider),
            final(self).visible == old(self).visible,
            final(self).target_known == (old(self).target_known || has_texture),
            final(self).status == status_after(old(self).status, r),
    {
        if !has_texture {
            return FitStep::NoTexture;
        }
        if !self.target_known {
            self.target_known = true;
            return FitStep::RecordTarget;
        }
        match event {
            FitEvent::Actions | FitEvent::WindowGeomChange => {
                let new_status = choose_status(view_wider);
                if self.status != new_status {
                    self.status = new_status;
                    FitStep::Apply(new_status)
                } else {
                    FitStep::Keep
                }
            },
            FitEvent::Other => FitStep::Keep,
        }
    }

    /// Shows or hides the image.
    pub fn set_visible(&mut self, visible: bool)
        ensures
            final(self).visible == visible,
            final(self).status == old(self).status,
            final(self).target_known == old(self).target_known,
    {
        self.visible = visible;
    }

    /// Asks to use a new target size. It is taken only while the image holds
    /// a texture; the result says whether the widget should store it.
    pub fn set_target_size(&mut self, has_texture: bool) -> (r: bool)
        ensures
            r == has_texture,
            final(self).target_known == (old(self).target_known || has_texture),
            final(self).visible == old(self).visible,
            final(self).status == old(self).status,
    {
        if has_texture {
            self.target_known = true;
        }
        has_texture
    }
}

} // verus!
