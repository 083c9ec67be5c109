//! The full-screen image viewer: a modal overlay that opens when the
//! application asks it to show an image's bytes, and closes on a tap on its
//! background or on its close button, dropping the texture it showed.
use vstd::prelude::*;

verus! {

/// The actions the viewer answers to.
#[derive(Clone, Debug)]
pub enum ImageViewerAction {
    /// Open the viewer on the encoded image in these bytes.
    Show(Vec<u8>),
    /// Posted while an image that is not cached yet is being fetched.
    Idle,
}

/// What the widget must do, in order, after the model took an input.
#[derive(Clone, Debug)]
pub enum ViewerCommand {
    /// Drop the texture of the image view.
    ClearTexture,
    /// Ask the toolkit for a redraw.
    Redraw,
    /// Decode these bytes into the image view.
    Load(Vec<u8>),
}

/// The commands that closing the viewer takes.
pub open spec fn close_commands() -> Seq<ViewerCommand> {
    seq![ViewerCommand::ClearTexture, ViewerCommand::Redraw]
}

/// The commands that showing `data` takes: the old texture goes, the viewer
/// opens, and the new bytes are decoded.
pub open spec fn show_commands(data: Vec<u8>) -> Seq<ViewerCommand> {
    seq![ViewerCommand::ClearTexture, ViewerCommand::Redraw, ViewerCommand::Load(data)]
}

/// The modal's state: whether the overlay is shown.
#[derive(Debug, Clone, Copy, PartialEq, Eq, Structural)]
pub struct ImageViewer {
    pub visible: bool,
}

impl ImageViewer {
    /// A hidden viewer.
    pub fn new() -> (r: ImageViewer)
        ensures
            !r.visible,
    {
        ImageViewer { visible: false }
    }

    /// Shows the overlay.
    fn open(&mut self) -> (r: Vec<ViewerCommand>)
        ensures
            final(self).visible,
            r@ == seq![ViewerCommand::Redraw],
    {
        self.visible = true;
        let mut r: Vec<ViewerCommand> = Vec::new();
        r.push(ViewerCommand::Redraw);
        r
    }

    /// Hides the overlay and drops its texture.
    fn close(&mut self) -> (r: Vec<ViewerCommand>)
        ensures
            !final(self).visible,
            r@ == close_commands(),
    {
        self.visible = false;
        let mut r: Vec<ViewerCommand> = Vec::new();
        r.push(ViewerCommand::ClearTexture);
        r.push(ViewerCommand::Redraw);
        r
    }

    /// A finger went up over the overlay. A tap anywhere but on the image
    /// closes the viewer; the widget reports `on_image` from its hit test.
    pub fn handle_finger_up(&mut self, was_tap: bool, on_image: bool) -> (r: Vec<ViewerCommand>)
        ensures
            was_tap && !on_image ==> !final(self).visible && r@ == close_commands(),
            !(was_tap && !on_image) ==> *final(self) == *old(self) && r@.len() == 0,
    {
        if was_tap && !on_image {
            self.close()
        } else {
            Vec::new()
        }
    }

    /// The close button was clicked.
    pub fn close_clicked(&mut self) -> (r: Vec<ViewerCommand>)
        ensures
            !final(self).visible,
            r@ == close_commands(),
    {
        self.close()
    }

    /// Takes one application action.
    pub fn handle_action(&mut self, action: ImageViewerAction) -> (r: Vec<ViewerCommand>)
        ensures
            match action {
                ImageViewerAction::Show(data) => final(self).visible && r@ == show_commands(data),
                ImageViewerAction::Idle => *final(self) == *old(self) && r@.len() == 0,
            },
    {
        match action {
            ImageViewerAction::Show(data) => {
                let mut r: Vec<ViewerCommand> = Vec::new();
                r.push(ViewerCommand::ClearTexture);
                let mut opened = self.open();
                r.append(&mut opened);
                r.push(ViewerCommand::Load(data));
                proof {
                    assert(r@ =~= show_commands(data));
                }
                r
            },
            ImageViewerAction::Idle => Vec::new(),
        }
    }

    /// Whether the viewer redraws once the bytes of a `Load` were decoded:
    /// only when decoding succeeded.
    pub fn redraw_after_load<E>(&self, decoded: &Result<(), E>) -> (r: bool)
        ensures
            r == decoded is Ok,
    {
        decoded.is_ok()
    }
}

} // verus!
