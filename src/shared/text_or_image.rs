//! A `TextOrImage` view displays either a text label or an image.
//!
//! It shows a loading message while an image is fetched, an error message if
//! the image cannot be displayed, and the image once it is there. A tap on a
//! displayed image whose original media locator is known emits a click action
//! that carries that locator.
use vstd::prelude::*;

verus! {

/// The label shown when the image could not be displayed.
pub open spec fn failure_text() -> Seq<char> {
    "Failed to display image."@
}

/// Whether a `TextOrImage` is currently displaying text or an image.
#[derive(Debug, Copy, Clone, PartialEq, Eq, Structural)]
pub enum TextOrImageStatus {
    Text,
    Image,
}

impl Default for TextOrImageStatus {
    fn default() -> (r: TextOrImageStatus)
        ensures
            r == TextOrImageStatus::Text,
    {
        TextOrImageStatus::Text
    }
}

/// The action a `TextOrImage` emits.
#[derive(Debug, Clone)]
pub enum TextOrImageAction {
    /// The displayed image was tapped; carries its original media locator.
    Click(String),
    Idle,
}

/// The original media locator of the displayed image, and the bytes of the
/// version shown in the timeline.
#[derive(Clone)]
pub struct ImageValue {
    pub original_mxc_uri: String,
    pub timeline_image_data: Vec<u8>,
}

/// A pointer hit on the image area, as the widget's hit test reports it.
#[derive(Debug, Copy, Clone, PartialEq, Eq, Structural)]
pub enum ImageHit {
    /// A finger or button went down on the image.
    FingerDown,
    /// A primary tap that ended over the image.
    Tap,
    /// Any other hit, or none.
    Other,
}

/// What the widget does about a hit.
#[derive(Debug, Clone)]
pub enum HitResponse {
    /// Nothing.
    Ignore,
    /// Give the image area the key focus.
    Focus,
    /// Emit the action.
    Emit(TextOrImageAction),
}

/// A view that holds an image or text content, and switches between the two.
///
/// Only the view matching `status` is visible: the text view while it is
/// `Text`, the image view while it is `Image`.
pub struct TextOrImage {
    pub status: TextOrImageStatus,
    pub size_in_pixels: (usize, usize),
    pub image_value: Option<ImageValue>,
    /// The label of the text view.
    pub text: String,
}

impl TextOrImage {
    /// The response owed to `hit` in this state: hits count only while an
    /// image is displayed, and a tap emits a click only once the original
    /// locator is known (before that the user tapped a placeholder).
    pub open spec fn response_ok(&self, hit: ImageHit, r: HitResponse) -> bool {
        if self.status == TextOrImageStatus::Image && hit == ImageHit::FingerDown {
            r is Focus
        } else if self.status == TextOrImageStatus::Image && hit == ImageHit::Tap
            && self.image_value is Some {
            match r {
                HitResponse::Emit(TextOrImageAction::Click(uri)) => match self.image_value {
                    Some(v) => uri@ == v.original_mxc_uri@,
                    None => false,
                },
                _ => false,
            }
        } else {
            r is Ignore
        }
    }

    /// A view that shows an empty text, with no image yet.
    pub fn new() -> (r: TextOrImage)
        ensures
            r.status == TextOrImageStatus::Text,
            r.size_in_pixels == (0usize, 0usize),
            r.image_value is None,
            r.text@ == Seq::<char>::empty(),
    {
        TextOrImage {
            status: TextOrImageStatus::Text,
            size_in_pixels: (0, 0),
            image_value: None,
            text: String::new(),
        }
    }

    /// Decides what a pointer hit on the image area does.
    pub fn handle_hit(&self, hit: ImageHit) -> (r: HitResponse)
        ensures
            self.response_ok(hit, r),
    {
        match self.status {
            TextOrImageStatus::Image => match hit {
                ImageHit::FingerDown => HitResponse::Focus,
                ImageHit::Tap => match &self.image_value {
                    Some(v) => HitResponse::Emit(
                        TextOrImageAction::Click(v.original_mxc_uri.clone()),
                    ),
                    None => HitResponse::Ignore,
                },
                ImageHit::Other => HitResponse::Ignore,
            },
            TextOrImageStatus::Text => HitResponse::Ignore,
        }
    }

    /// Sets the text content, e.g. a loading or an error message, and shows
    /// the text view in place of the image.
    pub fn show_text(&mut self, text: &str)
        ensures
            final(self).status == TextOrImageStatus::Text,
            final(self).text@ == text@,
            final(self).size_in_pixels == old(self).size_in_pixels,
            final(self).image_value == old(self).image_value,
    {
        self.text = text.to_owned();
        self.status = TextOrImageStatus::Text;
    }

    /// Takes the outcome of setting the image's contents: its size in
    /// pixels, or the error that setting it gave.
    ///
    /// On success the image is shown at that size. On failure the view shows
    /// a failure message, and the error is handed back.
    pub fn show_image<E>(&mut self, outcome: Result<(usize, usize), E>) -> (r: Result<(), E>)
        ensures
            final(self).image_value == old(self).image_value,
            match outcome {
                Ok(size) => {
                    &&& r is Ok
                    &&& final(self).status == TextOrImageStatus::Image
                    &&& final(self).size_in_pixels == size
                    &&& final(self).text == old(self).text
                },
                Err(e) => {
                    &&& r == Err::<(), E>(e)
                    &&& final(self).status == TextOrImageStatus::Text
                    &&& final(self).size_in_pixels == old(self).size_in_pixels
                    &&& final(self).text@ == failure_text()
                },
            },
    {
        match outcome {
            Ok(size) => {
                self.status = TextOrImageStatus::Image;
                self.size_in_pixels = size;
                Ok(())
            },
            Err(e) => {
                self.show_text("Failed to display image.");
                proof {
                    reveal_strlit("Failed to display image.");
                }
                Err(e)
            },
        }
    }

    /// Whether this view is currently displaying an image or text.
    pub fn status(&self) -> (r: TextOrImageStatus)
        ensures
            r == self.status,
    {
        self.status
    }

    /// Records the original media locator of the displayed image and the
    /// bytes of its timeline version.
    pub fn set_original_mxc_uri_and_timeline_image_data(
        &mut self,
        original_mxc_uri: &String,
        timeline_image_data: Vec<u8>,
    )
        ensures
            final(self).status == old(self).status,
            final(self).size_in_pixels == old(self).size_in_pixels,
            final(self).text == old(self).text,
            match final(self).image_value {
                Some(v) => v.original_mxc_uri@ == original_mxc_uri@ && v.timeline_image_data
                    == timeline_image_data,
                None => false,
            },
    {
        self.image_value = Some(
            ImageValue {
                original_mxc_uri: original_mxc_uri.clone(),
                timeline_image_data,
            },
        );
    }
}

} // verus!
