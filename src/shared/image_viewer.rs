//! A light image popup that remembers, for each text-or-image widget it has
//! been told of, the media locator to fetch when that widget is clicked.
use std::collections::HashMap;
use vstd::prelude::*;

verus! {

broadcast use vstd::std_specs::hash::group_hash_axioms;

/// The actions the popup posts.
#[derive(Clone, Debug, Copy, PartialEq, Eq, Structural)]
pub enum ImageViewerAction {
    Open,
    Idle,
}

/// The popup's state: whether it is shown, and the table from widget
/// identities (the toolkit's widget uid) to media locators.
pub struct ImageViewer {
    visible: bool,
    widgetref_image_uri_map: HashMap<u64, String>,
}

impl ImageViewer {
    /// Whether the popup is shown.
    pub closed spec fn shown(&self) -> bool {
        self.visible
    }

    /// The table from widget uid to media locator.
    pub closed spec fn uri_map(&self) -> Map<u64, String> {
        self.widgetref_image_uri_map@
    }

    /// A visible popup that knows of no widget yet.
    pub fn new() -> (r: ImageViewer)
        ensures
            r.shown(),
            r.uri_map() == Map::<u64, String>::empty(),
    {
        ImageViewer { visible: true, widgetref_image_uri_map: HashMap::new() }
    }

    /// Records that the widget `text_or_image_uid` shows the media at
    /// `mx_uri`, replacing what was recorded for it before.
    pub fn insert_date(&mut self, text_or_image_uid: u64, mx_uri: String)
        ensures
            final(self).uri_map() == old(self).uri_map().insert(text_or_image_uid, mx_uri),
            final(self).shown() == old(self).shown(),
    {
        self.widgetref_image_uri_map.insert(text_or_image_uid, mx_uri);
    }

    /// The media locator recorded for the widget `text_or_image_uid`.
    pub fn uri_of(&self, text_or_image_uid: u64) -> (r: Option<&String>)
        ensures
            match r {
                Some(u) => self.uri_map().contains_key(text_or_image_uid) && *u
                    == self.uri_map()[text_or_image_uid],
                None => !self.uri_map().contains_key(text_or_image_uid),
            },
    {
        self.widgetref_image_uri_map.get(&text_or_image_uid)
    }

    /// Whether the popup is shown.
    pub fn is_visible(&self) -> (r: bool)
        ensures
            r == self.shown(),
    {
        self.visible
    }

    /// The close button was clicked: the popup hides, and keeps its table.
    pub fn close_clicked(&mut self)
        ensures
            !final(self).shown(),
            final(self).uri_map() == old(self).uri_map(),
    {
        self.visible = false;
    }
}

} // verus!
