use vstd::prelude::*;

verus! {

/// Mathematical value of a [`Track`]: every field reduced to a plain
/// mathematical object, with strings as character sequences.
pub struct TrackView {
    pub playable_handle: Seq<char>,
    pub title: Option<Seq<char>>,
    pub author: Option<Seq<char>>,
    pub uri: Seq<char>,
    pub length_ms: u64,
    pub notify_target: u64,
}

/// One playable item plus the metadata and notification target needed to
/// display and announce it.
///
/// `playable_handle` is the opaque token the external audio node understands;
/// it is used verbatim when a play command is issued. `notify_target`
/// identifies the channel that receives "now playing" / "end of queue"
/// notices for this track; it is set once when the track is enqueued and
/// never mutated.
#[derive(Debug)]
pub struct Track {
    pub playable_handle: String,
    pub title: Option<String>,
    pub author: Option<String>,
    pub uri: String,
    pub length_ms: u64,
    pub notify_target: u64,
}

impl View for Track {
    type V = TrackView;

    open spec fn view(&self) -> TrackView {
        TrackView {
            playable_handle: self.playable_handle@,
            title: self.title.deep_view(),
            author: self.author.deep_view(),
            uri: self.uri@,
            length_ms: self.length_ms,
            notify_target: self.notify_target,
        }
    }
}

impl DeepView for Track {
    type V = TrackView;

    open spec fn deep_view(&self) -> TrackView {
        self.view()
    }
}

/// The placeholder shown when a display string is absent.
pub open spec fn spec_unknown() -> Seq<char> {
    "<UNKNOWN>"@
}

/// The display form of an optional metadata string: the string itself when
/// present, the placeholder otherwise.
pub open spec fn spec_display(o: Option<Seq<char>>) -> Seq<char> {
    match o {
        Some(s) => s,
        None => spec_unknown(),
    }
}

impl Clone for Track {
    fn clone(&self) -> (res: Track)
        ensures
            res@ == self@,
    {
        Track {
            playable_handle: self.playable_handle.clone(),
            title: clone_opt_string(&self.title),
            author: clone_opt_string(&self.author),
            uri: self.uri.clone(),
            length_ms: self.length_ms,
            notify_target: self.notify_target,
        }
    }
}

fn clone_opt_string(o: &Option<String>) -> (res: Option<String>)
    ensures
        res.deep_view() == o.deep_view(),
{
    match o {
        Some(s) => Some(s.clone()),
        None => None,
    }
}

impl Track {
    /// Builds a track from its parts.
    pub fn new(
        playable_handle: String,
        title: Option<String>,
        author: Option<String>,
        uri: String,
        length_ms: u64,
        notify_target: u64,
    ) -> (t: Track)
        ensures
            t@ == (TrackView {
                playable_handle: playable_handle@,
                title: title.deep_view(),
                author: author.deep_view(),
                uri: uri@,
                length_ms: length_ms,
                notify_target: notify_target,
            }),
    {
        Track { playable_handle, title, author, uri, length_ms, notify_target }
    }

    /// A copy of the opaque handle, as handed verbatim to the audio node.
    pub fn track(&self) -> (r: String)
        ensures
            r@ == self@.playable_handle,
    {
        self.playable_handle.clone()
    }

    /// The title to display: the stored one, or the placeholder when absent.
    pub fn display_title(&self) -> (r: String)
        ensures
            r@ == spec_display(self@.title),
    {
        match &self.title {
            Some(s) => s.clone(),
            None => "<UNKNOWN>".to_owned(),
        }
    }

    /// The author to display: the stored one, or the placeholder when absent.
    pub fn display_author(&self) -> (r: String)
        ensures
            r@ == spec_display(self@.author),
    {
        match &self.author {
            Some(s) => s.clone(),
            None => "<UNKNOWN>".to_owned(),
        }
    }

    /// Whether this track's handle is the given one; how the reconciler
    /// answers "is this the currently-loaded track".
    pub fn has_handle(&self, handle: &String) -> (r: bool)
        ensures
            r == (self@.playable_handle == handle@),
    {
        self.playable_handle == *handle
    }
}

} // verus!
