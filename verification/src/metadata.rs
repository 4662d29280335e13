//! The immutable snapshot of a resolved track, and the small computations
//! commands make over it: the displayed name, the stream request, and the
//! split of a duration into clock parts.

use vstd::prelude::*;
use crate::errors::ResolveError;

verus! {

/// What the resolver reported of one track. Produced once, copied into queue
/// entries, never mutated afterwards.
#[derive(Debug)]
pub struct Metadata {
    pub title: Option<String>,
    pub uploader: Option<String>,
    pub track: Option<String>,
    pub artist: Option<String>,
    /// Length in whole seconds.
    pub duration: Option<u32>,
    pub thumbnail: Option<String>,
    /// Canonical page of the track; a second cache key when present.
    pub webpage_url: Option<String>,
    /// The playable stream; probed for liveness on every cache hit.
    pub url: Option<String>,
}

/// A copy equal to the value cloned, field for field.
fn clone_opt_string(o: &Option<String>) -> (r: Option<String>)
    ensures
        r == *o,
{
    match o {
        Some(s) => Some(s.clone()),
        None => None,
    }
}

impl Clone for Metadata {
    fn clone(&self) -> (r: Self)
        ensures
            r == *self,
    {
        Metadata {
            title: clone_opt_string(&self.title),
            uploader: clone_opt_string(&self.uploader),
            track: clone_opt_string(&self.track),
            artist: clone_opt_string(&self.artist),
            duration: self.duration,
            thumbnail: clone_opt_string(&self.thumbnail),
            webpage_url: clone_opt_string(&self.webpage_url),
            url: clone_opt_string(&self.url),
        }
    }
}

/// The name a track is shown under: its track field when present, else its
/// title, else nothing.
pub open spec fn spec_preferred_title(m: Metadata) -> Option<String> {
    if m.track is Some {
        m.track
    } else {
        m.title
    }
}

impl Metadata {
    /// The name this track is shown under, per `spec_preferred_title`.
    pub fn preferred_title(&self) -> (r: Option<String>)
        ensures
            r == spec_preferred_title(*self),
    {
        match &self.track {
            Some(t) => Some(t.clone()),
            None => clone_opt_string(&self.title),
        }
    }

    /// The URL a playable source is requested from. A resolve that yielded no
    /// stream URL cannot be played: that is a stream-initialisation failure.
    pub fn stream_request(&self) -> (r: Result<String, ResolveError>)
        ensures
            self.url is Some ==> (r matches Ok(u) && Some(u) == self.url),
            self.url is None ==> r == Err::<String, ResolveError>(ResolveError::StreamInit),
    {
        match &self.url {
            Some(u) => Ok(u.clone()),
            None => Err(ResolveError::StreamInit),
        }
    }
}

/// A duration in seconds split into hours, minutes and seconds for display.
pub fn duration_parts(d: u32) -> (r: (u32, u32, u32))
    ensures
        r.0 == d / 3600,
        r.1 == (d % 3600) / 60,
        r.2 == d % 60,
        r.1 < 60,
        r.2 < 60,
{
    let hours = d / 3600;
    let minutes = (d % 3600) / 60;
    let seconds = d % 60;
    assert((d % 3600) / 60 < 60) by (nonlinear_arith);
    (hours, minutes, seconds)
}

/// How many pending entries a queue display shows at most.
pub const DISPLAY_CAP: usize = 50;

/// The names shown for a pending list, one per entry in order, capped at the
/// display limit; an entry naming neither track nor title shows as absent
/// and is worded by the presentation layer.
pub fn display_titles(pending: &Vec<Metadata>) -> (r: Vec<Option<String>>)
    ensures
        r@.len() == if pending@.len() <= DISPLAY_CAP {
            pending@.len()
        } else {
            DISPLAY_CAP as nat
        },
        forall|i: int| 0 <= i < r@.len() ==> r@[i] == spec_preferred_title(pending@[i]),
{
    let mut out: Vec<Option<String>> = Vec::new();
    let cap = if pending.len() <= DISPLAY_CAP {
        pending.len()
    } else {
        DISPLAY_CAP
    };
    let mut i: usize = 0;
    while i < cap
        invariant
            cap <= pending@.len(),
            i <= cap,
            out@.len() == i,
            forall|j: int| 0 <= j < i ==> out@[j] == spec_preferred_title(pending@[j]),
        decreases cap - i,
    {
        out.push(pending[i].preferred_title());
        i = i + 1;
    }
    out
}

/// The entry recorded for one local audio file: keyed by its tag title when
/// one was read, else by its file name; the file name stands as the metadata
/// title and the file's path as its stream URL.
pub fn local_file_entry(
    filename: String,
    title: Option<String>,
    artist: Option<String>,
    duration: Option<u32>,
    path: Option<String>,
) -> (r: (String, Metadata))
    ensures
        title is Some ==> Some(r.0) == title,
        title is None ==> r.0 == filename,
        r.1.title == Some(filename),
        r.1.track == title,
        r.1.artist == artist,
        r.1.duration == duration,
        r.1.url == path,
        r.1.uploader is None,
        r.1.thumbnail is None,
        r.1.webpage_url is None,
{
    let key = match &title {
        Some(t) => t.clone(),
        None => filename.clone(),
    };
    let meta = Metadata {
        title: Some(filename),
        uploader: None,
        track: title,
        artist,
        duration,
        thumbnail: None,
        webpage_url: None,
        url: path,
    };
    (key, meta)
}

} // verus!
