//! The playlist library: collections of tracks, loaded once and then only read.

use vstd::prelude::*;

verus! {

/// Why a configuration was refused.
#[derive(Clone, Copy, Debug, PartialEq, Eq, Structural)]
pub enum ConfigError {
    /// The text is no JSON document.
    Malformed,
    /// An object lacks a key that the library needs.
    MissingKey,
    /// A value is present but is not of the kind that the library needs.
    WrongShape,
    /// A collection holds no track.
    EmptyCollection,
}

/// Model of a [`Track`].
pub struct TrackView {
    pub name: Seq<char>,
    pub location: Seq<char>,
}

/// A track: what it is called and where its media lies (a path or a URI).
#[derive(Debug, PartialEq, Eq)]
pub struct Track {
    name: String,
    location: String,
}

impl View for Track {
    type V = TrackView;

    closed spec fn view(&self) -> TrackView {
        TrackView { name: self.name@, location: self.location@ }
    }
}

impl Track {
    /// A track of the given name at the given location.
    pub fn new(name: String, location: String) -> (res: Track)
        ensures
            res@ == (TrackView { name: name@, location: location@ }),
    {
        Track { name, location }
    }

    /// What the track is called.
    pub fn name(&self) -> (res: &str)
        ensures
            res@ == self@.name,
    {
        self.name.as_str()
    }

    /// Where the media of the track lies.
    pub fn location(&self) -> (res: &str)
        ensures
            res@ == self@.location,
    {
        self.location.as_str()
    }
}

/// The models of a sequence of tracks, in order.
pub open spec fn track_views(tracks: Seq<Track>) -> Seq<TrackView> {
    Seq::new(tracks.len(), |i: int| tracks[i]@)
}

/// Model of a [`Collection`].
pub struct CollectionView {
    pub name: Seq<char>,
    pub tracks: Seq<TrackView>,
}

impl CollectionView {
    /// A collection holds at least one track.
    pub open spec fn wf(self) -> bool {
        self.tracks.len() > 0
    }
}

/// An ordered playlist of tracks, never empty.
#[derive(Debug, PartialEq, Eq)]
pub struct Collection {
    name: String,
    tracks: Vec<Track>,
}

impl View for Collection {
    type V = CollectionView;

    closed spec fn view(&self) -> CollectionView {
        CollectionView { name: self.name@, tracks: track_views(self.tracks@) }
    }
}

impl Collection {
    #[verifier::type_invariant]
    spec fn inv(self) -> bool {
        self.tracks@.len() > 0
    }

    /// A collection of the given tracks; a collection without tracks is refused.
    pub fn new(name: String, tracks: Vec<Track>) -> (res: Result<Collection, ConfigError>)
        ensures
            tracks@.len() == 0 <==> res is Err,
            res matches Err(e) ==> e == ConfigError::EmptyCollection,
            res matches Ok(c) ==> c@ == (CollectionView { name: name@, tracks: track_views(tracks@) }),
    {
        if tracks.len() == 0 {
            Err(ConfigError::EmptyCollection)
        } else {
            Ok(Collection { name, tracks })
        }
    }

    /// What the collection is called.
    pub fn name(&self) -> (res: &str)
        ensures
            res@ == self@.name,
    {
        self.name.as_str()
    }

    /// The tracks in playing order; there is always at least one.
    pub fn tracks(&self) -> (res: &Vec<Track>)
        ensures
            track_views(res@) == self@.tracks,
            res@.len() > 0,
            self@.wf(),
    {
        proof {
            use_type_invariant(self);
        }
        &self.tracks
    }
}

/// The models of a sequence of collections, in order.
pub open spec fn collection_views(collections: Seq<Collection>) -> Seq<CollectionView> {
    Seq::new(collections.len(), |i: int| collections[i]@)
}

/// Model of a [`Library`].
pub struct LibraryView {
    pub collections: Seq<CollectionView>,
}

impl LibraryView {
    /// Every collection of the library holds at least one track.
    pub open spec fn wf(self) -> bool {
        forall|i: int| 0 <= i < self.collections.len() ==> (#[trigger] self.collections[i]).wf()
    }
}

/// All collections on offer, in the order of the configuration.
#[derive(Debug, PartialEq, Eq)]
pub struct Library {
    collections: Vec<Collection>,
}

impl View for Library {
    type V = LibraryView;

    closed spec fn view(&self) -> LibraryView {
        LibraryView { collections: collection_views(self.collections@) }
    }
}

impl Library {
    #[verifier::type_invariant]
    spec fn inv(self) -> bool {
        forall|i: int| 0 <= i < self.collections@.len() ==> (#[trigger] self.collections@[i])@.wf()
    }

    /// A library of the given collections, in their order.
    pub fn new(collections: Vec<Collection>) -> (res: Library)
        ensures
            res@ == (LibraryView { collections: collection_views(collections@) }),
            res@.wf(),
    {
        let mut i: usize = 0;
        while i < collections.len()
            invariant
                i <= collections@.len(),
                forall|k: int| 0 <= k < i ==> (#[trigger] collections@[k])@.wf(),
            decreases collections@.len() - i,
        {
            let _ = collections[i].tracks();
            i += 1;
        }
        Library { collections }
    }

    /// The collections in display order.
    pub fn collections(&self) -> (res: &Vec<Collection>)
        ensures
            collection_views(res@) == self@.collections,
            self@.wf(),
    {
        proof {
            use_type_invariant(self);
        }
        &self.collections
    }
}

} // verus!
