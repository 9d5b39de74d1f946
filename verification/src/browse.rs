//! Browsing the library: the collection screen, the track screen below it,
//! and the hand-over to playback.
//!
//! The application shows what [`Browser::presentation`] describes, waits for
//! a command and passes it to [`Browser::step`], until the browser hands
//! over a playback session or the program is quit.

use vstd::prelude::*;
use crate::cursor::{Cursor, CursorView};
use crate::input::{command_of, Command, Key, ListenMode};
use crate::library::{CollectionView, Library, LibraryView};
use crate::menu::{menu_next, menu_step, MenuOutcome, MenuOutcomeView};
use crate::playback::{PlaybackSession, SessionView};
use crate::text::texts;
use crate::transport::{transport_action_of, ControlMessage, ListenerNext};

verus! {

/// The title of the screen that lists the collections.
pub open spec fn collections_title() -> Seq<char> {
    "choose collection"@
}

/// The title of the screen that lists the tracks of the chosen collection.
pub open spec fn tracks_title() -> Seq<char> {
    "select starting track"@
}

/// The names of a sequence of collections, in order.
pub open spec fn collection_names(collections: Seq<CollectionView>) -> Seq<Seq<char>> {
    Seq::new(collections.len(), |i: int| collections[i].name)
}

/// The names of the tracks of a collection, in order.
pub open spec fn track_names(collection: CollectionView) -> Seq<Seq<char>> {
    Seq::new(collection.tracks.len(), |i: int| collection.tracks[i].name)
}

/// Model of a [`Presentation`].
pub struct PresentationView {
    pub title: Seq<char>,
    pub items: Seq<Seq<char>>,
    pub highlighted: nat,
}

/// What a screen shows: a title, the names of its entries, and the
/// position of the highlighted entry.
#[derive(Debug, PartialEq, Eq)]
pub struct Presentation<'a> {
    pub title: &'static str,
    pub items: Vec<&'a str>,
    pub highlighted: usize,
}

impl<'a> View for Presentation<'a> {
    type V = PresentationView;

    open spec fn view(&self) -> PresentationView {
        PresentationView {
            title: self.title@,
            items: texts(self.items@),
            highlighted: self.highlighted as nat,
        }
    }
}

/// Model of a [`Browser`].
pub struct BrowserView {
    pub library: LibraryView,
    /// The cursor of the collection screen.
    pub collections: CursorView,
    /// The cursor of the track screen, while that screen is open.
    pub tracks: Option<CursorView>,
}

/// Model of a [`BrowseOutcome`].
pub enum BrowseOutcomeView {
    Continue(BrowserView),
    Play(SessionView),
    Quit,
}

impl BrowserView {
    /// Each cursor moves over the list its screen shows: the collection
    /// cursor over the collections of the library, the track cursor over
    /// the tracks of the highlighted collection.
    pub open spec fn wf(self) -> bool {
        &&& self.library.wf()
        &&& self.collections.wf()
        &&& self.collections.bound == self.library.collections.len()
        &&& self.tracks matches Some(t) ==> t.wf() && t.bound == self.chosen().tracks.len()
    }

    /// The collection under the cursor of the collection screen.
    pub open spec fn chosen(self) -> CollectionView {
        self.library.collections[self.collections.index as int]
    }

    /// The browser when it is started: the collection screen, on its first entry.
    pub open spec fn initial(library: LibraryView) -> BrowserView {
        BrowserView {
            library,
            collections: CursorView { index: 0, bound: library.collections.len() },
            tracks: None,
        }
    }

    /// What the open screen shows.
    pub open spec fn presentation(self) -> PresentationView {
        match self.tracks {
            None => PresentationView {
                title: collections_title(),
                items: collection_names(self.library.collections),
                highlighted: self.collections.index,
            },
            Some(t) => PresentationView {
                title: tracks_title(),
                items: track_names(self.chosen()),
                highlighted: t.index,
            },
        }
    }

    /// The transition of the browser.
    ///
    /// On the collection screen a confirmed choice opens the track screen of
    /// that collection on its first track; there is no screen to go back to,
    /// so going back changes nothing. On the track screen a confirmed choice
    /// starts playback of the collection at that track, and going back
    /// returns to the collection screen with its cursor where it was.
    pub open spec fn step(self, command: Command) -> BrowseOutcomeView {
        match self.tracks {
            None => match menu_next(self.collections, command) {
                MenuOutcomeView::Continue(c) => BrowseOutcomeView::Continue(
                    BrowserView { library: self.library, collections: c, tracks: None },
                ),
                MenuOutcomeView::Selected(i) => BrowseOutcomeView::Continue(
                    BrowserView {
                        library: self.library,
                        collections: self.collections,
                        tracks: Some(CursorView { index: 0, bound: self.library.collections[i as int].tracks.len() }),
                    },
                ),
                MenuOutcomeView::Cancelled => BrowseOutcomeView::Continue(self),
                MenuOutcomeView::Quit => BrowseOutcomeView::Quit,
            },
            Some(t) => match menu_next(t, command) {
                MenuOutcomeView::Continue(c) => BrowseOutcomeView::Continue(
                    BrowserView { library: self.library, collections: self.collections, tracks: Some(c) },
                ),
                MenuOutcomeView::Selected(i) => BrowseOutcomeView::Play(
                    SessionView { collection: self.chosen(), current: i },
                ),
                MenuOutcomeView::Cancelled => BrowseOutcomeView::Continue(
                    BrowserView { library: self.library, collections: self.collections, tracks: None },
                ),
                MenuOutcomeView::Quit => BrowseOutcomeView::Quit,
            },
        }
    }
}

/// The two menu levels over a library.
#[derive(Clone, Copy, Debug, PartialEq, Eq)]
pub struct Browser<'a> {
    library: &'a Library,
    collections: Cursor,
    tracks: Option<Cursor>,
}

/// What the application does after a command.
#[derive(Clone, Copy, Debug, PartialEq, Eq)]
pub enum BrowseOutcome<'a> {
    /// Show the browser's screen and wait for the next command.
    Continue(Browser<'a>),
    /// Play this session; when it is over, start browsing anew.
    Play(PlaybackSession<'a>),
    /// End the program.
    Quit,
}

impl<'a> View for Browser<'a> {
    type V = BrowserView;

    closed spec fn view(&self) -> BrowserView {
        BrowserView {
            library: self.library@,
            collections: self.collections@,
            tracks: match self.tracks {
                Some(t) => Some(t@),
                None => None,
            },
        }
    }
}

impl<'a> View for BrowseOutcome<'a> {
    type V = BrowseOutcomeView;

    open spec fn view(&self) -> BrowseOutcomeView {
        match *self {
            BrowseOutcome::Continue(b) => BrowseOutcomeView::Continue(b@),
            BrowseOutcome::Play(s) => BrowseOutcomeView::Play(s@),
            BrowseOutcome::Quit => BrowseOutcomeView::Quit,
        }
    }
}

impl<'a> Browser<'a> {
    #[verifier::type_invariant]
    spec fn inv(self) -> bool {
        &&& self.collections@.wf()
        &&& self.collections@.bound == self.library@.collections.len()
        &&& self.tracks matches Some(t) ==> t@.wf() && t@.bound
            == self.library@.collections[self.collections@.index as int].tracks.len()
    }

    /// A browser on the collection screen of the library, or `None` when
    /// the library offers no collection to choose from.
    pub fn new(library: &'a Library) -> (res: Option<Browser<'a>>)
        ensures
            library@.collections.len() == 0 <==> res is None,
            res matches Some(b) ==> b@ == BrowserView::initial(library@) && b@.wf(),
    {
        match Cursor::new(library.collections().len()) {
            Some(collections) => Some(Browser { library, collections, tracks: None }),
            None => None,
        }
    }

    /// What to show before the next command is read.
    pub fn presentation(&self) -> (res: Presentation<'a>)
        ensures
            res@ == self@.presentation(),
            self@.wf(),
    {
        proof {
            use_type_invariant(self);
        }
        let collections = self.library.collections();
        match self.tracks {
            None => {
                let mut items: Vec<&'a str> = Vec::new();
                let mut i: usize = 0;
                while i < collections.len()
                    invariant
                        i <= collections@.len(),
                        items@.len() == i,
                        forall|k: int| 0 <= k < i ==> (#[trigger] items@[k])@ == collections@[k]@.name,
                    decreases collections@.len() - i,
                {
                    items.push(collections[i].name());
                    i += 1;
                }
                let res = Presentation { title: "choose collection", items, highlighted: self.collections.index() };
                assert(res@.items =~= self@.presentation().items);
                res
            },
            Some(cursor) => {
                let tracks = collections[self.collections.index()].tracks();
                let mut items: Vec<&'a str> = Vec::new();
                let mut i: usize = 0;
                while i < tracks.len()
                    invariant
                        i <= tracks@.len(),
                        items@.len() == i,
                        forall|k: int| 0 <= k < i ==> (#[trigger] items@[k])@ == tracks@[k]@.name,
                    decreases tracks@.len() - i,
                {
                    items.push(tracks[i].name());
                    i += 1;
                }
                let res = Presentation { title: "select starting track", items, highlighted: cursor.index() };
                assert(res@.items =~= self@.presentation().items);
                res
            },
        }
    }

    /// Applies one command to the open screen.
    pub fn step(self, command: Command) -> (res: BrowseOutcome<'a>)
        ensures
            res@ == self@.step(command),
            self@.wf(),
    {
        proof {
            use_type_invariant(self);
        }
        let collections = self.library.collections();
        match self.tracks {
            None => match menu_step(self.collections, command) {
                MenuOutcome::Continue(cursor) => BrowseOutcome::Continue(
                    Browser { library: self.library, collections: cursor, tracks: None },
                ),
                MenuOutcome::Selected(index) => {
                    let count = collections[index].tracks().len();
                    BrowseOutcome::Continue(
                        Browser {
                            library: self.library,
                            collections: self.collections,
                            tracks: Some(Cursor::first(count)),
                        },
                    )
                },
                MenuOutcome::Cancelled => BrowseOutcome::Continue(self),
                MenuOutcome::Quit => BrowseOutcome::Quit,
            },
            Some(tracks) => match menu_step(tracks, command) {
                MenuOutcome::Continue(cursor) => BrowseOutcome::Continue(
                    Browser { library: self.library, collections: self.collections, tracks: Some(cursor) },
                ),
                MenuOutcome::Selected(index) => BrowseOutcome::Play(
                    PlaybackSession::on_track(&collections[self.collections.index()], index),
                ),
                MenuOutcome::Cancelled => BrowseOutcome::Continue(
                    Browser { library: self.library, collections: self.collections, tracks: None },
                ),
                MenuOutcome::Quit => BrowseOutcome::Quit,
            },
        }
    }
}

/// A step keeps the browser in order: the library stays the same, the
/// cursors stay within their lists, and a session that is handed over plays
/// the highlighted collection at one of its tracks.
pub proof fn lemma_step_keeps_order(browser: BrowserView, command: Command)
    requires
        browser.wf(),
    ensures
        match browser.step(command) {
            BrowseOutcomeView::Continue(next) => next.wf() && next.library == browser.library,
            BrowseOutcomeView::Play(session) => session.wf() && session.collection == browser.chosen(),
            BrowseOutcomeView::Quit => true,
        },
{
}

/// Going back from the track screen returns to the collection screen of the
/// same library with its cursor where it was, whatever the track cursor was
/// on; the screen shows the list of collections with the same entry
/// highlighted.
pub proof fn lemma_back_returns_to_collections(browser: BrowserView)
    requires
        browser.wf(),
        browser.tracks is Some,
    ensures
        browser.step(Command::Back) == BrowseOutcomeView::Continue(
            BrowserView { library: browser.library, collections: browser.collections, tracks: None },
        ),
        browser.step(Command::Back)->Continue_0.presentation() == (PresentationView {
            title: collections_title(),
            items: collection_names(browser.library.collections),
            highlighted: browser.collections.index,
        }),
{
}

/// While the track screen is open, no command that keeps it open touches the
/// cursor of the collection screen.
pub proof fn lemma_track_screen_keeps_collection_cursor(browser: BrowserView, command: Command)
    requires
        browser.wf(),
        browser.tracks is Some,
    ensures
        browser.step(command) matches BrowseOutcomeView::Continue(next) ==> next.collections
            == browser.collections,
{
}

/// Opening the track screen of a collection and going back leads to the
/// collection screen as it was before.
pub proof fn lemma_descend_and_back(browser: BrowserView)
    requires
        browser.wf(),
        browser.tracks is None,
    ensures
        browser.step(Command::Select) matches BrowseOutcomeView::Continue(opened) && opened.tracks
            is Some && opened.step(Command::Back) == BrowseOutcomeView::Continue(browser),
{
}

/// Quitting ends the program from everywhere. Esc and `q` are heard as a
/// quit in both listening modes; a menu screen and the browser on either
/// screen answer a quit by ending, with no state left to show; and the
/// transport listener answers it by stopping the player and ending the
/// program.
pub proof fn lemma_quit_ends_the_program(mode: ListenMode, cursor: CursorView, browser: BrowserView)
    ensures
        command_of(mode, Key::Esc) == Some(Command::Quit),
        command_of(mode, Key::Char('q')) == Some(Command::Quit),
        menu_next(cursor, Command::Quit) == MenuOutcomeView::Quit,
        browser.step(Command::Quit) == BrowseOutcomeView::Quit,
        transport_action_of(Command::Quit).next == ListenerNext::Quit,
        transport_action_of(Command::Quit).control == Some(ControlMessage::Stop),
        transport_action_of(Command::Quit).enqueue is None,
{
}

} // verus!
