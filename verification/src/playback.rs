//! The playback session: which track plays, and which plays next.
//!
//! The application starts one player process per track and waits for it to
//! end. Each time it ends, the application looks once into the queue of
//! transport commands and reports what it found; the session answers with
//! the track to play next, or ends.

use vstd::prelude::*;
use vstd::arithmetic::div_mod::{
    lemma_add_mod_noop_right, lemma_mod_add_multiples_vanish, lemma_mod_bound, lemma_small_mod,
};
use crate::library::{track_views, Collection, CollectionView, Track, TrackView};
use crate::text::texts;
use crate::transport::{TransportCommand, TransportQueue};

verus! {

/// The track after `current` in a cyclic list of `count` tracks.
pub open spec fn next_index(current: nat, count: nat) -> nat {
    (current + 1) % count
}

/// The track before `current`; before the first track there is only the first track.
pub open spec fn previous_index(current: nat) -> nat {
    if current == 0 {
        0
    } else {
        (current - 1) as nat
    }
}

/// The locations of all tracks in playing order, from track `start` on and
/// around the end of the list back to the track before it.
pub open spec fn play_order(tracks: Seq<TrackView>, start: nat) -> Seq<Seq<char>> {
    Seq::new(tracks.len(), |k: int| tracks[(start + k) % (tracks.len() as int)].location)
}

/// Model of a [`PlaybackSession`].
pub struct SessionView {
    pub collection: CollectionView,
    pub current: nat,
}

impl SessionView {
    /// The current track is a track of the collection.
    pub open spec fn wf(self) -> bool {
        self.current < self.collection.tracks.len()
    }

    /// The track that plays.
    pub open spec fn track(self) -> TrackView {
        self.collection.tracks[self.current as int]
    }

    /// The same session on another track.
    pub open spec fn on(self, index: nat) -> SessionView {
        SessionView { collection: self.collection, current: index }
    }

    /// The session after its player has ended, by what the queue held at
    /// that moment. An empty queue means that the track came to its end,
    /// and the next track follows as if it had been asked for. A pause
    /// request concerns the player alone and leaves the track as it is.
    pub open spec fn after_exit(self, queued: Option<TransportCommand>) -> PlaybackOutcomeView {
        match queued {
            Some(TransportCommand::SkipPrevious) => PlaybackOutcomeView::Play(
                self.on(previous_index(self.current)),
            ),
            Some(TransportCommand::SkipNext) | None => PlaybackOutcomeView::Play(
                self.on(next_index(self.current, self.collection.tracks.len())),
            ),
            Some(TransportCommand::Stop) => PlaybackOutcomeView::Ended(SessionEnd::Stopped),
            Some(TransportCommand::TogglePause) => PlaybackOutcomeView::Play(self),
        }
    }

    /// The session and the queue after the player has ended: the oldest
    /// waiting command, if there is one, leaves the queue and decides.
    pub open spec fn at_boundary(self, waiting: Seq<TransportCommand>) -> (
        PlaybackOutcomeView,
        Seq<TransportCommand>,
    ) {
        if waiting.len() == 0 {
            (self.after_exit(None), waiting)
        } else {
            (self.after_exit(Some(waiting[0])), waiting.drop_first())
        }
    }

    /// The session after an event of its player.
    pub open spec fn next(self, event: PlaybackEvent) -> PlaybackOutcomeView {
        match event {
            PlaybackEvent::Exited(queued) => self.after_exit(queued),
            PlaybackEvent::SpawnFailed => PlaybackOutcomeView::Ended(SessionEnd::SpawnFailed),
        }
    }

    /// The session after `n` tracks in a row have played to their end.
    pub open spec fn after_completions(self, n: nat) -> SessionView
        decreases n,
    {
        if n == 0 {
            self
        } else {
            let before = self.after_completions((n - 1) as nat);
            before.on(next_index(before.current, before.collection.tracks.len()))
        }
    }
}

/// What the application reports about the player of the current track.
#[derive(Clone, Copy, Debug, PartialEq, Eq, Structural)]
pub enum PlaybackEvent {
    /// The player has ended; the queue of transport commands held this.
    Exited(Option<TransportCommand>),
    /// The player could not be started.
    SpawnFailed,
}

/// Why a session is over.
#[derive(Clone, Copy, Debug, PartialEq, Eq, Structural)]
pub enum SessionEnd {
    /// A stop was asked for.
    Stopped,
    /// The player could not be started.
    SpawnFailed,
}

/// Model of a [`PlaybackOutcome`].
pub enum PlaybackOutcomeView {
    Play(SessionView),
    Ended(SessionEnd),
}

/// A collection being played, and the track it is at.
#[derive(Clone, Copy, Debug, PartialEq, Eq)]
pub struct PlaybackSession<'a> {
    collection: &'a Collection,
    current_track_index: usize,
}

/// What the application does after an event of the player.
#[derive(Clone, Copy, Debug, PartialEq, Eq)]
pub enum PlaybackOutcome<'a> {
    /// Start the player on the current track of this session.
    Play(PlaybackSession<'a>),
    /// Go back to the choice of a collection.
    Ended(SessionEnd),
}

impl<'a> View for PlaybackSession<'a> {
    type V = SessionView;

    closed spec fn view(&self) -> SessionView {
        SessionView { collection: self.collection@, current: self.current_track_index as nat }
    }
}

impl<'a> View for PlaybackOutcome<'a> {
    type V = PlaybackOutcomeView;

    open spec fn view(&self) -> PlaybackOutcomeView {
        match *self {
            PlaybackOutcome::Play(s) => PlaybackOutcomeView::Play(s@),
            PlaybackOutcome::Ended(e) => PlaybackOutcomeView::Ended(e),
        }
    }
}

impl<'a> PlaybackSession<'a> {
    #[verifier::type_invariant]
    spec fn inv(self) -> bool {
        self.current_track_index < self.collection@.tracks.len()
    }

    /// A session on track `starting_index` of the collection, or `None`
    /// when the collection has no such track.
    pub fn start(collection: &'a Collection, starting_index: usize) -> (res: Option<PlaybackSession<'a>>)
        ensures
            starting_index < collection@.tracks.len() <==> res is Some,
            res matches Some(s) ==> s@ == (SessionView {
                collection: collection@,
                current: starting_index as nat,
            }),
            collection@.wf(),
    {
        if starting_index < collection.tracks().len() {
            Some(PlaybackSession { collection, current_track_index: starting_index })
        } else {
            None
        }
    }

    /// A session on a track that the collection is known to have.
    pub(crate) fn on_track(collection: &'a Collection, index: usize) -> (res: PlaybackSession<'a>)
        requires
            index < collection@.tracks.len(),
        ensures
            res@ == (SessionView { collection: collection@, current: index as nat }),
    {
        PlaybackSession { collection, current_track_index: index }
    }

    /// The collection being played.
    pub fn collection(&self) -> (res: &'a Collection)
        ensures
            res@ == self@.collection,
    {
        self.collection
    }

    /// The position of the current track in the collection.
    pub fn current_track_index(&self) -> (res: usize)
        ensures
            res == self@.current,
            self@.wf(),
    {
        proof {
            use_type_invariant(self);
        }
        self.current_track_index
    }

    /// The track that plays.
    pub fn current_track(&self) -> (res: &'a Track)
        ensures
            res@ == self@.track(),
            self@.wf(),
    {
        proof {
            use_type_invariant(self);
        }
        let tracks = self.collection.tracks();
        &tracks[self.current_track_index]
    }

    /// Answers the end of the player: looks into the queue once, takes out
    /// the oldest command if there is one, and decides by it. Whatever else
    /// waits in the queue stays there for the next time.
    pub fn on_player_exit(self, queue: &mut TransportQueue) -> (res: PlaybackOutcome<'a>)
        ensures
            (res@, final(queue)@) == self@.at_boundary(old(queue)@),
            self@.wf(),
    {
        let queued = queue.take();
        self.on_event(PlaybackEvent::Exited(queued))
    }

    /// Answers an event of the player with what to do next.
    pub fn on_event(self, event: PlaybackEvent) -> (res: PlaybackOutcome<'a>)
        ensures
            res@ == self@.next(event),
            self@.wf(),
    {
        proof {
            use_type_invariant(self);
        }
        let count = self.collection.tracks().len();
        let current = self.current_track_index;
        match event {
            PlaybackEvent::SpawnFailed => PlaybackOutcome::Ended(SessionEnd::SpawnFailed),
            PlaybackEvent::Exited(queued) => match queued {
                Some(TransportCommand::Stop) => PlaybackOutcome::Ended(SessionEnd::Stopped),
                Some(TransportCommand::TogglePause) => PlaybackOutcome::Play(self),
                Some(TransportCommand::SkipPrevious) => {
                    let index = if current == 0 {
                        0
                    } else {
                        current - 1
                    };
                    PlaybackOutcome::Play(
                        PlaybackSession { collection: self.collection, current_track_index: index },
                    )
                },
                _ => {
                    let index = (current + 1) % count;
                    PlaybackOutcome::Play(
                        PlaybackSession { collection: self.collection, current_track_index: index },
                    )
                },
            },
        }
    }
}

/// Lists the locations of the tracks of a collection in the order in which
/// they play, beginning with `current_track`: first the tracks from there to
/// the end, then those from the beginning up to it. A start beyond the last
/// track counts around the list.
pub fn create_playlist<'a>(current_track: usize, collection: &'a Collection) -> (res: Vec<&'a str>)
    ensures
        texts(res@) == play_order(collection@.tracks, current_track as nat),
{
    let tracks = collection.tracks();
    let count = tracks.len();
    let start = current_track % count;
    let ghost model = collection@.tracks;
    let mut playlist: Vec<&'a str> = Vec::new();
    let mut i: usize = start;
    while i < count
        invariant
            start <= i <= count,
            count == tracks@.len(),
            model == track_views(tracks@),
            playlist@.len() == i - start,
            forall|k: int| 0 <= k < playlist@.len() ==> (#[trigger] playlist@[k])@ == model[start + k].location,
        decreases count - i,
    {
        playlist.push(tracks[i].location());
        i += 1;
    }
    let mut j: usize = 0;
    while j < start
        invariant
            j <= start < count,
            count == tracks@.len(),
            model == track_views(tracks@),
            playlist@.len() == count - start + j,
            forall|k: int| 0 <= k < count - start ==> (#[trigger] playlist@[k])@ == model[start + k].location,
            forall|k: int| count - start <= k < playlist@.len() ==> (#[trigger] playlist@[k])@ == model[k - (count - start)].location,
        decreases start - j,
    {
        playlist.push(tracks[j].location());
        j += 1;
    }
    proof {
        let n = count as int;
        assert forall|k: int| 0 <= k < n implies (#[trigger] texts(playlist@)[k]) == play_order(
            model,
            current_track as nat,
        )[k] by {
            lemma_add_mod_noop_right(k, current_track as int, n);
            if k < n - start {
                lemma_small_mod((start + k) as nat, n as nat);
            } else {
                lemma_mod_add_multiples_vanish(k - (n - start), n);
                lemma_small_mod((k - (n - start)) as nat, n as nat);
            }
        }
        assert(texts(playlist@) =~= play_order(model, current_track as nat));
    }
    playlist
}

/// Whatever happens to its player, a session that goes on stays on its
/// collection and on one of its tracks: only the position changes.
pub proof fn lemma_session_stays_on_collection(session: SessionView, event: PlaybackEvent)
    requires
        session.wf(),
    ensures
        session.next(event) matches PlaybackOutcomeView::Play(next) ==> next.wf() && next.collection
            == session.collection,
{
    if event == PlaybackEvent::Exited(None) || event == PlaybackEvent::Exited(
        Some(TransportCommand::SkipNext),
    ) {
        lemma_mod_bound((session.current + 1) as int, session.collection.tracks.len() as int);
    }
}

/// Tracks that play to their end follow each other around the collection:
/// after `n` of them the session is at track `(start + n) mod count` of the
/// same collection, and each step is the answer to a player that ended with
/// nothing queued.
pub proof fn lemma_completions_cycle(session: SessionView, n: nat)
    requires
        session.wf(),
    ensures
        session.after_completions(n).wf(),
        session.after_completions(n).collection == session.collection,
        session.after_completions(n).current == (session.current + n) % session.collection.tracks.len(),
        session.after_completions(n).next(PlaybackEvent::Exited(None)) == PlaybackOutcomeView::Play(
            session.after_completions(n + 1),
        ),
    decreases n,
{
    let count = session.collection.tracks.len() as int;
    if n == 0 {
        lemma_small_mod(session.current, count as nat);
    } else {
        lemma_completions_cycle(session, (n - 1) as nat);
        lemma_add_mod_noop_right(1, session.current + n - 1, count);
    }
    assert(session.after_completions(n + 1) == session.after_completions(n).on(
        next_index(session.after_completions(n).current, count as nat),
    ));
}

/// The cycle can be run again: once every track of the collection has
/// played to its end, the session is where it started.
pub proof fn lemma_cycle_returns_to_start(session: SessionView)
    requires
        session.wf(),
    ensures
        session.after_completions(session.collection.tracks.len()) == session,
{
    let count = session.collection.tracks.len();
    lemma_completions_cycle(session, count);
    lemma_mod_add_multiples_vanish(session.current as int, count as int);
    lemma_small_mod(session.current, count);
}

/// The playing order is the order of the cycle: entry `k` of the play order
/// from the current track is the location of the track that plays after `k`
/// tracks have come to their end.
pub proof fn lemma_play_order_follows_cycle(session: SessionView, k: nat)
    requires
        session.wf(),
        k < session.collection.tracks.len(),
    ensures
        play_order(session.collection.tracks, session.current)[k as int] == session.after_completions(
            k,
        ).track().location,
{
    lemma_completions_cycle(session, k);
}

/// Each time the player ends, one waiting command at most is consulted:
/// the oldest. What came after it is not lost; it keeps waiting, in order,
/// for the next time the player ends.
pub proof fn lemma_boundary_consults_one(session: SessionView, oldest: TransportCommand, later: Seq<TransportCommand>)
    ensures
        session.at_boundary(seq![oldest] + later) == (session.after_exit(Some(oldest)), later),
        session.at_boundary(Seq::empty()) == (session.after_exit(None), Seq::<TransportCommand>::empty()),
{
    assert((seq![oldest] + later).drop_first() =~= later);
}

/// Asking for the previous track on the first track leaves the session on
/// the first track, and asking again leaves it there again: the index is
/// held at zero and does not pass around to the last track.
pub proof fn lemma_previous_holds_at_first(session: SessionView)
    requires
        session.wf(),
        session.current == 0,
    ensures
        session.next(PlaybackEvent::Exited(Some(TransportCommand::SkipPrevious)))
            == PlaybackOutcomeView::Play(session),
        session.next(PlaybackEvent::Exited(Some(TransportCommand::SkipPrevious)))->Play_0.next(
            PlaybackEvent::Exited(Some(TransportCommand::SkipPrevious)),
        ) == PlaybackOutcomeView::Play(session),
        session.next(PlaybackEvent::Exited(Some(TransportCommand::SkipPrevious)))->Play_0.current == 0,
{
}

/// Asking for the previous track anywhere but on the first track moves the
/// session one track back.
pub proof fn lemma_previous_steps_back(session: SessionView)
    requires
        session.wf(),
        session.current > 0,
    ensures
        session.next(PlaybackEvent::Exited(Some(TransportCommand::SkipPrevious)))
            == PlaybackOutcomeView::Play(session.on((session.current - 1) as nat)),
{
}

} // verus!
