use rusty_player::browse::{BrowseOutcome, Browser};
use rusty_player::input::{listen, Command, InputEvent, Key, KeyPhase, ListenMode};
use rusty_player::library::{Collection, Library, Track};
use rusty_player::playback::{PlaybackEvent, PlaybackOutcome, PlaybackSession, SessionEnd};
use rusty_player::transport::{transport_action, ControlMessage, ListenerNext, TransportCommand};

fn track(name: &str) -> Track {
    Track::new(name.to_string(), format!("/music/{}.mp3", name))
}

fn two_collections() -> Library {
    let first = Collection::new("First".to_string(), vec![track("A"), track("B"), track("C")]).unwrap();
    let second = Collection::new("Second".to_string(), vec![track("X")]).unwrap();
    Library::new(vec![first, second])
}

fn press(key: Key) -> Command {
    listen(ListenMode::Menu, Ok(InputEvent::Key { key, phase: KeyPhase::Press })).unwrap()
}

fn browse<'a>(library: &'a Library, keys: &[Key]) -> BrowseOutcome<'a> {
    let mut outcome = BrowseOutcome::Continue(Browser::new(library).unwrap());
    for key in keys {
        outcome = match outcome {
            BrowseOutcome::Continue(browser) => browser.step(press(*key)),
            done => done,
        };
    }
    outcome
}

fn play_on<'a>(session: PlaybackSession<'a>, queued: Option<TransportCommand>) -> PlaybackSession<'a> {
    match session.on_event(PlaybackEvent::Exited(queued)) {
        PlaybackOutcome::Play(s) => s,
        PlaybackOutcome::Ended(end) => panic!("the session ended: {:?}", end),
    }
}

#[test]
fn choosing_the_last_track_plays_c_a_b() {
    let library = two_collections();
    let outcome = browse(&library, &[Key::Enter, Key::Down, Key::Down, Key::Enter]);
    let mut session = match outcome {
        BrowseOutcome::Play(session) => session,
        other => panic!("no playback: {:?}", other),
    };
    assert_eq!(session.collection().name(), "First");
    assert_eq!(session.current_track_index(), 2);
    let mut played = vec![session.current_track().name().to_string()];
    for _ in 0..2 {
        session = play_on(session, None);
        played.push(session.current_track().name().to_string());
    }
    assert_eq!(played, vec!["C", "A", "B"]);
    session = play_on(session, None);
    assert_eq!(session.current_track().name(), "C");
}

#[test]
fn down_then_select_enters_the_second_collection() {
    let library = two_collections();
    match browse(&library, &[Key::Down, Key::Right]) {
        BrowseOutcome::Continue(browser) => {
            assert_eq!(browser.presentation().items, vec!["X"]);
            assert_eq!(browser.presentation().title, "select starting track");
        }
        other => panic!("the browser stopped: {:?}", other),
    }
}

#[test]
fn previous_from_b_goes_to_a_and_holds_there() {
    let library = two_collections();
    let collection = &library.collections()[0];
    let session = PlaybackSession::start(collection, 1).unwrap();
    assert_eq!(session.current_track().name(), "B");

    let heard = listen(ListenMode::Transport, Ok(InputEvent::Key { key: Key::Left, phase: KeyPhase::Press }))
        .unwrap();
    let action = transport_action(heard);
    assert_eq!(action.enqueue, Some(TransportCommand::SkipPrevious));
    assert_eq!(action.control, Some(ControlMessage::Stop));
    assert_eq!(action.next, ListenerNext::Listen);

    let session = play_on(session, action.enqueue);
    assert_eq!(session.current_track().name(), "A");
    assert_eq!(session.current_track_index(), 0);

    let session = play_on(session, Some(TransportCommand::SkipPrevious));
    assert_eq!(session.current_track().name(), "A");
    assert_eq!(session.current_track_index(), 0);
}

#[test]
fn quit_is_heard_at_every_depth() {
    let library = two_collections();
    assert_eq!(browse(&library, &[Key::Esc]), BrowseOutcome::Quit);
    assert_eq!(browse(&library, &[Key::Down, Key::Char('q')]), BrowseOutcome::Quit);
    assert_eq!(browse(&library, &[Key::Enter, Key::Down, Key::Esc]), BrowseOutcome::Quit);
    assert_eq!(browse(&library, &[Key::Enter, Key::Char('q'), Key::Enter]), BrowseOutcome::Quit);
    for key in [Key::Esc, Key::Char('q')] {
        let heard = listen(ListenMode::Transport, Ok(InputEvent::Key { key, phase: KeyPhase::Press })).unwrap();
        assert_eq!(transport_action(heard).next, ListenerNext::Quit);
    }
}

#[test]
fn a_stopped_session_leads_back_to_a_fresh_collection_screen() {
    let library = two_collections();
    let session = match browse(&library, &[Key::Down, Key::Enter, Key::Enter]) {
        BrowseOutcome::Play(session) => session,
        other => panic!("no playback: {:?}", other),
    };
    assert_eq!(
        session.on_event(PlaybackEvent::Exited(Some(TransportCommand::Stop))),
        PlaybackOutcome::Ended(SessionEnd::Stopped)
    );
    let browser = Browser::new(&library).unwrap();
    assert_eq!(browser.presentation().title, "choose collection");
    assert_eq!(browser.presentation().highlighted, 0);
}
