use busbind::fault::{BusFault, FdoFault};
use busbind::mpris2::enumerator::{Enumerator, Event};
use busbind::mpris2::error::Error;
use busbind::mpris2::handle_optional;
use busbind::mpris2::media_player::MediaPlayer;
use busbind::mpris2::metadata::Metadata;
use busbind::mpris2::metadata::MetadataValue;
use busbind::mpris2::player::{LoopStatus, PlaybackStatus, Player};
use busbind::mpris2::playlists::{Playlist, PlaylistId, PlaylistOrdering};
use busbind::mpris2::track::TrackId;
use busbind::mpris2::track_list::TrackList;
use busbind::wire::WireValue;

fn not_supported() -> BusFault {
    BusFault::Fdo(Box::new(FdoFault::NotSupported("member unsupported".to_owned())))
}

fn disconnected() -> BusFault {
    BusFault::Other("connection closed".to_owned())
}

#[test]
fn capability_distinction_rate() {
    let player = Player::new("org.mpris.MediaPlayer2.vlc".to_owned());
    let missing = player.rate(Err(not_supported()));
    assert_eq!(missing.unwrap(), None);
    let broken = player.rate(Err(disconnected()));
    assert!(matches!(broken, Err(Error::Zbus(_))));
    let present = player.rate(Ok(f64::to_bits(1.25)));
    assert_eq!(present.unwrap(), Some(f64::to_bits(1.25)));
}

#[test]
fn handle_optional_maps_only_not_supported() {
    assert_eq!(handle_optional::<u32>(Ok(5)).unwrap(), Some(5));
    assert_eq!(handle_optional::<u32>(Err(not_supported())).unwrap(), None);
    assert!(matches!(
        handle_optional::<u32>(Err(disconnected())),
        Err(Error::Zbus(_))
    ));
    let fdo_other = BusFault::Fdo(Box::new(FdoFault::Other("denied".to_owned())));
    assert!(matches!(handle_optional::<u32>(Err(fdo_other)), Err(Error::Fdo(_))));
}

#[test]
fn error_conversion_unwraps_nesting() {
    let nested = BusFault::Fdo(Box::new(FdoFault::Other("denied".to_owned())));
    assert!(matches!(Error::from(nested), Error::Fdo(FdoFault::Other(_))));
    let flat = BusFault::Other("io".to_owned());
    assert!(matches!(Error::from(flat), Error::Zbus(BusFault::Other(_))));
    let wrapped = FdoFault::ZBus(Box::new(BusFault::Other("io".to_owned())));
    assert!(matches!(Error::from(wrapped), Error::Zbus(BusFault::Other(_))));
}

#[test]
fn playback_status_keywords() {
    assert_eq!(PlaybackStatus::from_str("Playing").unwrap(), PlaybackStatus::Playing);
    assert_eq!(PlaybackStatus::from_str("  PAUSED\n").unwrap(), PlaybackStatus::Paused);
    assert_eq!(PlaybackStatus::from_str("stopped").unwrap(), PlaybackStatus::Stopped);
    assert!(matches!(
        PlaybackStatus::from_str("Halted"),
        Err(Error::InvalidEnum { .. })
    ));
    assert_eq!(PlaybackStatus::Playing.as_str(), "Playing");
}

#[test]
fn loop_status_keywords() {
    assert_eq!(LoopStatus::from_str("None").unwrap(), LoopStatus::NoLoop);
    assert_eq!(LoopStatus::from_str(" track ").unwrap(), LoopStatus::Track);
    assert_eq!(LoopStatus::from_str("PLAYLIST").unwrap(), LoopStatus::Playlist);
    match LoopStatus::from_str("loop") {
        Err(Error::InvalidEnum { got, expected }) => {
            assert_eq!(got, "loop");
            assert_eq!(expected, vec!["None", "Track", "Playlist"]);
        }
        other => panic!("unexpected reading {:?}", other),
    }
    assert_eq!(LoopStatus::NoLoop.as_str(), "None");
}

#[test]
fn playlist_ordering_keywords() {
    assert_eq!(
        PlaylistOrdering::from_str("Alphabetical").unwrap(),
        PlaylistOrdering::Alphabetical
    );
    assert_eq!(PlaylistOrdering::from_str("created").unwrap(), PlaylistOrdering::CreationDate);
    assert_eq!(PlaylistOrdering::from_str("Modified").unwrap(), PlaylistOrdering::ModifiedDate);
    assert_eq!(PlaylistOrdering::from_str("played").unwrap(), PlaylistOrdering::LastPlayDate);
    assert_eq!(PlaylistOrdering::from_str("User").unwrap(), PlaylistOrdering::UserDefined);
    assert!(PlaylistOrdering::from_str("shuffled").is_err());
    assert_eq!(PlaylistOrdering::CreationDate.as_str(), "Created");
}

#[test]
fn playlist_ordering_from_wire_value() {
    let ok = PlaylistOrdering::try_from(WireValue::Str("user".to_owned()));
    assert_eq!(ok.unwrap(), PlaylistOrdering::UserDefined);
    let err = PlaylistOrdering::try_from(WireValue::U32(4));
    assert!(matches!(err, Err(Error::IncorrectValue { .. })));
}

#[test]
fn enumerator_prefix_filter() {
    let e = Enumerator::new();
    let names = vec![
        "org.mpris.MediaPlayer2.vlc".to_owned(),
        "org.mpris.MediaPlayer2.spotify".to_owned(),
        "org.other.Thing".to_owned(),
    ];
    let players = e.players(names);
    assert_eq!(
        players,
        vec![
            "org.mpris.MediaPlayer2.vlc".to_owned(),
            "org.mpris.MediaPlayer2.spotify".to_owned(),
        ]
    );
}

#[test]
fn ownership_transfer_orders_removal_first() {
    let e = Enumerator::new();
    let name = "org.mpris.MediaPlayer2.vlc".to_owned();
    let events = e.changes(&name, Some(":1.5".to_owned()), Some(":1.9".to_owned()));
    assert_eq!(events.len(), 2);
    assert!(matches!(&events[0], Event::Remove(n) if n == &name));
    assert!(matches!(&events[1], Event::Add(n) if n == &name));
}

#[test]
fn single_sided_ownership_changes() {
    let e = Enumerator::new();
    let name = "org.mpris.MediaPlayer2.vlc".to_owned();
    let gone = e.changes(&name, Some(":1.5".to_owned()), None);
    assert_eq!(gone.len(), 1);
    assert!(matches!(&gone[0], Event::Remove(_)));
    let came = e.changes(&name, None, Some(":1.9".to_owned()));
    assert_eq!(came.len(), 1);
    assert!(matches!(&came[0], Event::Add(_)));
    let outside = e.changes(&"org.other.Thing".to_owned(), Some(":1.5".to_owned()), None);
    assert!(outside.is_empty());
}

#[test]
fn notification_decode_error_keeps_feed_alive() {
    let e = Enumerator::new();
    let items = e.changes_for_notification(Err(BusFault::Other("bad args".to_owned())));
    assert_eq!(items.len(), 1);
    assert!(matches!(&items[0], Err(Error::Zbus(_))));
    let ok_items = e.changes_for_notification(Ok((
        "org.mpris.MediaPlayer2.vlc".to_owned(),
        Some(":1.5".to_owned()),
        None,
    )));
    assert_eq!(ok_items.len(), 1);
    assert!(matches!(&ok_items[0], Ok(Event::Remove(_))));
}

#[test]
fn media_player_gates_optional_surfaces() {
    // The track-list gate takes the advertised flag; the playlist gate
    // takes its own interface probe.
    let mp = MediaPlayer::new("org.mpris.MediaPlayer2.vlc".to_owned());
    assert_eq!(mp.bus_name(), "org.mpris.MediaPlayer2.vlc");
    assert_eq!(mp.player().bus_name(), "org.mpris.MediaPlayer2.vlc");
    assert!(mp.track_list(false).is_none());
    assert_eq!(
        mp.track_list(true).unwrap().bus_name(),
        "org.mpris.MediaPlayer2.vlc"
    );
    assert!(mp.playlists(false).is_none());
    assert_eq!(
        mp.playlists(true).unwrap().bus_name(),
        "org.mpris.MediaPlayer2.vlc"
    );
}

#[test]
fn seek_is_guarded_by_capability() {
    let player = Player::new("org.mpris.MediaPlayer2.vlc".to_owned());
    assert_eq!(player.seek(false, Ok(())).unwrap(), false);
    assert_eq!(player.seek(true, Ok(())).unwrap(), true);
    assert!(player.seek(true, Err(disconnected())).is_err());
}

#[test]
fn shuffle_and_loop_status_follow_control() {
    let player = Player::new("org.mpris.MediaPlayer2.vlc".to_owned());
    assert_eq!(player.shuffle(false, Ok(true)).unwrap(), None);
    assert_eq!(player.shuffle(true, Ok(true)).unwrap(), Some(true));
    assert_eq!(player.shuffle(true, Err(not_supported())).unwrap(), None);
    assert_eq!(player.loop_status(false, Ok("Track".to_owned())).unwrap(), None);
    assert_eq!(
        player.loop_status(true, Ok("Track".to_owned())).unwrap(),
        Some(LoopStatus::Track)
    );
    assert_eq!(player.loop_status(true, Ok("garbage".to_owned())).unwrap(), None);
    assert_eq!(player.set_shuffle(false, Err(disconnected())).unwrap(), ());
    assert_eq!(player.set_loop_status(true, Err(not_supported())).unwrap(), ());
}

#[test]
fn available_rates_combine_bounds() {
    let player = Player::new("org.mpris.MediaPlayer2.vlc".to_owned());
    let lo = f64::to_bits(0.5);
    let hi = f64::to_bits(2.0);
    assert_eq!(player.available_rates(Ok(lo), Ok(hi)).unwrap(), Some((lo, hi)));
    assert_eq!(player.available_rates(Err(not_supported()), Ok(hi)).unwrap(), None);
    assert_eq!(player.available_rates(Ok(lo), Err(not_supported())).unwrap(), None);
    assert!(player.available_rates(Err(disconnected()), Ok(hi)).is_err());
}

#[test]
fn position_wraps_microseconds() {
    let player = Player::new("org.mpris.MediaPlayer2.vlc".to_owned());
    let r = player.position(Ok(42_000_000)).unwrap().unwrap();
    assert_eq!(r.whole_seconds(), 42);
    assert_eq!(player.position(Err(not_supported())).unwrap(), None);
}

#[test]
fn playback_status_reading() {
    let player = Player::new("org.mpris.MediaPlayer2.vlc".to_owned());
    assert_eq!(
        player.playback_status(Ok("Playing".to_owned())).unwrap(),
        PlaybackStatus::Playing
    );
    assert!(player.playback_status(Err(disconnected())).is_err());
}

#[test]
fn player_metadata_decodes_entries() {
    let player = Player::new("org.mpris.MediaPlayer2.vlc".to_owned());
    let md = player
        .metadata(Ok(vec![(
            "xesam:title".to_owned(),
            WireValue::Str("Song".to_owned()),
        )]))
        .unwrap();
    assert_eq!(md.title(), Some("Song".to_owned()));
    assert!(player.metadata(Err(disconnected())).is_err());
}

#[test]
fn track_id_validates_object_paths() {
    assert!(TrackId::new("/".to_owned()).is_some());
    assert!(TrackId::new("/org/mpris/t_1".to_owned()).is_some());
    assert!(TrackId::new("".to_owned()).is_none());
    assert!(TrackId::new("relative/path".to_owned()).is_none());
    assert!(TrackId::new("/a//b".to_owned()).is_none());
    assert!(TrackId::new("/a/".to_owned()).is_none());
    assert!(TrackId::new("/a-b".to_owned()).is_none());
    let id = TrackId::new("/org/t".to_owned()).unwrap();
    assert_eq!(id.clone().into_inner(), "/org/t".to_owned());
}

#[test]
fn playlist_carries_its_fields() {
    let id = PlaylistId::new("/org/pl/1".to_owned()).unwrap();
    let pl = Playlist::new(id, "Favourites".to_owned(), "icon://star".to_owned());
    assert_eq!(pl.id().as_str(), "/org/pl/1");
    assert_eq!(pl.name(), "Favourites");
    assert_eq!(pl.icon(), "icon://star");
    assert!(PlaylistId::new("bad".to_owned()).is_none());
}

#[test]
fn track_list_zip_pairs_positionally() {
    let tl = TrackList::new("org.mpris.MediaPlayer2.vlc".to_owned());
    let ids = vec![
        TrackId::new("/t/1".to_owned()).unwrap(),
        TrackId::new("/t/2".to_owned()).unwrap(),
        TrackId::new("/t/3".to_owned()).unwrap(),
    ];
    let mut m1 = Metadata::new();
    m1.insert("xesam:title".to_owned(), MetadataValue::Str("one".to_owned()));
    let mut m2 = Metadata::new();
    m2.insert("xesam:title".to_owned(), MetadataValue::Str("two".to_owned()));
    let mut m3 = Metadata::new();
    m3.insert("xesam:title".to_owned(), MetadataValue::Str("three".to_owned()));
    let detailed = tl.detailed_tracks(ids, vec![m1, m2, m3]);
    assert_eq!(detailed.len(), 3);
    assert_eq!(detailed[0].0.as_str(), "/t/1");
    assert_eq!(detailed[0].1.title(), Some("one".to_owned()));
    assert_eq!(detailed[1].0.as_str(), "/t/2");
    assert_eq!(detailed[1].1.title(), Some("two".to_owned()));
    assert_eq!(detailed[2].0.as_str(), "/t/3");
    assert_eq!(detailed[2].1.title(), Some("three".to_owned()));
}

#[test]
fn track_list_zip_truncates_to_shorter() {
    let tl = TrackList::new("org.mpris.MediaPlayer2.vlc".to_owned());
    let ids = vec![
        TrackId::new("/t/1".to_owned()).unwrap(),
        TrackId::new("/t/2".to_owned()).unwrap(),
    ];
    let mut m1 = Metadata::new();
    m1.insert("xesam:title".to_owned(), MetadataValue::Str("one".to_owned()));
    let detailed = tl.detailed_tracks(ids, vec![m1]);
    assert_eq!(detailed.len(), 1);
    assert_eq!(detailed[0].0.as_str(), "/t/1");
}

#[test]
fn track_list_decodes_metadata_batches() {
    let tl = TrackList::new("org.mpris.MediaPlayer2.vlc".to_owned());
    let batches = vec![
        vec![("xesam:title".to_owned(), WireValue::Str("one".to_owned()))],
        vec![("xesam:title".to_owned(), WireValue::Str("two".to_owned()))],
    ];
    let decoded = tl.get_tracks_metadata(Ok(batches)).unwrap();
    assert_eq!(decoded.len(), 2);
    assert_eq!(decoded[0].title(), Some("one".to_owned()));
    assert_eq!(decoded[1].title(), Some("two".to_owned()));
    assert!(tl.get_tracks_metadata(Err(disconnected())).is_err());
    assert!(tl.tracks(Err(disconnected())).is_err());
    assert!(tl.add_track(Ok(())).is_ok());
    assert!(tl.go_to(Err(disconnected())).is_err());
    assert!(tl.remove(Ok(())).is_ok());
}
