//! Loading the library from its JSON configuration.
//!
//! The document is parsed and read through `serde_json`. What this module
//! adds is the shape it asks of the document: an object whose collection
//! list holds objects with a `name` and a track list, each track an object
//! with a `name` and a `location`. The keys of the two lists are the
//! caller's to name.

use vstd::prelude::*;
use crate::library::{
    collection_views, track_views, Collection, CollectionView, ConfigError, Library, LibraryView, Track,
    TrackView,
};

verus! {

/// What a JSON value holds, as far as this crate reads it: a string, an
/// array, an object, or something else (null, a boolean, a number).
pub enum JsonModel {
    Text(Seq<char>),
    List(Seq<JsonModel>),
    Table(Map<Seq<char>, JsonModel>),
    Other,
}

/// `serde_json::Value`, a parsed JSON value. Nothing of it is seen here
/// but through [`json_model`].
#[verifier::external_type_specification]
#[verifier::external_body]
pub struct ExValue(serde_json::Value);

/// `serde_json::Error`, what the parser gives for a text it refuses.
/// Nothing is read from it.
#[verifier::external_type_specification]
#[verifier::external_body]
pub struct ExError(serde_json::Error);

/// The contents of a `serde_json::Value`.
pub uninterp spec fn json_model(value: serde_json::Value) -> JsonModel;

/// The document that `serde_json::from_str` reads from a text, if it reads one.
pub uninterp spec fn json_parse(text: Seq<char>) -> Option<JsonModel>;

/// Calls `serde_json::from_str` for a `Value`. Whether a text is accepted,
/// and the document read from it, depend on the text alone.
#[verifier::external_body]
pub(crate) fn parse_value(text: &str) -> (res: Result<serde_json::Value, serde_json::Error>)
    ensures
        res is Ok <==> json_parse(text@) is Some,
        res matches Ok(value) ==> json_parse(text@) == Some(json_model(value)),
{
    serde_json::from_str(text)
}

/// Calls `Value::get` with a string index: the member stored under `key`
/// when the value is an object that has such a member, otherwise `None`.
#[verifier::external_body]
pub(crate) fn value_member<'a>(value: &'a serde_json::Value, key: &str) -> (res: Option<&'a serde_json::Value>)
    ensures
        res is Some <==> member_of(json_model(*value), key@) is Some,
        res matches Some(member) ==> member_of(json_model(*value), key@) == Some(json_model(*member)),
{
    value.get(key)
}

/// Calls `Value::as_array`: the elements, in order, when the value is an
/// array, otherwise `None`.
#[verifier::external_body]
pub(crate) fn value_elements<'a>(value: &'a serde_json::Value) -> (res: Option<&'a Vec<serde_json::Value>>)
    ensures
        res is Some <==> json_model(*value) is List,
        res matches Some(items) ==> json_model(*value) == JsonModel::List(value_models(items@)),
{
    value.as_array()
}

/// Calls `Value::as_str`: the text when the value is a string, otherwise `None`.
#[verifier::external_body]
pub(crate) fn value_text<'a>(value: &'a serde_json::Value) -> (res: Option<&'a str>)
    ensures
        res is Some <==> json_model(*value) is Text,
        res matches Some(text) ==> json_model(*value) == JsonModel::Text(text@),
{
    value.as_str()
}

/// The contents of a sequence of values, in order.
pub open spec fn value_models(values: Seq<serde_json::Value>) -> Seq<JsonModel> {
    Seq::new(values.len(), |i: int| json_model(values[i]))
}

/// The member of an object under a key; `None` for an object without the
/// key and for a value that is no object.
pub open spec fn member_of(value: JsonModel, key: Seq<char>) -> Option<JsonModel> {
    match value {
        JsonModel::Table(members) => if members.contains_key(key) {
            Some(members[key])
        } else {
            None
        },
        _ => None,
    }
}

/// The text stored under a key.
pub open spec fn text_field(value: JsonModel, key: Seq<char>) -> Result<Seq<char>, ConfigError> {
    match member_of(value, key) {
        None => Err(ConfigError::MissingKey),
        Some(JsonModel::Text(text)) => Ok(text),
        Some(_) => Err(ConfigError::WrongShape),
    }
}

/// The list stored under a key.
pub open spec fn list_field(value: JsonModel, key: Seq<char>) -> Result<Seq<JsonModel>, ConfigError> {
    match member_of(value, key) {
        None => Err(ConfigError::MissingKey),
        Some(JsonModel::List(items)) => Ok(items),
        Some(_) => Err(ConfigError::WrongShape),
    }
}

/// The track that a value describes: its `name`, then its `location`.
pub open spec fn track_of(value: JsonModel) -> Result<TrackView, ConfigError> {
    match text_field(value, "name"@) {
        Err(e) => Err(e),
        Ok(name) => match text_field(value, "location"@) {
            Err(e) => Err(e),
            Ok(location) => Ok(TrackView { name, location }),
        },
    }
}

/// The tracks that a list of values describes. The first value that
/// describes no track decides the error.
pub open spec fn tracks_of(values: Seq<JsonModel>) -> Result<Seq<TrackView>, ConfigError>
    decreases values.len(),
{
    if values.len() == 0 {
        Ok(Seq::empty())
    } else {
        match tracks_of(values.drop_last()) {
            Err(e) => Err(e),
            Ok(tracks) => match track_of(values.last()) {
                Err(e) => Err(e),
                Ok(track) => Ok(tracks.push(track)),
            },
        }
    }
}

/// The collection that a value describes: its `name`, then its tracks
/// under `tracks_key`, of which there must be at least one.
pub open spec fn collection_of(value: JsonModel, tracks_key: Seq<char>) -> Result<CollectionView, ConfigError> {
    match text_field(value, "name"@) {
        Err(e) => Err(e),
        Ok(name) => match list_field(value, tracks_key) {
            Err(e) => Err(e),
            Ok(items) => match tracks_of(items) {
                Err(e) => Err(e),
                Ok(tracks) => if tracks.len() == 0 {
                    Err(ConfigError::EmptyCollection)
                } else {
                    Ok(CollectionView { name, tracks })
                },
            },
        },
    }
}

/// The collections that a list of values describes. The first value that
/// describes no collection decides the error.
pub open spec fn collections_of(values: Seq<JsonModel>, tracks_key: Seq<char>) -> Result<
    Seq<CollectionView>,
    ConfigError,
>
    decreases values.len(),
{
    if values.len() == 0 {
        Ok(Seq::empty())
    } else {
        match collections_of(values.drop_last(), tracks_key) {
            Err(e) => Err(e),
            Ok(collections) => match collection_of(values.last(), tracks_key) {
                Err(e) => Err(e),
                Ok(collection) => Ok(collections.push(collection)),
            },
        }
    }
}

/// The library that a document describes: the collections listed under
/// `collections_key`.
pub open spec fn library_of(root: JsonModel, collections_key: Seq<char>, tracks_key: Seq<char>) -> Result<
    LibraryView,
    ConfigError,
> {
    match list_field(root, collections_key) {
        Err(e) => Err(e),
        Ok(items) => match collections_of(items, tracks_key) {
            Err(e) => Err(e),
            Ok(collections) => Ok(LibraryView { collections }),
        },
    }
}

/// The library that a configuration text describes.
pub open spec fn library_of_text(document: Option<JsonModel>, collections_key: Seq<char>, tracks_key: Seq<char>) -> Result<
    LibraryView,
    ConfigError,
> {
    match document {
        None => Err(ConfigError::Malformed),
        Some(root) => library_of(root, collections_key, tracks_key),
    }
}

/// The model of a loaded library, or the error as it is.
pub open spec fn loaded(res: Result<Library, ConfigError>) -> Result<LibraryView, ConfigError> {
    match res {
        Ok(library) => Ok(library@),
        Err(e) => Err(e),
    }
}

/// Reads the text stored under a key of a value.
fn read_text(value: &serde_json::Value, key: &str) -> (res: Result<String, ConfigError>)
    ensures
        match res {
            Ok(text) => text_field(json_model(*value), key@) == Ok::<Seq<char>, ConfigError>(text@),
            Err(e) => text_field(json_model(*value), key@) == Err::<Seq<char>, ConfigError>(e),
        },
{
    match value_member(value, key) {
        None => Err(ConfigError::MissingKey),
        Some(member) => match value_text(member) {
            None => Err(ConfigError::WrongShape),
            Some(text) => Ok(text.to_owned()),
        },
    }
}

/// Reads the list stored under a key of a value.
fn read_list<'a>(value: &'a serde_json::Value, key: &str) -> (res: Result<&'a Vec<serde_json::Value>, ConfigError>)
    ensures
        match res {
            Ok(items) => list_field(json_model(*value), key@) == Ok::<Seq<JsonModel>, ConfigError>(
                value_models(items@),
            ),
            Err(e) => list_field(json_model(*value), key@) == Err::<Seq<JsonModel>, ConfigError>(e),
        },
{
    match value_member(value, key) {
        None => Err(ConfigError::MissingKey),
        Some(member) => match value_elements(member) {
            None => Err(ConfigError::WrongShape),
            Some(items) => Ok(items),
        },
    }
}

/// Reads one track.
fn read_track(value: &serde_json::Value) -> (res: Result<Track, ConfigError>)
    ensures
        match res {
            Ok(track) => track_of(json_model(*value)) == Ok::<TrackView, ConfigError>(track@),
            Err(e) => track_of(json_model(*value)) == Err::<TrackView, ConfigError>(e),
        },
{
    match read_text(value, "name") {
        Err(e) => Err(e),
        Ok(name) => match read_text(value, "location") {
            Err(e) => Err(e),
            Ok(location) => Ok(Track::new(name, location)),
        },
    }
}

/// Reads a list of tracks, up to the first value that describes none.
fn read_tracks(values: &Vec<serde_json::Value>) -> (res: Result<Vec<Track>, ConfigError>)
    ensures
        match res {
            Ok(tracks) => tracks_of(value_models(values@)) == Ok::<Seq<TrackView>, ConfigError>(
                track_views(tracks@),
            ),
            Err(e) => tracks_of(value_models(values@)) == Err::<Seq<TrackView>, ConfigError>(e),
        },
{
    let ghost models = value_models(values@);
    let mut tracks: Vec<Track> = Vec::new();
    let mut i: usize = 0;
    proof {
        assert(models.take(0) =~= Seq::<JsonModel>::empty());
        assert(track_views(tracks@) =~= Seq::<TrackView>::empty());
    }
    while i < values.len()
        invariant
            i <= values@.len(),
            models == value_models(values@),
            tracks_of(models.take(i as int)) == Ok::<Seq<TrackView>, ConfigError>(track_views(tracks@)),
        decreases values@.len() - i,
    {
        proof {
            assert(models.take(i + 1).drop_last() =~= models.take(i as int));
            assert(models.take(i + 1).last() == json_model(values@[i as int]));
        }
        match read_track(&values[i]) {
            Err(e) => {
                proof {
                    lemma_tracks_error_stays(models, i + 1);
                }
                return Err(e);
            },
            Ok(track) => {
                let ghost before = track_views(tracks@);
                tracks.push(track);
                proof {
                    assert(track_views(tracks@) =~= before.push(track@));
                }
            },
        }
        i += 1;
    }
    proof {
        assert(models.take(i as int) =~= models);
    }
    Ok(tracks)
}

/// Reads one collection.
fn read_collection(value: &serde_json::Value, tracks_key: &str) -> (res: Result<Collection, ConfigError>)
    ensures
        match res {
            Ok(collection) => collection_of(json_model(*value), tracks_key@) == Ok::<
                CollectionView,
                ConfigError,
            >(collection@),
            Err(e) => collection_of(json_model(*value), tracks_key@) == Err::<CollectionView, ConfigError>(e),
        },
{
    match read_text(value, "name") {
        Err(e) => Err(e),
        Ok(name) => match read_list(value, tracks_key) {
            Err(e) => Err(e),
            Ok(items) => match read_tracks(items) {
                Err(e) => Err(e),
                Ok(tracks) => Collection::new(name, tracks),
            },
        },
    }
}

/// Reads a list of collections, up to the first value that describes none.
fn read_collections(values: &Vec<serde_json::Value>, tracks_key: &str) -> (res: Result<
    Vec<Collection>,
    ConfigError,
>)
    ensures
        match res {
            Ok(collections) => collections_of(value_models(values@), tracks_key@) == Ok::<
                Seq<CollectionView>,
                ConfigError,
            >(collection_views(collections@)),
            Err(e) => collections_of(value_models(values@), tracks_key@) == Err::<
                Seq<CollectionView>,
                ConfigError,
            >(e),
        },
{
    let ghost models = value_models(values@);
    let mut collections: Vec<Collection> = Vec::new();
    let mut i: usize = 0;
    proof {
        assert(models.take(0) =~= Seq::<JsonModel>::empty());
        assert(collection_views(collections@) =~= Seq::<CollectionView>::empty());
    }
    while i < values.len()
        invariant
            i <= values@.len(),
            models == value_models(values@),
            collections_of(models.take(i as int), tracks_key@) == Ok::<Seq<CollectionView>, ConfigError>(
                collection_views(collections@),
            ),
        decreases values@.len() - i,
    {
        proof {
            assert(models.take(i + 1).drop_last() =~= models.take(i as int));
            assert(models.take(i + 1).last() == json_model(values@[i as int]));
        }
        match read_collection(&values[i], tracks_key) {
            Err(e) => {
                proof {
                    lemma_collections_error_stays(models, tracks_key@, i + 1);
                }
                return Err(e);
            },
            Ok(collection) => {
                let ghost before = collection_views(collections@);
                collections.push(collection);
                proof {
                    assert(collection_views(collections@) =~= before.push(collection@));
                }
            },
        }
        i += 1;
    }
    proof {
        assert(models.take(i as int) =~= models);
    }
    Ok(collections)
}

/// An error among the first `n` values is the error of the whole list.
proof fn lemma_tracks_error_stays(values: Seq<JsonModel>, n: int)
    requires
        0 <= n <= values.len(),
        tracks_of(values.take(n)) is Err,
    ensures
        tracks_of(values) == tracks_of(values.take(n)),
    decreases values.len() - n,
{
    if n < values.len() {
        assert(values.take(n + 1).drop_last() =~= values.take(n));
        lemma_tracks_error_stays(values, n + 1);
    } else {
        assert(values.take(n) =~= values);
    }
}

/// An error among the first `n` values is the error of the whole list.
proof fn lemma_collections_error_stays(values: Seq<JsonModel>, tracks_key: Seq<char>, n: int)
    requires
        0 <= n <= values.len(),
        collections_of(values.take(n), tracks_key) is Err,
    ensures
        collections_of(values, tracks_key) == collections_of(values.take(n), tracks_key),
    decreases values.len() - n,
{
    if n < values.len() {
        assert(values.take(n + 1).drop_last() =~= values.take(n));
        lemma_collections_error_stays(values, tracks_key, n + 1);
    } else {
        assert(values.take(n) =~= values);
    }
}

/// Builds the library that a parsed document describes, or says what the
/// document lacks.
pub fn library_from_value(root: &serde_json::Value, collections_key: &str, tracks_key: &str) -> (res: Result<
    Library,
    ConfigError,
>)
    ensures
        loaded(res) == library_of(json_model(*root), collections_key@, tracks_key@),
        res matches Ok(library) ==> library@.wf(),
{
    match read_list(root, collections_key) {
        Err(e) => Err(e),
        Ok(items) => match read_collections(items, tracks_key) {
            Err(e) => Err(e),
            Ok(collections) => Ok(Library::new(collections)),
        },
    }
}

/// Parses a configuration text and builds the library it describes. A text
/// that is no JSON document is refused as malformed.
pub fn parse_library(text: &str, collections_key: &str, tracks_key: &str) -> (res: Result<Library, ConfigError>)
    ensures
        loaded(res) == library_of_text(json_parse(text@), collections_key@, tracks_key@),
        res matches Ok(library) ==> library@.wf(),
{
    match parse_value(text) {
        Err(_) => Err(ConfigError::Malformed),
        Ok(root) => library_from_value(&root, collections_key, tracks_key),
    }
}

/// Reading refuses what the menus could not show: there is one collection
/// for each value of the list, and each of them holds at least one track.
pub proof fn lemma_collections_hold_tracks(values: Seq<JsonModel>, tracks_key: Seq<char>)
    ensures
        collections_of(values, tracks_key) matches Ok(collections) ==> collections.len() == values.len()
            && forall|i: int| 0 <= i < collections.len() ==> (#[trigger] collections[i]).wf(),
    decreases values.len(),
{
    if values.len() > 0 {
        lemma_collections_hold_tracks(values.drop_last(), tracks_key);
    }
}

/// A library that was read is fit for the menus: every one of its
/// collections holds at least one track.
pub proof fn lemma_loaded_library_is_valid(root: JsonModel, collections_key: Seq<char>, tracks_key: Seq<char>)
    ensures
        library_of(root, collections_key, tracks_key) matches Ok(library) ==> library.wf(),
{
    if let Ok(items) = list_field(root, collections_key) {
        lemma_collections_hold_tracks(items, tracks_key);
    }
}

} // verus!
