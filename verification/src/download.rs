//! The command lines that hand downloads to zspotify, and what a finished
//! download yields.
use crate::queue::{Item, ItemType};
use crate::sync::strings_view;
use crate::text::{text_or, value_or};
use vstd::prelude::*;
use vstd::string::StringExecFns;

verus! {

/// The kind of Spotify object that the bulk downloader fetches.
#[derive(PartialEq, Eq, Structural, Debug, Clone, Copy)]
pub enum SpotifyItemType {
    Playlist,
    Track,
    Album,
    Artist,
    Episode,
    FullShow,
}

/// zspotify's flag for a kind of object.
pub open spec fn spotify_item_flag(t: SpotifyItemType) -> Seq<char> {
    match t {
        SpotifyItemType::Playlist => "--playlist"@,
        SpotifyItemType::Track => "--track"@,
        SpotifyItemType::Album => "--album"@,
        SpotifyItemType::Artist => "--artist"@,
        SpotifyItemType::Episode => "--episode"@,
        SpotifyItemType::FullShow => "--full-show"@,
    }
}

impl SpotifyItemType {
    /// zspotify's flag for this kind of object.
    pub fn flag(&self) -> (r: &'static str)
        ensures
            r@ == spotify_item_flag(*self),
    {
        match self {
            SpotifyItemType::Playlist => "--playlist",
            SpotifyItemType::Track => "--track",
            SpotifyItemType::Album => "--album",
            SpotifyItemType::Artist => "--artist",
            SpotifyItemType::Episode => "--episode",
            SpotifyItemType::FullShow => "--full-show",
        }
    }
}

/// The arguments of the bulk download of one object: fixed folders, then
/// the kind of object and its id.
pub open spec fn spotify_item_args_text(id: Seq<char>, t: SpotifyItemType) -> Seq<Seq<char>> {
    seq![
        "--config-dir"@,
        "/zspotify/config/"@,
        "--credentials-file"@,
        "/zspotify/credentials.json"@,
        "--download-dir"@,
        "/downloads/"@,
        "--music-dir"@,
        "/music/"@,
        "--episodes-dir"@,
        "/episodes/"@,
        spotify_item_flag(t),
        id,
    ]
}

/// Builds zspotify's arguments for the bulk download of one object.
pub fn spotify_item_args(id: &str, item_type: SpotifyItemType) -> (r: Vec<String>)
    ensures
        strings_view(r@) == spotify_item_args_text(id@, item_type),
{
    let mut v: Vec<String> = Vec::new();
    v.push(String::from_str("--config-dir"));
    v.push(String::from_str("/zspotify/config/"));
    v.push(String::from_str("--credentials-file"));
    v.push(String::from_str("/zspotify/credentials.json"));
    v.push(String::from_str("--download-dir"));
    v.push(String::from_str("/downloads/"));
    v.push(String::from_str("--music-dir"));
    v.push(String::from_str("/music/"));
    v.push(String::from_str("--episodes-dir"));
    v.push(String::from_str("/episodes/"));
    v.push(String::from_str(item_type.flag()));
    v.push(String::from_str(id));
    assert(strings_view(v@) =~= spotify_item_args_text(id@, item_type));
    v
}

/// Different kinds of object have different zspotify flags.
proof fn lemma_spotify_item_flags_distinct()
    ensures
        forall|a: SpotifyItemType, b: SpotifyItemType|
            #[trigger] spotify_item_flag(a) == #[trigger] spotify_item_flag(b) ==> a == b,
{
    reveal_strlit("--playlist");
    reveal_strlit("--track");
    reveal_strlit("--album");
    reveal_strlit("--artist");
    reveal_strlit("--episode");
    reveal_strlit("--full-show");
    assert("--playlist"@.len() != "--track"@.len());
    assert("--playlist"@.len() != "--album"@.len());
    assert("--playlist"@.len() != "--artist"@.len());
    assert("--playlist"@.len() != "--episode"@.len());
    assert("--playlist"@.len() != "--full-show"@.len());
    assert("--track"@[2] != "--album"@[2]);
    assert("--track"@.len() != "--artist"@.len());
    assert("--track"@.len() != "--episode"@.len());
    assert("--track"@.len() != "--full-show"@.len());
    assert("--album"@.len() != "--artist"@.len());
    assert("--album"@.len() != "--episode"@.len());
    assert("--album"@.len() != "--full-show"@.len());
    assert("--artist"@.len() != "--episode"@.len());
    assert("--artist"@.len() != "--full-show"@.len());
    assert("--episode"@.len() != "--full-show"@.len());
}

/// The bulk download's arguments are the fixed folder options followed by the
/// flag of the requested kind and then the id; since different kinds have
/// different flags, no kind is ever downloaded as another.
pub proof fn law_spotify_item_args_end_with_kind(id: Seq<char>, t: SpotifyItemType)
    ensures
        spotify_item_args_text(id, t).len() == 12,
        spotify_item_args_text(id, t)[11] == id,
        spotify_item_args_text(id, t)[10] == spotify_item_flag(t),
        forall|u: SpotifyItemType| #[trigger] spotify_item_flag(u) == spotify_item_args_text(id, t)[10] ==> u == t,
{
    lemma_spotify_item_flags_distinct();
}

/// zspotify's flag for the kind of a queued item.
pub open spec fn item_type_flag(t: ItemType) -> Seq<char> {
    match t {
        ItemType::Album => "--album"@,
        ItemType::Track => "--track"@,
        ItemType::Artist => "--artist"@,
        ItemType::Playlist => "--playlist"@,
    }
}

impl ItemType {
    /// zspotify's flag for this kind of item.
    pub fn flag(&self) -> (r: &'static str)
        ensures
            r@ == item_type_flag(*self),
    {
        match self {
            ItemType::Album => "--album",
            ItemType::Track => "--track",
            ItemType::Artist => "--artist",
            ItemType::Playlist => "--playlist",
        }
    }
}

/// Where zspotify puts what it downloads, and the files it keeps.
#[derive(Debug)]
pub struct Destinations {
    pub download_dir: String,
    pub music_dir: String,
    pub episodes_dir: String,
    pub archive_file: String,
    pub credentials_file: String,
}

/// The configured destinations, each falling back to its default when not
/// set.
pub fn destinations(
    download_dir: Option<String>,
    music_dir: Option<String>,
    episodes_dir: Option<String>,
    archive_file: Option<String>,
    credentials_file: Option<String>,
) -> (r: Destinations)
    ensures
        r.download_dir@ == text_or(download_dir, "./junk/downloads"@),
        r.music_dir@ == text_or(music_dir, "./junk/music"@),
        r.episodes_dir@ == text_or(episodes_dir, "./junk/episodes"@),
        r.archive_file@ == text_or(archive_file, "~/.zspotify/archive.json"@),
        r.credentials_file@ == text_or(credentials_file, "~/.zspotify/credentials.json"@),
{
    Destinations {
        download_dir: value_or(download_dir, "./junk/downloads"),
        music_dir: value_or(music_dir, "./junk/music"),
        episodes_dir: value_or(episodes_dir, "./junk/episodes"),
        archive_file: value_or(archive_file, "~/.zspotify/archive.json"),
        credentials_file: value_or(credentials_file, "~/.zspotify/credentials.json"),
    }
}

/// The arguments with which zspotify downloads a queued item.
pub open spec fn download_args_text(
    download_dir: Seq<char>,
    music_dir: Seq<char>,
    episodes_dir: Seq<char>,
    archive_file: Seq<char>,
    credentials_file: Seq<char>,
    t: ItemType,
    id: Seq<char>,
) -> Seq<Seq<char>> {
    seq![
        "--download-dir"@,
        download_dir,
        "--music-dir"@,
        music_dir,
        "--episodes-dir"@,
        episodes_dir,
        "--archive"@,
        archive_file,
        "--audio-format"@,
        "--credentials-file"@,
        credentials_file,
        "mp3"@,
        "--skip-downloaded"@,
        item_type_flag(t),
        id,
    ]
}

/// Builds zspotify's arguments for downloading a queued item.
pub fn download_args(dest: &Destinations, item: &Item) -> (r: Vec<String>)
    ensures
        strings_view(r@) == download_args_text(
            dest.download_dir@,
            dest.music_dir@,
            dest.episodes_dir@,
            dest.archive_file@,
            dest.credentials_file@,
            item.item_type,
            item.id@,
        ),
{
    let mut v: Vec<String> = Vec::new();
    v.push(String::from_str("--download-dir"));
    v.push(dest.download_dir.clone());
    v.push(String::from_str("--music-dir"));
    v.push(dest.music_dir.clone());
    v.push(String::from_str("--episodes-dir"));
    v.push(dest.episodes_dir.clone());
    v.push(String::from_str("--archive"));
    v.push(dest.archive_file.clone());
    v.push(String::from_str("--audio-format"));
    v.push(String::from_str("--credentials-file"));
    v.push(dest.credentials_file.clone());
    v.push(String::from_str("mp3"));
    v.push(String::from_str("--skip-downloaded"));
    v.push(String::from_str(item.item_type.flag()));
    v.push(item.id.clone());
    assert(strings_view(v@) =~= download_args_text(
        dest.download_dir@,
        dest.music_dir@,
        dest.episodes_dir@,
        dest.archive_file@,
        dest.credentials_file@,
        item.item_type,
        item.id@,
    ));
    v
}

/// Different kinds of queued item have different zspotify flags.
proof fn lemma_item_type_flags_distinct()
    ensures
        forall|a: ItemType, b: ItemType| #[trigger] item_type_flag(a) == #[trigger] item_type_flag(b) ==> a == b,
{
    reveal_strlit("--album");
    reveal_strlit("--track");
    reveal_strlit("--artist");
    reveal_strlit("--playlist");
    assert("--album"@[2] != "--track"@[2]);
    assert("--album"@.len() != "--artist"@.len());
    assert("--album"@.len() != "--playlist"@.len());
    assert("--track"@.len() != "--artist"@.len());
    assert("--track"@.len() != "--playlist"@.len());
    assert("--artist"@.len() != "--playlist"@.len());
}

/// A queued item's arguments end with the flag of the item's own kind and
/// then the item's id; since different kinds have different flags, no item
/// is ever downloaded as another kind.
pub proof fn law_download_args_end_with_kind(
    download_dir: Seq<char>,
    music_dir: Seq<char>,
    episodes_dir: Seq<char>,
    archive_file: Seq<char>,
    credentials_file: Seq<char>,
    t: ItemType,
    id: Seq<char>,
)
    ensures
        ({
            let args = download_args_text(download_dir, music_dir, episodes_dir, archive_file, credentials_file, t, id);
            &&& args.len() == 15
            &&& args[14] == id
            &&& args[13] == item_type_flag(t)
            &&& forall|u: ItemType| #[trigger] item_type_flag(u) == args[13] ==> u == t
        }),
{
    lemma_item_type_flags_distinct();
}

/// Why a download failed.
#[derive(PartialEq, Eq, Structural, Debug, Clone, Copy)]
pub enum DownloadError {
    /// zspotify exited unsuccessfully.
    Failed,
}

/// What a download whose zspotify run has ended yields: the item's name
/// when zspotify succeeded, an error otherwise.
pub fn finish_download(item: Item, succeeded: bool) -> (r: Result<String, DownloadError>)
    ensures
        succeeded ==> (r matches Ok(name) && name@ == item.name@),
        !succeeded ==> r == Err::<String, DownloadError>(DownloadError::Failed),
{
    if !succeeded {
        return Err(DownloadError::Failed);
    }
    Ok(item.name)
}

} // verus!
