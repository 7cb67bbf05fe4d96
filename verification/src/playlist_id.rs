//! Playlist ids: parsing the configured source and target playlists, and
//! deciding whether they make a pair that can be synchronised.
use rspotify::model::idtypes::{Id, IdError, PlaylistId};
use vstd::prelude::*;

verus! {

/// Why a string is not a Spotify playlist id or URI.
#[derive(PartialEq, Eq, Structural, Debug, Clone, Copy)]
pub enum PlaylistIdError {
    InvalidPrefix,
    InvalidFormat,
    InvalidType,
    InvalidId,
}

/// The view of a parsed id.
pub open spec fn parsed_view(r: Result<String, PlaylistIdError>) -> Result<Seq<char>, PlaylistIdError> {
    match r {
        Ok(s) => Ok(s@),
        Err(e) => Err(e),
    }
}

/// `c` is an ASCII letter or digit.
pub open spec fn is_ascii_alnum(c: char) -> bool {
    ('0' <= c && c <= '9') || ('A' <= c && c <= 'Z') || ('a' <= c && c <= 'z')
}

/// Every character of `s` is an ASCII letter or digit.
pub open spec fn all_ascii_alnum(s: Seq<char>) -> bool {
    forall|i: int| 0 <= i < s.len() ==> is_ascii_alnum(#[trigger] s[i])
}

/// The word that starts every Spotify URI.
pub open spec fn spotify_word() -> Seq<char> {
    seq!['s', 'p', 'o', 't', 'i', 'f', 'y']
}

/// `s` starts like a Spotify URI: `spotify:` or `spotify/`.
pub open spec fn starts_like_uri(s: Seq<char>) -> bool {
    &&& s.len() >= 8
    &&& s.take(7) == spotify_word()
    &&& (s[7] == ':' || s[7] == '/')
}

/// The playlist URI `spotify{sep}playlist{sep}{id}`.
pub open spec fn playlist_uri(sep: char, id: Seq<char>) -> Seq<char> {
    spotify_word() + seq![sep] + seq!['p', 'l', 'a', 'y', 'l', 'i', 's', 't'] + seq![sep] + id
}

/// How a string that is not a URI is taken: as a bare id, accepted when all
/// its characters are ASCII letters or digits.
pub open spec fn bare_id_outcome(s: Seq<char>) -> Result<Seq<char>, PlaylistIdError> {
    if all_ascii_alnum(s) {
        Ok(s)
    } else {
        Err(PlaylistIdError::InvalidId)
    }
}

/// The word that names the playlist type in a URI.
pub open spec fn playlist_word() -> Seq<char> {
    seq!['p', 'l', 'a', 'y', 'l', 'i', 's', 't']
}

/// The index of the last `c` in `s`, or -1 when `s` holds no `c`.
pub open spec fn last_index_of(s: Seq<char>, c: char) -> int
    decreases s.len(),
{
    if s.len() == 0 {
        -1
    } else if s.last() == c {
        s.len() - 1
    } else {
        last_index_of(s.drop_last(), c)
    }
}

/// What rspotify's `PlaylistId::from_id_or_uri` makes of a string. A string
/// that does not start with `spotify:` or `spotify/` is taken as a bare id.
/// A URI is split at the last separator after the prefix: with no such
/// separator it is malformed; a type part other than `playlist` is the wrong
/// type; otherwise the part after the separator is taken as a bare id.
pub open spec fn playlist_id_result(s: Seq<char>) -> Result<Seq<char>, PlaylistIdError> {
    if !starts_like_uri(s) {
        bare_id_outcome(s)
    } else {
        let sep = s[7];
        let rest = s.skip(8);
        let mid = last_index_of(rest, sep);
        if mid < 0 {
            Err(PlaylistIdError::InvalidFormat)
        } else if rest.take(mid) != playlist_word() {
            Err(PlaylistIdError::InvalidType)
        } else {
            bare_id_outcome(rest.skip(mid + 1))
        }
    }
}

/// Calls rspotify's `PlaylistId::from_id_or_uri` and returns the bare id, or
/// the reason for refusing the string, one variant for each of rspotify's.
/// The contract restates what rspotify's source does (`parse_uri`,
/// `from_uri`, `from_id` and the playlist id's validity rule).
#[verifier::external_body]
fn from_id_or_uri(s: &str) -> (r: Result<String, PlaylistIdError>)
    ensures
        parsed_view(r) == playlist_id_result(s@),
{
    match PlaylistId::from_id_or_uri(s) {
        Ok(id) => Ok(id.id().to_string()),
        Err(IdError::InvalidPrefix) => Err(PlaylistIdError::InvalidPrefix),
        Err(IdError::InvalidFormat) => Err(PlaylistIdError::InvalidFormat),
        Err(IdError::InvalidType) => Err(PlaylistIdError::InvalidType),
        Err(IdError::InvalidId) => Err(PlaylistIdError::InvalidId),
    }
}

/// Parses a playlist id or URI into the bare playlist id.
pub fn parse_playlist_id(id_or_uri: &str) -> (r: Result<String, PlaylistIdError>)
    ensures
        parsed_view(r) == playlist_id_result(id_or_uri@),
{
    from_id_or_uri(id_or_uri)
}

proof fn lemma_no_sep_in_alnum(id: Seq<char>, sep: char)
    requires
        all_ascii_alnum(id),
        sep == ':' || sep == '/',
    ensures
        last_index_of(id, sep) == -1,
    decreases id.len(),
{
    if id.len() > 0 {
        assert(is_ascii_alnum(id[id.len() - 1]));
        lemma_no_sep_in_alnum(id.drop_last(), sep);
    }
}

proof fn lemma_last_index_of_suffix(a: Seq<char>, c: char, b: Seq<char>)
    requires
        last_index_of(b, c) == -1,
    ensures
        last_index_of(a + seq![c] + b, c) == a.len(),
    decreases b.len(),
{
    let s = a + seq![c] + b;
    if b.len() == 0 {
        assert(s.last() == c);
    } else {
        assert(b.last() != c);
        assert(s.last() == b.last());
        assert(s.drop_last() == a + seq![c] + b.drop_last());
        lemma_last_index_of_suffix(a, c, b.drop_last());
    }
}

/// A playlist URI whose id is made of ASCII letters and digits gives that id.
pub proof fn law_playlist_uri_gives_id(sep: char, id: Seq<char>)
    requires
        sep == ':' || sep == '/',
        all_ascii_alnum(id),
    ensures
        playlist_id_result(playlist_uri(sep, id)) == Ok::<Seq<char>, PlaylistIdError>(id),
{
    let s = playlist_uri(sep, id);
    assert(s.take(7) =~= spotify_word());
    assert(s[7] == sep);
    let rest = s.skip(8);
    assert(rest =~= playlist_word() + seq![sep] + id);
    lemma_no_sep_in_alnum(id, sep);
    lemma_last_index_of_suffix(playlist_word(), sep, id);
    assert(rest.take(8) =~= playlist_word());
    assert(rest.skip(9) =~= id);
}

/// The source and the target playlist of a one-way synchronisation.
#[derive(Debug)]
pub struct SyncPair {
    pub source: String,
    pub target: String,
}

/// Why two configured playlists cannot be synchronised.
#[derive(PartialEq, Eq, Structural, Debug, Clone, Copy)]
pub enum SyncSetupError {
    /// The source is not a playlist id or URI.
    InvalidSource(PlaylistIdError),
    /// The target is not a playlist id or URI.
    InvalidTarget(PlaylistIdError),
    /// Source and target are the same playlist.
    SamePlaylist,
}

/// The view of a checked pair.
pub open spec fn pair_view(r: Result<SyncPair, SyncSetupError>) -> Result<
    (Seq<char>, Seq<char>),
    SyncSetupError,
> {
    match r {
        Ok(p) => Ok((p.source@, p.target@)),
        Err(e) => Err(e),
    }
}

/// The pair that two parsed ids make: the source is checked first, then the
/// target, then that they differ.
pub open spec fn pair_outcome(
    source: Result<Seq<char>, PlaylistIdError>,
    target: Result<Seq<char>, PlaylistIdError>,
) -> Result<(Seq<char>, Seq<char>), SyncSetupError> {
    match source {
        Err(e) => Err(SyncSetupError::InvalidSource(e)),
        Ok(s) => match target {
            Err(e) => Err(SyncSetupError::InvalidTarget(e)),
            Ok(t) => if s == t {
                Err(SyncSetupError::SamePlaylist)
            } else {
                Ok((s, t))
            },
        },
    }
}

/// Two ids that parse and differ make a pair with the first as the source
/// and the second as the target; a pair is only ever made that way, from two
/// different ids; the same id twice is refused; and a source that does not
/// parse is reported whatever the target.
pub proof fn law_pair_keeps_roles(
    source: Result<Seq<char>, PlaylistIdError>,
    target: Result<Seq<char>, PlaylistIdError>,
)
    ensures
        (source matches Ok(s) ==> (target matches Ok(t) ==> (s != t ==> pair_outcome(source, target)
            == Ok::<(Seq<char>, Seq<char>), SyncSetupError>((s, t))))),
        (pair_outcome(source, target) matches Ok((x, y)) ==> source == Ok::<
            Seq<char>,
            PlaylistIdError,
        >(x) && target == Ok::<Seq<char>, PlaylistIdError>(y) && x != y),
        (source matches Ok(s) ==> (target == Ok::<Seq<char>, PlaylistIdError>(s) ==> pair_outcome(
            source,
            target,
        ) == Err::<(Seq<char>, Seq<char>), SyncSetupError>(SyncSetupError::SamePlaylist))),
        (source matches Err(e) ==> pair_outcome(source, target) == Err::<
            (Seq<char>, Seq<char>),
            SyncSetupError,
        >(SyncSetupError::InvalidSource(e))),
{
}

/// Makes a pair out of two parsed ids.
pub fn check_sync_pair(
    source: Result<String, PlaylistIdError>,
    target: Result<String, PlaylistIdError>,
) -> (r: Result<SyncPair, SyncSetupError>)
    ensures
        pair_view(r) == pair_outcome(parsed_view(source), parsed_view(target)),
{
    match source {
        Err(e) => Err(SyncSetupError::InvalidSource(e)),
        Ok(s) => match target {
            Err(e) => Err(SyncSetupError::InvalidTarget(e)),
            Ok(t) => {
                if s == t {
                    Err(SyncSetupError::SamePlaylist)
                } else {
                    Ok(SyncPair { source: s, target: t })
                }
            },
        },
    }
}

/// Parses the configured source and target playlists and checks that they
/// make a pair; the same playlist twice never does.
pub fn sync_pair_from_ids(source_id_or_uri: &str, target_id_or_uri: &str) -> (r: Result<
    SyncPair,
    SyncSetupError,
>)
    ensures
        pair_view(r) == pair_outcome(
            playlist_id_result(source_id_or_uri@),
            playlist_id_result(target_id_or_uri@),
        ),
        source_id_or_uri@ == target_id_or_uri@ ==> r is Err,
{
    let s = parse_playlist_id(source_id_or_uri);
    let t = parse_playlist_id(target_id_or_uri);
    check_sync_pair(s, t)
}

} // verus!
