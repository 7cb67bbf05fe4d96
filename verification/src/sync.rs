//! One-way playlist synchronisation: which tracks of a source playlist are
//! missing from a target playlist, and what to ask Spotify to add.
use vstd::prelude::*;

verus! {

/// One entry of a playlist, as far as synchronisation reads it.
#[derive(Debug)]
pub enum PlaylistEntry {
    /// A track; local tracks may have no Spotify id.
    Track { id: Option<String> },
    /// A podcast episode.
    Episode,
    /// An entry whose item Spotify no longer returns.
    Missing,
}

/// A playlist entry as plain values.
pub enum EntryView {
    Track(Option<Seq<char>>),
    Episode,
    Missing,
}

/// The view of an optional track id.
pub open spec fn id_view(o: Option<String>) -> Option<Seq<char>> {
    match o {
        Some(s) => Some(s@),
        None => None,
    }
}

impl View for PlaylistEntry {
    type V = EntryView;

    open spec fn view(&self) -> EntryView {
        match self {
            PlaylistEntry::Track { id } => EntryView::Track(id_view(*id)),
            PlaylistEntry::Episode => EntryView::Episode,
            PlaylistEntry::Missing => EntryView::Missing,
        }
    }
}

/// The views of the entries of a playlist.
pub open spec fn entries_view(p: Seq<PlaylistEntry>) -> Seq<EntryView> {
    p.map_values(|e: PlaylistEntry| e@)
}

/// The views of a list of optional track ids.
pub open spec fn ids_view(v: Seq<Option<String>>) -> Seq<Option<Seq<char>>> {
    v.map_values(|o: Option<String>| id_view(o))
}

/// The playlist holds a track whose id equals `id` (two tracks without an id
/// count as equal).
pub open spec fn has_track(p: Seq<EntryView>, id: Option<Seq<char>>) -> bool {
    exists|k: int| 0 <= k < p.len() && p[k] == EntryView::Track(id)
}

/// The ids of the tracks of `src` that `tgt` lacks, in the order of `src`.
pub open spec fn unsynced(src: Seq<EntryView>, tgt: Seq<EntryView>) -> Seq<Option<Seq<char>>>
    decreases src.len(),
{
    if src.len() == 0 {
        Seq::empty()
    } else {
        let rest = unsynced(src.drop_last(), tgt);
        match src.last() {
            EntryView::Track(id) => if has_track(tgt, id) {
                rest
            } else {
                rest.push(id)
            },
            _ => rest,
        }
    }
}

/// The entries that adding the tracks with the ids `ids` appends.
pub open spec fn tracks_of(ids: Seq<Option<Seq<char>>>) -> Seq<EntryView> {
    ids.map_values(|id: Option<Seq<char>>| EntryView::Track(id))
}

/// Whether two optional track ids are equal.
fn same_id(a: &Option<String>, b: &Option<String>) -> (r: bool)
    ensures
        r == (id_view(*a) == id_view(*b)),
{
    match a {
        Some(x) => match b {
            Some(y) => *x == *y,
            None => false,
        },
        None => b.is_none(),
    }
}

/// Whether `playlist` holds a track with the id `track_id`.
pub fn track_in_playlist(track_id: &Option<String>, playlist: &Vec<PlaylistEntry>) -> (r: bool)
    ensures
        r == has_track(entries_view(playlist@), id_view(*track_id)),
{
    let ghost p = entries_view(playlist@);
    let n = playlist.len();
    let mut i: usize = 0;
    while i < n
        invariant
            n == playlist@.len(),
            p == entries_view(playlist@),
            i <= n,
            forall|k: int| 0 <= k < i ==> p[k] != EntryView::Track(id_view(*track_id)),
        decreases n - i,
    {
        match &playlist[i] {
            PlaylistEntry::Track { id } => {
                if same_id(id, track_id) {
                    assert(p[i as int] == EntryView::Track(id_view(*track_id)));
                    return true;
                }
            },
            _ => {},
        }
        i = i + 1;
    }
    false
}

/// The ids of the tracks of the source playlist that the target playlist
/// lacks, in source order.
pub fn get_unsynced_tracks(source_playlist: Vec<PlaylistEntry>, target_playlist: Vec<
    PlaylistEntry,
>) -> (r: Vec<Option<String>>)
    ensures
        ids_view(r@) == unsynced(entries_view(source_playlist@), entries_view(target_playlist@)),
{
    let ghost src = entries_view(source_playlist@);
    let ghost tgt = entries_view(target_playlist@);
    let mut out: Vec<Option<String>> = Vec::new();
    let n = source_playlist.len();
    let mut i: usize = 0;
    while i < n
        invariant
            n == source_playlist@.len(),
            src == entries_view(source_playlist@),
            tgt == entries_view(target_playlist@),
            i <= n,
            ids_view(out@) == unsynced(src.take(i as int), tgt),
        decreases n - i,
    {
        assert(src.take(i + 1).drop_last() == src.take(i as int));
        match &source_playlist[i] {
            PlaylistEntry::Track { id } => {
                let synced = track_in_playlist(id, &target_playlist);
                if !synced {
                    let c = match id {
                        Some(s) => Some(s.clone()),
                        None => None,
                    };
                    let ghost before = out@;
                    out.push(c);
                    assert(ids_view(out@) =~= ids_view(before).push(id_view(c)));
                }
            },
            _ => {},
        }
        i = i + 1;
    }
    assert(src.take(n as int) == src);
    out
}

/// What one round of synchronisation asks Spotify to do.
#[derive(Debug)]
pub enum SyncPlan {
    /// Every track of the source is in the target already.
    NothingToSync,
    /// Add the tracks with these ids to the target, in this order.
    AddTracks(Vec<String>),
}

/// The views of a list of strings.
pub open spec fn strings_view(v: Seq<String>) -> Seq<Seq<char>> {
    v.map_values(|s: String| s@)
}

/// Every id in `u` is known.
pub open spec fn all_known(u: Seq<Option<Seq<char>>>) -> bool {
    forall|i: int| 0 <= i < u.len() ==> u[i] is Some
}

/// The ids in `u`, without the `Some`.
pub open spec fn known_ids(u: Seq<Option<Seq<char>>>) -> Seq<Seq<char>> {
    u.map_values(|o: Option<Seq<char>>| o->0)
}

/// `plan` adds exactly the tracks with the ids `u`, in order, and is
/// `NothingToSync` exactly when `u` is empty.
pub open spec fn plan_follows(plan: SyncPlan, u: Seq<Option<Seq<char>>>) -> bool {
    &&& (plan is NothingToSync <==> u.len() == 0)
    &&& (plan matches SyncPlan::AddTracks(ids) ==> strings_view(ids@) == known_ids(u))
}

/// Decides one round of synchronisation from the contents of the two playlists.
pub fn plan_sync(source_playlist: Vec<PlaylistEntry>, target_playlist: Vec<PlaylistEntry>) -> (plan:
    SyncPlan)
    requires
        all_known(unsynced(entries_view(source_playlist@), entries_view(target_playlist@))),
    ensures
        plan_follows(plan, unsynced(entries_view(source_playlist@), entries_view(target_playlist@))),
{
    let ghost u = unsynced(entries_view(source_playlist@), entries_view(target_playlist@));
    let missing = get_unsynced_tracks(source_playlist, target_playlist);
    if missing.len() == 0 {
        return SyncPlan::NothingToSync;
    }
    let mut ids: Vec<String> = Vec::new();
    let n = missing.len();
    let mut i: usize = 0;
    while i < n
        invariant
            n == missing@.len(),
            ids_view(missing@) == u,
            all_known(u),
            i <= n,
            strings_view(ids@) == known_ids(u).take(i as int),
        decreases n - i,
    {
        assert(u[i as int] is Some);
        match &missing[i] {
            Some(s) => {
                let ghost before = ids@;
                assert(u.len() == n);
                assert(known_ids(u).len() == n);
                assert(strings_view(before).len() == i);
                ids.push(s.clone());
                assert(strings_view(ids@) =~= known_ids(u).take(i + 1)) by {
                    assert(before.map_values(|s: String| s@) == known_ids(u).take(i as int));
                    assert(ids@ == before.push(*s));
                    assert(missing@[i as int] == Some(*s));
                    assert(u[i as int] == id_view(missing@[i as int]));
                    assert(known_ids(u)[i as int] == s@);
                    assert forall|j: int| 0 <= j < i + 1 implies #[trigger] strings_view(ids@)[j]
                        == known_ids(u).take(i + 1)[j] by {
                        if j < i {
                            assert(ids@[j] == before[j]);
                            assert(strings_view(before)[j] == known_ids(u).take(
                                i as int,
                            )[j]);
                        }
                    }
                };
            },
            None => {
                assert(false);
            },
        }
        i = i + 1;
    }
    assert(known_ids(u).take(n as int) =~= known_ids(u));
    SyncPlan::AddTracks(ids)
}

/// Decides one round of synchronisation from what fetching the two
/// playlists gave (`None` where the fetch failed). Only tracks known to be
/// missing from the target are added: when the target could not be read,
/// nothing is known to be missing and nothing is added; a source that could
/// not be read has no tracks to add.
pub fn plan_sync_round(source: Option<Vec<PlaylistEntry>>, target: Option<Vec<PlaylistEntry>>) -> (plan:
    SyncPlan)
    requires
        (source matches Some(s) ==> (target matches Some(t) ==> all_known(
            unsynced(entries_view(s@), entries_view(t@)),
        ))),
    ensures
        (match (source, target) {
            (Some(s), Some(t)) => plan_follows(plan, unsynced(entries_view(s@), entries_view(t@))),
            _ => plan is NothingToSync,
        }),
{
    match source {
        Some(s) => match target {
            Some(t) => plan_sync(s, t),
            None => SyncPlan::NothingToSync,
        },
        None => SyncPlan::NothingToSync,
    }
}

/// Each id that synchronisation finds missing names a track of the source
/// that the target lacks, and each track of the source that the target lacks
/// is found missing.
pub proof fn law_unsynced_exactly_missing(src: Seq<EntryView>, tgt: Seq<EntryView>)
    ensures
        forall|i: int|
            0 <= i < unsynced(src, tgt).len() ==> has_track(src, #[trigger] unsynced(src, tgt)[i])
                && !has_track(tgt, unsynced(src, tgt)[i]),
        forall|id: Option<Seq<char>>|
            has_track(src, id) && !has_track(tgt, id) ==> #[trigger] unsynced(src, tgt).contains(id),
    decreases src.len(),
{
    if src.len() > 0 {
        let s0 = src.drop_last();
        law_unsynced_exactly_missing(s0, tgt);
        let u0 = unsynced(s0, tgt);
        let u = unsynced(src, tgt);
        assert forall|id: Option<Seq<char>>| has_track(s0, id) implies has_track(src, id) by {
            let k = choose|k: int| 0 <= k < s0.len() && s0[k] == EntryView::Track(id);
            assert(src[k] == s0[k]);
        }
        assert forall|i: int| 0 <= i < u.len() implies has_track(src, #[trigger] u[i]) && !has_track(
            tgt,
            u[i],
        ) by {
            if i < u0.len() {
                assert(u[i] == u0[i]);
            } else {
                assert(src[src.len() - 1] == EntryView::Track(u[i]));
            }
        }
        assert forall|id: Option<Seq<char>>|
            has_track(src, id) && !has_track(tgt, id) implies #[trigger] u.contains(id) by {
            let k = choose|k: int| 0 <= k < src.len() && src[k] == EntryView::Track(id);
            if k < s0.len() {
                assert(s0[k] == src[k]);
                assert(u0.contains(id));
                let m = choose|m: int| 0 <= m < u0.len() && u0[m] == id;
                assert(u[m] == id);
            } else {
                assert(u[u.len() - 1] == id);
            }
        }
    }
}

/// A target that holds every track of another finds no more tracks missing,
/// and only tracks that the other finds missing too.
pub proof fn law_larger_target_fewer_missing(src: Seq<EntryView>, t1: Seq<EntryView>, t2: Seq<EntryView>)
    requires
        forall|id: Option<Seq<char>>| has_track(t1, id) ==> has_track(t2, id),
    ensures
        unsynced(src, t2).len() <= unsynced(src, t1).len(),
        forall|id: Option<Seq<char>>| #[trigger] unsynced(src, t2).contains(id) ==> unsynced(src, t1).contains(id),
    decreases src.len(),
{
    if src.len() > 0 {
        let s0 = src.drop_last();
        law_larger_target_fewer_missing(s0, t1, t2);
        let a0 = unsynced(s0, t1);
        let b0 = unsynced(s0, t2);
        let a = unsynced(src, t1);
        let b = unsynced(src, t2);
        assert forall|id: Option<Seq<char>>| #[trigger] b.contains(id) implies a.contains(id) by {
            let k = choose|k: int| 0 <= k < b.len() && b[k] == id;
            if k < b0.len() {
                assert(b0[k] == id);
                assert(b0.contains(id));
                let m = choose|m: int| 0 <= m < a0.len() && a0[m] == id;
                if let EntryView::Track(x) = src.last() {
                    if !has_track(t1, x) {
                        assert(a[m] == id);
                    }
                }
                assert(a[m] == id);
            } else {
                assert(a[a.len() - 1] == id);
            }
        }
    }
}

/// The entries of `src` that are tracks the target lacks.
pub open spec fn is_missing_track(tgt: Seq<EntryView>, e: EntryView) -> bool {
    match e {
        EntryView::Track(id) => !has_track(tgt, id),
        _ => false,
    }
}

/// How many entries of the source are tracks that the target lacks.
pub open spec fn missing_count(src: Seq<EntryView>, tgt: Seq<EntryView>) -> nat {
    src.filter(|e: EntryView| is_missing_track(tgt, e)).len()
}

proof fn lemma_unsynced_len(src: Seq<EntryView>, tgt: Seq<EntryView>)
    ensures
        unsynced(src, tgt).len() == missing_count(src, tgt),
    decreases src.len(),
{
    reveal(Seq::filter);
    if src.len() > 0 {
        lemma_unsynced_len(src.drop_last(), tgt);
    }
}

/// A plan to add tracks holds one id for each entry of the source that is a
/// track the target lacks; it asks for every such track and for no other.
/// A plan to add nothing is made only when the target holds every track of
/// the source.
pub proof fn law_plan_adds_every_missing_track(src: Seq<EntryView>, tgt: Seq<EntryView>, plan: SyncPlan)
    requires
        all_known(unsynced(src, tgt)),
        plan_follows(plan, unsynced(src, tgt)),
    ensures
        plan matches SyncPlan::AddTracks(ids) ==> strings_view(ids@).len() == missing_count(src, tgt),
        plan matches SyncPlan::AddTracks(ids) ==> (forall|x: Seq<char>|
            has_track(src, Some(x)) && !has_track(tgt, Some(x)) ==> #[trigger] strings_view(
                ids@,
            ).contains(x)),
        plan matches SyncPlan::AddTracks(ids) ==> (forall|x: Seq<char>|
            #[trigger] strings_view(ids@).contains(x) ==> has_track(src, Some(x)) && !has_track(
                tgt,
                Some(x),
            )),
        plan is NothingToSync ==> (forall|id: Option<Seq<char>>|
            #[trigger] has_track(src, id) ==> has_track(tgt, id)),
{
    let u = unsynced(src, tgt);
    law_unsynced_exactly_missing(src, tgt);
    lemma_unsynced_len(src, tgt);
    match plan {
        SyncPlan::AddTracks(ids) => {
            let v = strings_view(ids@);
            assert(v == known_ids(u));
            assert forall|x: Seq<char>| has_track(src, Some(x)) && !has_track(tgt, Some(x)) implies #[trigger] v.contains(x) by {
                assert(u.contains(Some(x)));
                let k = choose|k: int| 0 <= k < u.len() && u[k] == Some(x);
                assert(v[k] == x);
            }
            assert forall|x: Seq<char>| #[trigger] v.contains(x) implies has_track(src, Some(x)) && !has_track(tgt, Some(x)) by {
                let k = choose|k: int| 0 <= k < v.len() && v[k] == x;
                assert(u[k] is Some);
                assert(u[k] == Some(x));
            }
        },
        SyncPlan::NothingToSync => {
            assert forall|id: Option<Seq<char>>| #[trigger] has_track(src, id) implies has_track(tgt, id) by {
                if !has_track(tgt, id) {
                    assert(u.contains(id));
                }
            }
        },
    }
}

/// When every track of the source is in `tgt`, nothing is missing.
proof fn lemma_nothing_missing(src: Seq<EntryView>, tgt: Seq<EntryView>)
    requires
        forall|id: Option<Seq<char>>| has_track(src, id) ==> has_track(tgt, id),
    ensures
        unsynced(src, tgt).len() == 0,
    decreases src.len(),
{
    if src.len() > 0 {
        let s0 = src.drop_last();
        assert forall|id: Option<Seq<char>>| has_track(s0, id) implies has_track(tgt, id) by {
            let k = choose|k: int| 0 <= k < s0.len() && s0[k] == EntryView::Track(id);
            assert(src[k] == s0[k]);
        }
        lemma_nothing_missing(s0, tgt);
        if let EntryView::Track(id) = src.last() {
            assert(has_track(src, id));
        }
    }
}

/// Once the missing tracks have been added to the target, a second round of
/// synchronisation finds nothing missing.
pub proof fn law_sync_converges(src: Seq<EntryView>, tgt: Seq<EntryView>)
    ensures
        unsynced(src, tgt + tracks_of(unsynced(src, tgt))).len() == 0,
{
    let u = unsynced(src, tgt);
    let t2 = tgt + tracks_of(u);
    law_unsynced_exactly_missing(src, tgt);
    assert forall|id: Option<Seq<char>>| has_track(src, id) implies has_track(t2, id) by {
        if has_track(tgt, id) {
            let k = choose|k: int| 0 <= k < tgt.len() && tgt[k] == EntryView::Track(id);
            assert(t2[k] == tgt[k]);
        } else {
            assert(u.contains(id));
            let m = choose|m: int| 0 <= m < u.len() && u[m] == id;
            assert(t2[tgt.len() + m] == EntryView::Track(id));
        }
    }
    lemma_nothing_missing(src, t2);
}

/// A playlist synchronised with itself has nothing missing.
pub proof fn law_sync_with_itself(p: Seq<EntryView>)
    ensures
        unsynced(p, p).len() == 0,
{
    lemma_nothing_missing(p, p);
}

} // verus!
