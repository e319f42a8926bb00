//! Playlists: an ordered list of audio files, each with silence before and
//! after it.
//!
//! The functions here act on the list of playlists the application holds.
//! A playlist is found by the first entry carrying the requested id, as
//! with a search from the front of the list.
use vstd::prelude::*;

use crate::ids::{new_uuid_string, now_rfc3339};
use crate::state::PlaylistPlaybackState;
use crate::text::{push_str, str_eq, to_owned_string};
use crate::types::{AudioFileInfo, F32Bits, PlaylistInfo, PlaylistItemInfo, PlaylistPlaybackInfo};

verus! {

/// `i` is the position of the first playlist whose id is `id`.
pub open spec fn is_first_playlist(ps: Seq<PlaylistInfo>, id: Seq<char>, i: int) -> bool {
    &&& 0 <= i < ps.len()
    &&& ps[i].id@ == id
    &&& forall|j: int| 0 <= j < i ==> ps[j].id@ != id
}

/// Some playlist has the id `id`.
pub open spec fn has_playlist(ps: Seq<PlaylistInfo>, id: Seq<char>) -> bool {
    exists|i: int| 0 <= i < ps.len() && ps[i].id@ == id
}

/// Position of the first playlist whose id is `id`.
pub open spec fn playlist_pos(ps: Seq<PlaylistInfo>, id: Seq<char>) -> int {
    choose|i: int| is_first_playlist(ps, id, i)
}

/// `i` is the position of the first item whose id is `id`.
pub open spec fn is_first_item(items: Seq<PlaylistItemInfo>, id: Seq<char>, i: int) -> bool {
    &&& 0 <= i < items.len()
    &&& items[i].id@ == id
    &&& forall|j: int| 0 <= j < i ==> items[j].id@ != id
}

/// Some item has the id `id`.
pub open spec fn has_item(items: Seq<PlaylistItemInfo>, id: Seq<char>) -> bool {
    exists|i: int| 0 <= i < items.len() && items[i].id@ == id
}

/// Position of the first item whose id is `id`.
pub open spec fn item_pos(items: Seq<PlaylistItemInfo>, id: Seq<char>) -> int {
    choose|i: int| is_first_item(items, id, i)
}

/// The message for a missing playlist.
pub open spec fn playlist_not_found(id: Seq<char>) -> Seq<char> {
    "Playlist not found: "@ + id
}

/// The message for a missing playlist item.
pub open spec fn item_not_found(id: Seq<char>) -> Seq<char> {
    "Playlist item not found: "@ + id
}

/// The message for an unknown id in a requested order.
pub open spec fn item_not_in_playlist(id: Seq<char>) -> Seq<char> {
    "Item not found in playlist: "@ + id
}

/// Error result carrying exactly the message `m`.
pub open spec fn is_err_msg<T>(r: Result<T, String>, m: Seq<char>) -> bool {
    r matches Err(e) && e@ == m
}

fn message(prefix: &str, id: &str) -> (r: String)
    ensures
        r@ == prefix@ + id@,
{
    let mut r = String::new();
    push_str(&mut r, prefix);
    push_str(&mut r, id);
    assert(r@ =~= prefix@ + id@);
    r
}

/// Finds the first playlist with the given id.
pub fn find_playlist(ps: &[PlaylistInfo], id: &str) -> (r: Option<usize>)
    ensures
        match r {
            Some(i) => is_first_playlist(ps@, id@, i as int) && playlist_pos(ps@, id@) == i,
            None => !has_playlist(ps@, id@),
        },
{
    let mut i: usize = 0;
    while i < ps.len()
        invariant
            i <= ps@.len(),
            forall|j: int| 0 <= j < i ==> ps@[j].id@ != id@,
        decreases ps@.len() - i,
    {
        if str_eq(ps[i].id.as_str(), id) {
            assert(is_first_playlist(ps@, id@, i as int));
            return Some(i);
        }
        i = i + 1;
    }
    None
}

/// Finds the first item with the given id.
pub fn find_item(items: &[PlaylistItemInfo], id: &str) -> (r: Option<usize>)
    ensures
        match r {
            Some(i) => is_first_item(items@, id@, i as int) && item_pos(items@, id@) == i,
            None => !has_item(items@, id@),
        },
{
    let mut i: usize = 0;
    while i < items.len()
        invariant
            i <= items@.len(),
            forall|j: int| 0 <= j < i ==> items@[j].id@ != id@,
        decreases items@.len() - i,
    {
        if str_eq(items[i].id.as_str(), id) {
            assert(is_first_item(items@, id@, i as int));
            return Some(i);
        }
        i = i + 1;
    }
    None
}

/// Creates an empty playlist with the given id and creation time, appends
/// it to `playlists`, and returns a copy of it.
pub fn create_playlist_at(playlists: &mut Vec<PlaylistInfo>, id: String, name: String, now: String) -> (r:
    PlaylistInfo)
    ensures
        r.id == id && r.name == name && r.created_at == now && r.items@.len() == 0,
        final(playlists)@.len() == old(playlists)@.len() + 1,
        final(playlists)@.drop_last() == old(playlists)@,
        final(playlists)@.last().id == id,
        final(playlists)@.last().name == name,
        final(playlists)@.last().created_at == now,
        final(playlists)@.last().items@.len() == 0,
{
    let playlist = PlaylistInfo { id, name, items: Vec::new(), created_at: now };
    let r = playlist.clone();
    playlists.push(playlist);
    r
}

/// Create a new playlist with a fresh id, created now.
pub fn create_playlist(playlists: &mut Vec<PlaylistInfo>, name: String) -> (r: PlaylistInfo)
    ensures
        r.name == name && r.items@.len() == 0,
        final(playlists)@.len() == old(playlists)@.len() + 1,
        final(playlists)@.drop_last() == old(playlists)@,
        final(playlists)@.last().id == r.id,
        final(playlists)@.last().name == name,
        final(playlists)@.last().created_at == r.created_at,
        final(playlists)@.last().items@.len() == 0,
{
    let id = new_uuid_string();
    let now = now_rfc3339();
    create_playlist_at(playlists, id, name, now)
}

/// Name of the first loaded audio file with id `file_id`, or "unknown".
pub open spec fn audio_file_name_of(files: Seq<AudioFileInfo>, file_id: Seq<char>) -> Seq<char> {
    if exists|i: int| 0 <= i < files.len() && files[i].id@ == file_id {
        files[choose|i: int|
            0 <= i < files.len() && files[i].id@ == file_id && forall|j: int|
                0 <= j < i ==> files[j].id@ != file_id].name@
    } else {
        "unknown"@
    }
}

fn lookup_file_name(files: &[AudioFileInfo], file_id: &str) -> (r: String)
    ensures
        r@ == audio_file_name_of(files@, file_id@),
{
    let mut i: usize = 0;
    while i < files.len()
        invariant
            i <= files@.len(),
            forall|j: int| 0 <= j < i ==> files@[j].id@ != file_id@,
        decreases files@.len() - i,
    {
        if str_eq(files[i].id.as_str(), file_id) {
            let ghost w = choose|k: int|
                0 <= k < files@.len() && files@[k].id@ == file_id@ && forall|j: int|
                    0 <= j < k ==> files@[j].id@ != file_id@;
            assert(0 <= i < files@.len() && files@[i as int].id@ == file_id@ && forall|j: int|
                0 <= j < i ==> files@[j].id@ != file_id@);
            assert(w == i);
            return files[i].name.clone();
        }
        i = i + 1;
    }
    to_owned_string("unknown")
}

/// The item appended by [`add_to_playlist_at`].
pub open spec fn is_added_item(
    it: PlaylistItemInfo,
    item_id: Seq<char>,
    file_id: Seq<char>,
    file_name: Seq<char>,
    order_index: i32,
    pre: F32Bits,
    post: F32Bits,
) -> bool {
    &&& it.id@ == item_id
    &&& it.audio_file_id@ == file_id
    &&& it.audio_file_name@ == file_name
    &&& it.order_index == order_index
    &&& it.pre_silence_sec == pre
    &&& it.post_silence_sec == post
}

/// `new` is `old` with only the items of playlist `i` changed, to `items`.
pub open spec fn playlists_with_items(
    old: Seq<PlaylistInfo>,
    new: Seq<PlaylistInfo>,
    i: int,
    items: Seq<PlaylistItemInfo>,
) -> bool {
    &&& new.len() == old.len()
    &&& forall|j: int| 0 <= j < old.len() && j != i ==> new[j] == old[j]
    &&& new[i].id == old[i].id
    &&& new[i].name == old[i].name
    &&& new[i].created_at == old[i].created_at
    &&& new[i].items@ == items
}

/// Adds an audio file, with its silences, at the end of a playlist; the
/// item takes the given id and the name of the loaded file (or "unknown").
pub fn add_to_playlist_at(
    playlists: &mut Vec<PlaylistInfo>,
    audio_files: &[AudioFileInfo],
    playlist_id: &str,
    file_id: String,
    pre_silence_sec: F32Bits,
    post_silence_sec: F32Bits,
    item_id: String,
) -> (r: Result<(), String>)
    ensures
        !has_playlist(old(playlists)@, playlist_id@) ==> is_err_msg(r, playlist_not_found(playlist_id@))
            && final(playlists)@ == old(playlists)@,
        has_playlist(old(playlists)@, playlist_id@) ==> {
            let i = playlist_pos(old(playlists)@, playlist_id@);
            let items = final(playlists)@[i].items@;
            &&& r is Ok
            &&& playlists_with_items(old(playlists)@, final(playlists)@, i, items)
            &&& items.len() == old(playlists)@[i].items@.len() + 1
            &&& items.drop_last() == old(playlists)@[i].items@
            &&& is_added_item(
                items.last(),
                item_id@,
                file_id@,
                audio_file_name_of(audio_files@, file_id@),
                old(playlists)@[i].items@.len() as i32,
                pre_silence_sec,
                post_silence_sec,
            )
        },
{
    match find_playlist(playlists.as_slice(), playlist_id) {
        None => Err(message("Playlist not found: ", playlist_id)),
        Some(i) => {
            let order_index = playlists[i].items.len() as i32;
            let audio_file_name = lookup_file_name(audio_files, file_id.as_str());
            let item = PlaylistItemInfo {
                id: item_id,
                audio_file_id: file_id,
                audio_file_name,
                order_index,
                pre_silence_sec,
                post_silence_sec,
            };
            playlists[i].items.push(item);
            Ok(())
        },
    }
}

/// Add an audio file to a playlist under a fresh item id.
pub fn add_to_playlist(
    playlists: &mut Vec<PlaylistInfo>,
    audio_files: &[AudioFileInfo],
    playlist_id: &str,
    file_id: String,
    pre_silence_sec: F32Bits,
    post_silence_sec: F32Bits,
) -> (r: Result<(), String>)
    ensures
        !has_playlist(old(playlists)@, playlist_id@) ==> is_err_msg(r, playlist_not_found(playlist_id@))
            && final(playlists)@ == old(playlists)@,
        has_playlist(old(playlists)@, playlist_id@) ==> {
            let i = playlist_pos(old(playlists)@, playlist_id@);
            let items = final(playlists)@[i].items@;
            &&& r is Ok
            &&& playlists_with_items(old(playlists)@, final(playlists)@, i, items)
            &&& items.len() == old(playlists)@[i].items@.len() + 1
            &&& items.drop_last() == old(playlists)@[i].items@
            &&& is_added_item(
                items.last(),
                items.last().id@,
                file_id@,
                audio_file_name_of(audio_files@, file_id@),
                old(playlists)@[i].items@.len() as i32,
                pre_silence_sec,
                post_silence_sec,
            )
        },
{
    let item_id = new_uuid_string();
    add_to_playlist_at(playlists, audio_files, playlist_id, file_id, pre_silence_sec, post_silence_sec, item_id)
}

/// List all playlists (copies, in stored order).
pub fn list_playlists(playlists: &[PlaylistInfo]) -> (r: Vec<PlaylistInfo>)
    ensures
        r@.len() == playlists@.len(),
        forall|i: int|
            0 <= i < r@.len() ==> #[trigger] r@[i].id == playlists@[i].id && r@[i].name
                == playlists@[i].name && r@[i].created_at == playlists@[i].created_at
                && r@[i].items@ == playlists@[i].items@,
{
    let mut r: Vec<PlaylistInfo> = Vec::new();
    let mut i: usize = 0;
    while i < playlists.len()
        invariant
            i <= playlists@.len(),
            r@.len() == i,
            forall|k: int|
                0 <= k < i ==> #[trigger] r@[k].id == playlists@[k].id && r@[k].name
                    == playlists@[k].name && r@[k].created_at == playlists@[k].created_at
                    && r@[k].items@ == playlists@[k].items@,
        decreases playlists@.len() - i,
    {
        r.push(playlists[i].clone());
        i = i + 1;
    }
    r
}

/// Get a copy of the first playlist with the given id.
pub fn get_playlist(playlists: &[PlaylistInfo], playlist_id: &str) -> (r: Result<PlaylistInfo, String>)
    ensures
        !has_playlist(playlists@, playlist_id@) ==> is_err_msg(r, playlist_not_found(playlist_id@)),
        has_playlist(playlists@, playlist_id@) ==> (r matches Ok(p) && {
            let q = playlists@[playlist_pos(playlists@, playlist_id@)];
            p.id == q.id && p.name == q.name && p.created_at == q.created_at && p.items@ == q.items@
        }),
{
    match find_playlist(playlists, playlist_id) {
        None => Err(message("Playlist not found: ", playlist_id)),
        Some(i) => Ok(playlists[i].clone()),
    }
}


/// The predicate "this playlist does not have id `id`".
pub open spec fn other_playlist(id: Seq<char>) -> spec_fn(PlaylistInfo) -> bool {
    |p: PlaylistInfo| p.id@ != id
}

/// Delete every playlist with the given id.
pub fn delete_playlist(playlists: &mut Vec<PlaylistInfo>, playlist_id: &str) -> (r: Result<(), String>)
    ensures
        final(playlists)@ == old(playlists)@.filter(other_playlist(playlist_id@)),
        has_playlist(old(playlists)@, playlist_id@) <==> r is Ok,
        r is Err ==> is_err_msg(r, playlist_not_found(playlist_id@)),
{
    let ghost old_ps = old(playlists)@;
    let ghost keep = other_playlist(playlist_id@);
    let len_before = playlists.len();
    let mut j: usize = playlists.len();
    assert(old_ps.skip(old_ps.len() as int) =~= Seq::<PlaylistInfo>::empty());
    assert(old_ps.take(old_ps.len() as int) =~= old_ps);
    proof {
        reveal(Seq::filter);
    }
    while j > 0
        invariant
            j <= old_ps.len(),
            len_before == old_ps.len(),
            keep == other_playlist(playlist_id@),
            playlists@ == old_ps.take(j as int) + old_ps.skip(j as int).filter(keep),
        decreases j,
    {
        j = j - 1;
        let ghost tail = old_ps.skip(j + 1);
        assert(old_ps.skip(j as int) =~= seq![old_ps[j as int]] + tail);
        proof {
            tail.lemma_filter_prepend(old_ps[j as int], keep);
        }
        assert(old_ps.take(j + 1) =~= old_ps.take(j as int).push(old_ps[j as int]));
        assert(playlists@[j as int] == old_ps[j as int]);
        assert(seq![old_ps[j as int]] + tail == old_ps.skip(j as int));
        if str_eq(playlists[j].id.as_str(), playlist_id) {
            assert(!keep(old_ps[j as int]));
            assert(old_ps.skip(j as int).filter(keep) == tail.filter(keep));
            playlists.remove(j);
            assert(playlists@ =~= old_ps.take(j as int) + old_ps.skip(j as int).filter(keep));
        } else {
            assert(keep(old_ps[j as int]));
            assert(old_ps.skip(j as int).filter(keep) == seq![old_ps[j as int]] + tail.filter(keep));
            assert(playlists@ =~= old_ps.take(j as int) + old_ps.skip(j as int).filter(keep));
        }
    }
    assert(old_ps.skip(0) =~= old_ps);
    assert(old_ps.take(0) =~= Seq::<PlaylistInfo>::empty());
    assert(playlists@ =~= old_ps.filter(keep));
    proof {
        old_ps.lemma_filter_len(keep);
        if has_playlist(old_ps, playlist_id@) {
            let w = choose|i: int| 0 <= i < old_ps.len() && old_ps[i].id@ == playlist_id@;
            assert(!old_ps.filter(keep).contains(old_ps[w])) by {
                broadcast use vstd::seq_lib::group_filter_ensures;

            }
            assert(old_ps.contains(old_ps[w]));
            if old_ps.filter(keep).len() == old_ps.len() {
                lemma_filter_len_same(old_ps, keep);
            }
        } else {
            assert forall|i: int| 0 <= i < old_ps.len() implies keep(old_ps[i]) by {}
            lemma_filter_all(old_ps, keep);
        }
    }
    if playlists.len() == len_before {
        return Err(message("Playlist not found: ", playlist_id));
    }
    Ok(())
}

/// A filter that keeps every element keeps the sequence unchanged.
pub(crate) proof fn lemma_filter_all<A>(s: Seq<A>, pred: spec_fn(A) -> bool)
    requires
        forall|i: int| 0 <= i < s.len() ==> pred(s[i]),
    ensures
        s.filter(pred) == s,
    decreases s.len(),
{
    reveal(Seq::filter);
    if s.len() > 0 {
        lemma_filter_all(s.drop_last(), pred);
    }
}

/// A filter that keeps as many elements as there are keeps all of them.
pub(crate) proof fn lemma_filter_len_same<A>(s: Seq<A>, pred: spec_fn(A) -> bool)
    requires
        s.filter(pred).len() == s.len(),
    ensures
        forall|i: int| 0 <= i < s.len() ==> pred(#[trigger] s[i]),
    decreases s.len(),
{
    reveal(Seq::filter);
    if s.len() > 0 {
        s.drop_last().lemma_filter_len(pred);
        if !pred(s.last()) {
            assert(s.filter(pred).len() == s.drop_last().filter(pred).len());
        } else {
            lemma_filter_len_same(s.drop_last(), pred);
            assert forall|i: int| 0 <= i < s.len() implies pred(#[trigger] s[i]) by {
                if i < s.len() - 1 {
                    assert(s[i] == s.drop_last()[i]);
                }
            }
        }
    }
}

/// An item with its order index set to `k`.
pub open spec fn with_order(it: PlaylistItemInfo, k: int) -> PlaylistItemInfo {
    PlaylistItemInfo { order_index: k as i32, ..it }
}

/// Items with order indices renumbered 0, 1, 2, ... by position.
pub open spec fn reindexed(s: Seq<PlaylistItemInfo>) -> Seq<PlaylistItemInfo> {
    Seq::new(s.len(), |k: int| with_order(s[k], k))
}

/// The predicate "this item does not have id `id`".
pub open spec fn other_item(id: Seq<char>) -> spec_fn(PlaylistItemInfo) -> bool {
    |it: PlaylistItemInfo| it.id@ != id
}

/// Copies the items that satisfy `id != item_id`, renumbering them.
fn items_without(items: &[PlaylistItemInfo], item_id: &str) -> (r: Vec<PlaylistItemInfo>)
    ensures
        r@ == reindexed(items@.filter(other_item(item_id@))),
{
    let ghost keep = other_item(item_id@);
    let mut kept: Vec<PlaylistItemInfo> = Vec::new();
    let mut i: usize = 0;
    while i < items.len()
        invariant
            i <= items@.len(),
            keep == other_item(item_id@),
            kept@ == reindexed(items@.take(i as int).filter(keep)),
        decreases items@.len() - i,
    {
        proof {
            items@.take(i as int).lemma_filter_push(items@[i as int], keep);
            assert(items@.take(i + 1) =~= items@.take(i as int).push(items@[i as int]));
        }
        let ghost f = items@.take(i as int).filter(keep);
        let same = str_eq(items[i].id.as_str(), item_id);
        assert(keep(items@[i as int]) == (items@[i as int].id@ != item_id@));
        if !same {
            assert(keep(items@[i as int]));
            let mut it = items[i].clone();
            it.order_index = kept.len() as i32;
            assert(it == with_order(items@[i as int], f.len() as int));
            kept.push(it);
            assert(reindexed(f.push(items@[i as int])) =~= reindexed(f).push(
                with_order(items@[i as int], f.len() as int),
            ));
        } else {
            assert(!keep(items@[i as int]));
        }
        i = i + 1;
        assert(kept@ =~= reindexed(items@.take(i as int).filter(keep)));
    }
    assert(items@.take(items@.len() as int) =~= items@);
    kept
}

/// Remove an item from a playlist and renumber the remaining items.
pub fn remove_from_playlist(playlists: &mut Vec<PlaylistInfo>, playlist_id: &str, item_id: &str) -> (r:
    Result<(), String>)
    ensures
        !has_playlist(old(playlists)@, playlist_id@) ==> is_err_msg(r, playlist_not_found(playlist_id@))
            && final(playlists)@ == old(playlists)@,
        has_playlist(old(playlists)@, playlist_id@) ==> {
            let i = playlist_pos(old(playlists)@, playlist_id@);
            let items = old(playlists)@[i].items@;
            if has_item(items, item_id@) {
                r is Ok && playlists_with_items(
                    old(playlists)@,
                    final(playlists)@,
                    i,
                    reindexed(items.filter(other_item(item_id@))),
                )
            } else {
                is_err_msg(r, item_not_found(item_id@)) && final(playlists)@ == old(playlists)@
            }
        },
{
    match find_playlist(playlists.as_slice(), playlist_id) {
        None => Err(message("Playlist not found: ", playlist_id)),
        Some(i) => {
            match find_item(playlists[i].items.as_slice(), item_id) {
                None => Err(message("Playlist item not found: ", item_id)),
                Some(_) => {
                    let kept = items_without(playlists[i].items.as_slice(), item_id);
                    playlists[i].items = kept;
                    Ok(())
                },
            }
        },
    }
}

/// Set the silences before and after the first item with `item_id` in a playlist.
pub fn update_playlist_item_silence(
    playlists: &mut Vec<PlaylistInfo>,
    playlist_id: &str,
    item_id: &str,
    pre_silence_sec: F32Bits,
    post_silence_sec: F32Bits,
) -> (r: Result<(), String>)
    ensures
        !has_playlist(old(playlists)@, playlist_id@) ==> is_err_msg(r, playlist_not_found(playlist_id@))
            && final(playlists)@ == old(playlists)@,
        has_playlist(old(playlists)@, playlist_id@) ==> {
            let i = playlist_pos(old(playlists)@, playlist_id@);
            let items = old(playlists)@[i].items@;
            if has_item(items, item_id@) {
                let k = item_pos(items, item_id@);
                r is Ok && playlists_with_items(
                    old(playlists)@,
                    final(playlists)@,
                    i,
                    items.update(
                        k,
                        PlaylistItemInfo {
                            pre_silence_sec: pre_silence_sec,
                            post_silence_sec: post_silence_sec,
                            ..items[k]
                        },
                    ),
                )
            } else {
                is_err_msg(r, item_not_found(item_id@)) && final(playlists)@ == old(playlists)@
            }
        },
{
    match find_playlist(playlists.as_slice(), playlist_id) {
        None => Err(message("Playlist not found: ", playlist_id)),
        Some(i) => {
            match find_item(playlists[i].items.as_slice(), item_id) {
                None => Err(message("Playlist item not found: ", item_id)),
                Some(k) => {
                    let mut item = playlists[i].items[k].clone();
                    item.pre_silence_sec = pre_silence_sec;
                    item.post_silence_sec = post_silence_sec;
                    playlists[i].items.set(k, item);
                    Ok(())
                },
            }
        },
    }
}


/// The ids of a list of strings, as character sequences.
pub open spec fn ids_view(ids: Seq<String>) -> Seq<Seq<char>> {
    ids.map_values(|s: String| s@)
}

/// The predicate "this item's id is not among `ids`".
pub open spec fn not_listed(ids: Seq<Seq<char>>) -> spec_fn(PlaylistItemInfo) -> bool {
    |it: PlaylistItemInfo| !ids.contains(it.id@)
}

/// Some requested id has no item.
pub open spec fn has_unknown(items: Seq<PlaylistItemInfo>, ids: Seq<Seq<char>>) -> bool {
    exists|k: int| 0 <= k < ids.len() && !has_item(items, ids[k])
}

/// The first requested id that has no item.
pub open spec fn first_unknown(items: Seq<PlaylistItemInfo>, ids: Seq<Seq<char>>) -> Seq<char> {
    ids[choose|k: int|
        0 <= k < ids.len() && !has_item(items, ids[k]) && forall|m: int|
            0 <= m < k ==> has_item(items, ids[m])]
}

/// The items in the requested order: first the item named by each requested
/// id (numbered by its position in the request), then every item not
/// named, in its old order (numbered on from there).
pub open spec fn reordered_items(items: Seq<PlaylistItemInfo>, ids: Seq<Seq<char>>) -> Seq<
    PlaylistItemInfo,
> {
    let front = Seq::new(ids.len(), |k: int| with_order(items[item_pos(items, ids[k])], k));
    let rest = items.filter(not_listed(ids));
    front + Seq::new(rest.len(), |j: int| with_order(rest[j], ids.len() + j))
}

/// Decides whether `id` is among `ids`.
fn ids_contain(ids: &[String], id: &str) -> (r: bool)
    ensures
        r == ids_view(ids@).contains(id@),
{
    let mut k: usize = 0;
    while k < ids.len()
        invariant
            k <= ids@.len(),
            forall|m: int| 0 <= m < k ==> ids@[m]@ != id@,
        decreases ids@.len() - k,
    {
        if str_eq(ids[k].as_str(), id) {
            assert(ids_view(ids@)[k as int] == id@);
            return true;
        }
        k = k + 1;
    }
    assert forall|m: int| 0 <= m < ids_view(ids@).len() implies ids_view(ids@)[m] != id@ by {}
    false
}

/// Reorder playlist items to follow `item_ids`; items not mentioned keep
/// their relative order after the mentioned ones. Every requested id must
/// belong to an item of the playlist.
pub fn reorder_playlist(playlists: &mut Vec<PlaylistInfo>, playlist_id: &str, item_ids: &[String]) -> (r:
    Result<(), String>)
    requires
        forall|i: int|
            0 <= i < old(playlists)@.len() ==> #[trigger] old(playlists)@[i].items@.len()
                + item_ids@.len() <= i32::MAX,
    ensures
        !has_playlist(old(playlists)@, playlist_id@) ==> is_err_msg(r, playlist_not_found(playlist_id@))
            && final(playlists)@ == old(playlists)@,
        has_playlist(old(playlists)@, playlist_id@) ==> {
            let i = playlist_pos(old(playlists)@, playlist_id@);
            let items = old(playlists)@[i].items@;
            if has_unknown(items, ids_view(item_ids@)) {
                is_err_msg(r, item_not_in_playlist(first_unknown(items, ids_view(item_ids@))))
                    && final(playlists)@ == old(playlists)@
            } else {
                r is Ok && playlists_with_items(
                    old(playlists)@,
                    final(playlists)@,
                    i,
                    reordered_items(items, ids_view(item_ids@)),
                )
            }
        },
{
    let ghost ids = ids_view(item_ids@);
    let i = match find_playlist(playlists.as_slice(), playlist_id) {
        None => {
            return Err(message("Playlist not found: ", playlist_id));
        },
        Some(i) => i,
    };
    let ghost items = playlists@[i as int].items@;
    // Every requested id must name an item.
    let mut k: usize = 0;
    while k < item_ids.len()
        invariant
            k <= item_ids@.len(),
            ids == ids_view(item_ids@),
            items == playlists@[i as int].items@,
            i < playlists@.len(),
            playlists@ == old(playlists)@,
            is_first_playlist(old(playlists)@, playlist_id@, i as int),
            playlist_pos(old(playlists)@, playlist_id@) == i,
            forall|m: int| 0 <= m < k ==> has_item(items, ids[m]),
        decreases item_ids@.len() - k,
    {
        assert(item_ids@[k as int]@ == ids[k as int]);
        if find_item(playlists[i].items.as_slice(), item_ids[k].as_str()).is_none() {
            proof {
                let w = choose|j: int|
                    0 <= j < ids.len() && !has_item(items, ids[j]) && forall|m: int|
                        0 <= m < j ==> has_item(items, ids[m]);
                assert(0 <= k < ids.len() && !has_item(items, ids[k as int]) && forall|m: int|
                    0 <= m < k ==> has_item(items, ids[m]));
                if w < k {
                } else if w > k {
                }
                assert(w == k);
            }
            return Err(message("Item not found in playlist: ", item_ids[k].as_str()));
        }
        k = k + 1;
    }
    assert(!has_unknown(items, ids));
    assert(items.len() + ids.len() <= i32::MAX) by {
        assert(old(playlists)@[i as int].items@.len() + item_ids@.len() <= i32::MAX);
    }
    // The named items, in the requested order.
    let mut reordered: Vec<PlaylistItemInfo> = Vec::new();
    let mut k: usize = 0;
    while k < item_ids.len()
        invariant
            k <= item_ids@.len(),
            ids == ids_view(item_ids@),
            items == playlists@[i as int].items@,
            i < playlists@.len(),
            playlists@ == old(playlists)@,
            is_first_playlist(old(playlists)@, playlist_id@, i as int),
            playlist_pos(old(playlists)@, playlist_id@) == i,
            items.len() + ids.len() <= i32::MAX,
            !has_unknown(items, ids),
            reordered@ == Seq::new(k as nat, |m: int| with_order(items[item_pos(items, ids[m])], m)),
        decreases item_ids@.len() - k,
    {
        assert(item_ids@[k as int]@ == ids[k as int]);
        assert(has_item(items, ids[k as int])) by {
            if !has_item(items, ids[k as int]) {
                assert(has_unknown(items, ids));
            }
        }
        let p = find_item(playlists[i].items.as_slice(), item_ids[k].as_str()).unwrap();
        let mut it = playlists[i].items[p].clone();
        it.order_index = k as i32;
        reordered.push(it);
        k = k + 1;
        assert(reordered@ =~= Seq::new(k as nat, |m: int| with_order(items[item_pos(items, ids[m])], m)));
    }
    // The remaining items, in their old order.
    let ghost keep = not_listed(ids);
    let mut next_index: i32 = reordered.len() as i32;
    let mut j: usize = 0;
    let ghost front = reordered@;
    while j < playlists[i].items.len()
        invariant
            j <= items.len(),
            ids == ids_view(item_ids@),
            keep == not_listed(ids),
            items == playlists@[i as int].items@,
            i < playlists@.len(),
            playlists@ == old(playlists)@,
            is_first_playlist(old(playlists)@, playlist_id@, i as int),
            playlist_pos(old(playlists)@, playlist_id@) == i,
            items.len() + ids.len() <= i32::MAX,
            front.len() == ids.len(),
            next_index == ids.len() + items.take(j as int).filter(keep).len(),
            reordered@ == front + Seq::new(
                items.take(j as int).filter(keep).len(),
                |m: int| with_order(items.take(j as int).filter(keep)[m], ids.len() + m),
            ),
        decreases items.len() - j,
    {
        let ghost f = items.take(j as int).filter(keep);
        proof {
            f.lemma_filter_len(keep);
            items.take(j as int).lemma_filter_push(items[j as int], keep);
            assert(items.take(j + 1) =~= items.take(j as int).push(items[j as int]));
            items.take(j as int).lemma_filter_len(keep);
        }
        let listed = ids_contain(item_ids, playlists[i].items[j].id.as_str());
        if !listed {
            assert(keep(items[j as int]));
            let mut it = playlists[i].items[j].clone();
            it.order_index = next_index;
            reordered.push(it);
            next_index = next_index + 1;
            assert(Seq::new(
                f.push(items[j as int]).len(),
                |m: int| with_order(f.push(items[j as int])[m], ids.len() + m),
            ) =~= Seq::new(f.len(), |m: int| with_order(f[m], ids.len() + m)).push(
                with_order(items[j as int], (ids.len() + f.len()) as int),
            ));
        } else {
            assert(!keep(items[j as int]));
        }
        j = j + 1;
        assert(reordered@ =~= front + Seq::new(
            items.take(j as int).filter(keep).len(),
            |m: int| with_order(items.take(j as int).filter(keep)[m], ids.len() + m),
        ));
    }
    assert(items.take(items.len() as int) =~= items);
    playlists[i].items = reordered;
    Ok(())
}


/// `x` inserted into `s` after every element whose order index is not
/// greater than its own, scanning from the back.
pub open spec fn insert_by_order(s: Seq<PlaylistItemInfo>, x: PlaylistItemInfo) -> Seq<PlaylistItemInfo>
    decreases s.len(),
{
    if s.len() == 0 {
        seq![x]
    } else if s.last().order_index <= x.order_index {
        s.push(x)
    } else {
        insert_by_order(s.drop_last(), x).push(s.last())
    }
}

/// The items sorted by order index, keeping the relative order of items
/// with equal indices (the result of a stable sort by `order_index`).
pub open spec fn sorted_by_order(items: Seq<PlaylistItemInfo>) -> Seq<PlaylistItemInfo>
    decreases items.len(),
{
    if items.len() == 0 {
        Seq::empty()
    } else {
        insert_by_order(sorted_by_order(items.drop_last()), items.last())
    }
}

proof fn lemma_insert_step(r: Seq<PlaylistItemInfo>, x: PlaylistItemInfo, p: int)
    requires
        0 < p <= r.len(),
        r[p - 1].order_index > x.order_index,
    ensures
        insert_by_order(r.take(p), x) + r.skip(p) == insert_by_order(r.take(p - 1), x) + r.skip(p - 1),
{
    let t = r.take(p);
    assert(t.drop_last() =~= r.take(p - 1));
    assert(t.last() == r[p - 1]);
    assert(insert_by_order(t, x) == insert_by_order(r.take(p - 1), x).push(r[p - 1]));
    assert(r.skip(p - 1) =~= seq![r[p - 1]] + r.skip(p));
    assert(insert_by_order(t, x) + r.skip(p) =~= insert_by_order(r.take(p - 1), x) + r.skip(p - 1));
}

proof fn lemma_insert_end(r: Seq<PlaylistItemInfo>, x: PlaylistItemInfo, p: int)
    requires
        0 <= p <= r.len(),
        p == 0 || r[p - 1].order_index <= x.order_index,
    ensures
        insert_by_order(r.take(p), x) == r.take(p).push(x),
{
    let t = r.take(p);
    if p > 0 {
        assert(t.last() == r[p - 1]);
    } else {
        assert(t =~= Seq::<PlaylistItemInfo>::empty());
        assert(t.push(x) =~= seq![x]);
    }
}

/// Copies the items, stably sorted by order index.
pub fn sort_items_by_order(items: &[PlaylistItemInfo]) -> (r: Vec<PlaylistItemInfo>)
    ensures
        r@ == sorted_by_order(items@),
{
    let mut r: Vec<PlaylistItemInfo> = Vec::new();
    let mut i: usize = 0;
    assert(items@.take(0) =~= Seq::<PlaylistItemInfo>::empty());
    while i < items.len()
        invariant
            i <= items@.len(),
            r@ == sorted_by_order(items@.take(i as int)),
        decreases items@.len() - i,
    {
        let x = items[i].clone();
        let mut p: usize = r.len();
        assert(r@.take(r@.len() as int) =~= r@);
        assert(r@.skip(r@.len() as int) =~= Seq::<PlaylistItemInfo>::empty());
        while p > 0 && r[p - 1].order_index > x.order_index
            invariant
                p <= r@.len(),
                insert_by_order(r@, x) == insert_by_order(r@.take(p as int), x) + r@.skip(p as int),
            decreases p,
        {
            proof {
                lemma_insert_step(r@, x, p as int);
            }
            p = p - 1;
        }
        let ghost before = r@;
        proof {
            lemma_insert_end(before, x, p as int);
        }
        r.insert(p, x);
        proof {
            assert(r@ == before.insert(p as int, x));
            assert(before.insert(p as int, x) =~= before.take(p as int).push(x) + before.skip(p as int));
            assert(items@.take(i + 1).drop_last() =~= items@.take(i as int));
        }
        i = i + 1;
    }
    assert(items@.take(items@.len() as int) =~= items@);
    r
}


/// Name of the file being played: the item at the playback position among
/// the playlist's items in play order, or "unknown".
pub open spec fn current_file_name(ps: Seq<PlaylistInfo>, playlist_id: Seq<char>, index: int) -> Seq<char> {
    if has_playlist(ps, playlist_id) && 0 <= index < sorted_by_order(
        ps[playlist_pos(ps, playlist_id)].items@,
    ).len() {
        sorted_by_order(ps[playlist_pos(ps, playlist_id)].items@)[index].audio_file_name@
    } else {
        "unknown"@
    }
}

/// Get playlist playback status, if a playlist is playing.
pub fn get_playlist_playback_status(
    playlists: &[PlaylistInfo],
    playback: &Option<PlaylistPlaybackState>,
) -> (r: Option<PlaylistPlaybackInfo>)
    ensures
        playback is None <==> r is None,
        playback matches Some(pb) ==> (r matches Some(info) && {
            &&& info.playlist_id == pb.playlist_id
            &&& info.current_item_index == pb.current_item_index
            &&& info.total_items == pb.total_items
            &&& info.is_playing == pb.is_playing
            &&& info.loop_mode == pb.loop_mode
            &&& info.current_file_name@ == current_file_name(
                playlists@,
                pb.playlist_id@,
                pb.current_item_index as int,
            )
        }),
{
    match playback {
        None => None,
        Some(pb) => {
            let current_file_name = match find_playlist(playlists, pb.playlist_id.as_str()) {
                Some(i) => {
                    let sorted = sort_items_by_order(playlists[i].items.as_slice());
                    if pb.current_item_index < sorted.len() {
                        sorted[pb.current_item_index].audio_file_name.clone()
                    } else {
                        to_owned_string("unknown")
                    }
                },
                None => to_owned_string("unknown"),
            };
            Some(
                PlaylistPlaybackInfo {
                    playlist_id: pb.playlist_id.clone(),
                    current_item_index: pb.current_item_index,
                    total_items: pb.total_items,
                    current_file_name,
                    is_playing: pb.is_playing,
                    loop_mode: pb.loop_mode,
                },
            )
        },
    }
}

/// The items of a playlist in play order, with its name, before playback
/// starts: fails for an unknown or empty playlist.
pub fn playlist_play_order(playlists: &[PlaylistInfo], playlist_id: &str) -> (r: Result<
    (Vec<PlaylistItemInfo>, String),
    String,
>)
    ensures
        !has_playlist(playlists@, playlist_id@) ==> is_err_msg(r, playlist_not_found(playlist_id@)),
        has_playlist(playlists@, playlist_id@) ==> {
            let p = playlists@[playlist_pos(playlists@, playlist_id@)];
            if p.items@.len() == 0 {
                is_err_msg(r, "Playlist is empty"@)
            } else {
                r matches Ok((items, name)) && items@ == sorted_by_order(p.items@) && name == p.name
            }
        },
{
    match find_playlist(playlists, playlist_id) {
        None => Err(message("Playlist not found: ", playlist_id)),
        Some(i) => {
            if playlists[i].items.len() == 0 {
                Err(to_owned_string("Playlist is empty"))
            } else {
                Ok((sort_items_by_order(playlists[i].items.as_slice()), playlists[i].name.clone()))
            }
        },
    }
}

// ---------------------------------------------------------------------
// Laws of playlists
// ---------------------------------------------------------------------

/// Items ordered by order index.
pub open spec fn is_sorted_by_order(s: Seq<PlaylistItemInfo>) -> bool {
    forall|i: int, j: int| 0 <= i <= j < s.len() ==> s[i].order_index <= s[j].order_index
}

proof fn lemma_insert_sorted(s: Seq<PlaylistItemInfo>, x: PlaylistItemInfo)
    requires
        is_sorted_by_order(s),
    ensures
        is_sorted_by_order(insert_by_order(s, x)),
        insert_by_order(s, x).to_multiset() == s.to_multiset().insert(x),
        insert_by_order(s, x).len() == s.len() + 1,
        forall|k: int|
            0 <= k < insert_by_order(s, x).len() ==> #[trigger] insert_by_order(s, x)[k] == x || s.contains(
                insert_by_order(s, x)[k],
            ),
    decreases s.len(),
{
    broadcast use vstd::seq_lib::group_to_multiset_ensures;

    if s.len() == 0 {
        assert(seq![x] =~= Seq::<PlaylistItemInfo>::empty().push(x));
    } else if s.last().order_index <= x.order_index {
        assert forall|k: int| 0 <= k < s.push(x).len() implies #[trigger] s.push(x)[k] == x || s.contains(
            s.push(x)[k],
        ) by {
            if k < s.len() {
                assert(s.push(x)[k] == s[k]);
            }
        }
    } else {
        let p = s.drop_last();
        assert(is_sorted_by_order(p));
        lemma_insert_sorted(p, x);
        let q = insert_by_order(p, x);
        assert(s =~= p.push(s.last()));
        assert(q.push(s.last()).to_multiset() =~= q.to_multiset().insert(s.last()));
        assert(s.to_multiset() =~= p.to_multiset().insert(s.last()));
        assert(q.to_multiset().insert(s.last()) =~= p.to_multiset().insert(x).insert(s.last()));
        assert(p.to_multiset().insert(x).insert(s.last()) =~= p.to_multiset().insert(s.last()).insert(x));
        assert forall|k: int| 0 <= k < q.len() implies (#[trigger] q[k]).order_index <= s.last().order_index by {
            if q[k] != x {
                assert(p.contains(q[k]));
                let m = choose|m: int| 0 <= m < p.len() && p[m] == q[k];
                assert(s[m] == p[m]);
            }
        }
        assert forall|k: int| 0 <= k < q.push(s.last()).len() implies #[trigger] q.push(s.last())[k] == x
            || s.contains(q.push(s.last())[k]) by {
            if k < q.len() {
                if q[k] != x {
                    assert(p.contains(q[k]));
                    let m = choose|m: int| 0 <= m < p.len() && p[m] == q[k];
                    assert(s[m] == q[k]);
                }
            } else {
                assert(s[s.len() - 1] == s.last());
            }
        }
    }
}

/// Sorting items by order index gives them in non-decreasing order of
/// index, and loses or adds no item.
pub proof fn law_sort_sorts(items: Seq<PlaylistItemInfo>)
    ensures
        is_sorted_by_order(sorted_by_order(items)),
        sorted_by_order(items).to_multiset() == items.to_multiset(),
        sorted_by_order(items).len() == items.len(),
    decreases items.len(),
{
    broadcast use vstd::seq_lib::group_to_multiset_ensures;

    if items.len() == 0 {
        assert(items =~= Seq::<PlaylistItemInfo>::empty());
    } else {
        law_sort_sorts(items.drop_last());
        lemma_insert_sorted(sorted_by_order(items.drop_last()), items.last());
        assert(items =~= items.drop_last().push(items.last()));
    }
}

/// Renumbering gives each item its position as order index, and keeps
/// everything else of the items in order.
pub proof fn law_reindexed_numbers_by_position(s: Seq<PlaylistItemInfo>)
    requires
        s.len() <= i32::MAX,
    ensures
        reindexed(s).len() == s.len(),
        forall|k: int| 0 <= k < s.len() ==> #[trigger] reindexed(s)[k].order_index == k,
        forall|k: int|
            0 <= k < s.len() ==> #[trigger] reindexed(s)[k] == (PlaylistItemInfo {
                order_index: reindexed(s)[k].order_index,
                ..s[k]
            }),
{
}

proof fn lemma_first_item(items: Seq<PlaylistItemInfo>, id: Seq<char>)
    requires
        has_item(items, id),
    ensures
        is_first_item(items, id, item_pos(items, id)),
    decreases items.len(),
{
    let p = items.drop_last();
    if has_item(p, id) {
        lemma_first_item(p, id);
        let k = item_pos(p, id);
        assert(items[k] == p[k]);
        assert forall|j: int| 0 <= j < k implies items[j].id@ != id by {
            assert(items[j] == p[j]);
        }
        assert(is_first_item(items, id, k));
    } else {
        let w = choose|i: int| 0 <= i < items.len() && items[i].id@ == id;
        if w < items.len() - 1 {
            assert(p[w] == items[w]);
            assert(has_item(p, id));
        }
        assert forall|j: int| 0 <= j < items.len() - 1 implies items[j].id@ != id by {
            assert(items[j] == p[j]);
            if items[j].id@ == id {
                assert(has_item(p, id));
            }
        }
        assert(is_first_item(items, id, items.len() - 1));
    }
}

/// Reordering puts the requested items first, in the requested order, and
/// numbers every item by its new position.
pub proof fn law_reorder_follows_request(items: Seq<PlaylistItemInfo>, ids: Seq<Seq<char>>)
    requires
        !has_unknown(items, ids),
        items.len() + ids.len() <= i32::MAX,
    ensures
        forall|k: int| 0 <= k < ids.len() ==> (#[trigger] reordered_items(items, ids)[k]).id@ == ids[k],
        forall|k: int|
            0 <= k < reordered_items(items, ids).len() ==> (#[trigger] reordered_items(items, ids)[k]).order_index
                == k,
{
    let rest = items.filter(not_listed(ids));
    assert(rest.len() <= items.len()) by {
        items.lemma_filter_len(not_listed(ids));
    }
    assert forall|k: int| 0 <= k < ids.len() implies (#[trigger] reordered_items(items, ids)[k]).id@ == ids[k] by {
        assert(has_item(items, ids[k]));
        lemma_first_item(items, ids[k]);
    }
}

} // verus!
