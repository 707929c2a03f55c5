//! The catalog URI grammar: colon-separated parts, of which the second
//! names the kind of object and the third its id (`spotify:track:<id>`).
//! The populator dispatches on the kind; the remote surface extracts the id.

use vstd::prelude::*;
use vstd::string::StrSliceExecFns;

use crate::SpotifmError;

verus! {

/// The kinds of catalog objects a source URI can name.
#[derive(Clone, Copy, Debug, PartialEq, Eq)]
pub enum SpotifyUriKind {
    Track,
    Artist,
    Album,
    Playlist,
}

/// Splitting with an accumulator: the characters of `s` are appended to
/// `cur` until a colon closes the current part.
pub open spec fn colon_split_from(s: Seq<char>, cur: Seq<char>) -> Seq<Seq<char>>
    decreases s.len(),
{
    if s.len() == 0 {
        seq![cur]
    } else if s[0] == ':' {
        seq![cur] + colon_split_from(s.drop_first(), Seq::empty())
    } else {
        colon_split_from(s.drop_first(), cur.push(s[0]))
    }
}

/// The colon-separated parts of `s`, in order. Splitting the empty string
/// gives one empty part, as `str::split` does.
pub open spec fn colon_split(s: Seq<char>) -> Seq<Seq<char>> {
    colon_split_from(s, Seq::<char>::empty())
}

/// Splits `s` at every colon.
pub fn split_colon(s: &str) -> (r: Vec<String>)
    ensures
        r.deep_view() == colon_split(s@),
{
    let len = s.unicode_len();
    let mut parts: Vec<String> = Vec::new();
    let mut start: usize = 0;
    let mut i: usize = 0;
    proof {
        assert(s@.skip(0) =~= s@);
        assert(s@.subrange(0, 0) =~= Seq::<char>::empty());
        assert(parts.deep_view() =~= Seq::<Seq<char>>::empty());
        assert(parts.deep_view() + colon_split_from(s@, Seq::<char>::empty()) =~= colon_split_from(
            s@,
            Seq::<char>::empty(),
        ));
    }
    while i < len
        invariant
            0 <= start <= i <= len,
            len == s@.len(),
            colon_split(s@) == parts.deep_view() + colon_split_from(
                s@.skip(i as int),
                s@.subrange(start as int, i as int),
            ),
        decreases len - i,
    {
        let ghost pre = parts.deep_view();
        let ghost cur = s@.subrange(start as int, i as int);
        proof {
            assert(s@.skip(i as int).len() == len - i);
            assert(s@.skip(i as int)[0] == s@[i as int]);
            assert(s@.skip(i as int).drop_first() =~= s@.skip(i + 1));
        }
        if s.get_char(i) == ':' {
            let part = s.substring_char(start, i);
            let owned = part.to_owned();
            proof {
                assert(owned@ == cur);
                assert((parts@.push(owned)).map_values(|x: String| x@) =~= pre.push(cur));
                assert(colon_split_from(s@.skip(i as int), cur) == seq![cur] + colon_split_from(
                    s@.skip(i + 1),
                    Seq::<char>::empty(),
                ));
                assert(pre + (seq![cur] + colon_split_from(s@.skip(i + 1), Seq::<char>::empty()))
                    =~= (pre.push(cur)) + colon_split_from(s@.skip(i + 1), Seq::<char>::empty()));
                assert(s@.subrange((i + 1) as int, (i + 1) as int) =~= Seq::<char>::empty());
            }
            parts.push(owned);
            start = i + 1;
        } else {
            proof {
                assert(colon_split_from(s@.skip(i as int), cur) == colon_split_from(
                    s@.skip(i + 1),
                    cur.push(s@[i as int]),
                ));
                assert(cur.push(s@[i as int]) =~= s@.subrange(start as int, (i + 1) as int));
            }
        }
        i = i + 1;
    }
    let tail = s.substring_char(start, len);
    let owned = tail.to_owned();
    proof {
        let cur = s@.subrange(start as int, len as int);
        assert(s@.skip(len as int).len() == 0);
        assert(colon_split_from(s@.skip(len as int), cur) == seq![cur]);
        assert((parts@.push(owned)).map_values(|x: String| x@) =~= parts.deep_view().push(cur));
        assert(parts.deep_view() + seq![cur] =~= parts.deep_view().push(cur));
    }
    parts.push(owned);
    parts
}

/// Character-wise string equality.
fn str_eq(a: &str, b: &str) -> (r: bool)
    ensures
        r == (a@ == b@),
{
    let la = a.unicode_len();
    let lb = b.unicode_len();
    if la != lb {
        proof {
            assert(a@ != b@);
        }
        return false;
    }
    let mut i: usize = 0;
    while i < la
        invariant
            i <= la,
            la == a@.len(),
            la == b@.len(),
            forall|j: int| 0 <= j < i ==> a@[j] == b@[j],
        decreases la - i,
    {
        if a.get_char(i) != b.get_char(i) {
            return false;
        }
        i = i + 1;
    }
    proof {
        assert(a@ =~= b@);
    }
    true
}

/// The kind a URI part names, if any.
pub open spec fn kind_of_name(s: Seq<char>) -> Option<SpotifyUriKind> {
    if s == "track"@ {
        Some(SpotifyUriKind::Track)
    } else if s == "artist"@ {
        Some(SpotifyUriKind::Artist)
    } else if s == "album"@ {
        Some(SpotifyUriKind::Album)
    } else if s == "playlist"@ {
        Some(SpotifyUriKind::Playlist)
    } else {
        None
    }
}

/// The kind of object a source URI names: its second colon-separated part.
/// A URI without such a part, or with an unknown kind name, is malformed.
pub fn parse_uri_kind(uri: &str) -> (r: Result<SpotifyUriKind, SpotifmError>)
    ensures
        r matches Ok(k) ==> colon_split(uri@).len() >= 2 && kind_of_name(colon_split(uri@)[1])
            == Some(k),
        r matches Err(e) ==> e == SpotifmError::MalformedUri && (colon_split(uri@).len() < 2
            || kind_of_name(colon_split(uri@)[1]) is None),
{
    let parts = split_colon(uri);
    if parts.len() < 2 {
        return Err(SpotifmError::MalformedUri);
    }
    let name = &parts[1];
    if str_eq(name.as_str(), "track") {
        Ok(SpotifyUriKind::Track)
    } else if str_eq(name.as_str(), "artist") {
        Ok(SpotifyUriKind::Artist)
    } else if str_eq(name.as_str(), "album") {
        Ok(SpotifyUriKind::Album)
    } else if str_eq(name.as_str(), "playlist") {
        Ok(SpotifyUriKind::Playlist)
    } else {
        Err(SpotifmError::MalformedUri)
    }
}

/// The track id carried by a URI: its third colon-separated part. A URI
/// with fewer parts is malformed.
pub fn track_id_from_uri(uri: &str) -> (r: Result<String, SpotifmError>)
    ensures
        r matches Ok(id) ==> colon_split(uri@).len() >= 3 && id@ == colon_split(uri@)[2],
        r matches Err(e) ==> e == SpotifmError::MalformedUri && colon_split(uri@).len() < 3,
{
    let parts = split_colon(uri);
    if parts.len() < 3 {
        return Err(SpotifmError::MalformedUri);
    }
    Ok(parts[2].clone())
}

/// The kind a search route names; an unknown name searches tracks.
pub open spec fn search_kind_of(s: Seq<char>) -> SpotifyUriKind {
    match kind_of_name(s) {
        Some(k) => k,
        None => SpotifyUriKind::Track,
    }
}

/// Maps the `{type}` part of a search route to the kind to search for,
/// defaulting to tracks.
pub fn parse_search_kind(s: &str) -> (r: SpotifyUriKind)
    ensures
        r == search_kind_of(s@),
{
    if str_eq(s, "track") {
        SpotifyUriKind::Track
    } else if str_eq(s, "artist") {
        SpotifyUriKind::Artist
    } else if str_eq(s, "album") {
        SpotifyUriKind::Album
    } else if str_eq(s, "playlist") {
        SpotifyUriKind::Playlist
    } else {
        SpotifyUriKind::Track
    }
}

} // verus!
