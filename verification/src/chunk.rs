//! How one chunk of a document is stored as text, and read back: a JSON
//! metadata object, the separator `"\n\n---\n\n"`, then the chunk's content.
use vstd::prelude::*;
use crate::text::{chars_vec, find_chars, first_index_of, find_from, lemma_find_from, matches_at, owned, same_text};
use crate::json::json_object_entries;

verus! {

/// The separator between a stored chunk's metadata and its content.
pub open spec fn chunk_separator() -> Seq<char> {
    seq!['\n', '\n', '-', '-', '-', '\n', '\n']
}

/// The map that the pairs of `s` describe, a later pair for a key
/// overriding an earlier one.
pub open spec fn pairs_map(s: Seq<(Seq<char>, Seq<char>)>) -> Map<Seq<char>, Seq<char>>
    decreases s.len(),
{
    if s.len() == 0 {
        Map::empty()
    } else {
        pairs_map(s.drop_last()).insert(s.last().0, s.last().1)
    }
}

/// The members of a parsed JSON object whose values are strings.
pub open spec fn string_entries(e: Seq<(Seq<char>, Option<Seq<char>>)>) -> Map<Seq<char>, Seq<char>>
    decreases e.len(),
{
    if e.len() == 0 {
        Map::empty()
    } else {
        let m = string_entries(e.drop_last());
        match e.last().1 {
            Some(v) => m.insert(e.last().0, v),
            None => m,
        }
    }
}

/// The metadata that reading back the stored text `stored` gives: the string
/// members of the JSON object before the first separator, or nothing where
/// there is no separator or the text before it is not a JSON object.
pub open spec fn stored_metadata(stored: Seq<char>) -> Map<Seq<char>, Seq<char>> {
    match first_index_of(stored, chunk_separator()) {
        Some(p) => match json_object_entries(stored.take(p as int)) {
            Some(e) => string_entries(e),
            None => Map::empty(),
        },
        None => Map::empty(),
    }
}

/// The content that reading back the stored text `stored` gives: what follows
/// the first separator where the text before it is a JSON object, else the
/// whole text.
pub open spec fn stored_body(stored: Seq<char>) -> Seq<char> {
    match first_index_of(stored, chunk_separator()) {
        Some(p) => match json_object_entries(stored.take(p as int)) {
            Some(_) => stored.skip(p + chunk_separator().len() as int),
            None => stored,
        },
        None => stored,
    }
}

/// The text under which a chunk is stored: metadata, separator, content.
pub open spec fn framed(metadata: Seq<char>, content: Seq<char>) -> Seq<char> {
    metadata + chunk_separator() + content
}

/// The metadata read back from a stored chunk: a map from member names to
/// string values.
pub struct ChunkMetadata {
    entries: Vec<(String, String)>,
}

impl View for ChunkMetadata {
    type V = Map<Seq<char>, Seq<char>>;

    closed spec fn view(&self) -> Map<Seq<char>, Seq<char>> {
        pairs_map(self.entries.deep_view())
    }
}

proof fn lemma_pairs_map_absent(s: Seq<(Seq<char>, Seq<char>)>, k: Seq<char>)
    requires
        forall|j: int| 0 <= j < s.len() ==> s[j].0 != k,
    ensures
        !pairs_map(s).contains_key(k),
    decreases s.len(),
{
    if s.len() > 0 {
        lemma_pairs_map_absent(s.drop_last(), k);
    }
}

proof fn lemma_pairs_map_last(s: Seq<(Seq<char>, Seq<char>)>, k: Seq<char>, j: int)
    requires
        0 <= j < s.len(),
        s[j].0 == k,
        forall|l: int| j < l < s.len() ==> s[l].0 != k,
    ensures
        pairs_map(s).contains_key(k),
        pairs_map(s)[k] == s[j].1,
    decreases s.len(),
{
    if j < s.len() - 1 {
        lemma_pairs_map_last(s.drop_last(), k, j);
    }
}

impl ChunkMetadata {
    /// Metadata with no members.
    pub fn new() -> (r: ChunkMetadata)
        ensures
            r@ == Map::<Seq<char>, Seq<char>>::empty(),
    {
        let r = ChunkMetadata { entries: Vec::new() };
        assert(r.entries.deep_view() =~= Seq::<(Seq<char>, Seq<char>)>::empty());
        r
    }

    /// Sets the member `key` to `value`.
    pub fn insert(&mut self, key: String, value: String)
        ensures
            final(self)@ == old(self)@.insert(key@, value@),
    {
        let ghost before = self.entries.deep_view();
        self.entries.push((key, value));
        assert(self.entries.deep_view().drop_last() =~= before);
    }

    /// The value of the member `key`, if there is one.
    pub fn get(&self, key: &str) -> (r: Option<&String>)
        ensures
            match r {
                Some(v) => self@.contains_key(key@) && self@[key@] == v@,
                None => !self@.contains_key(key@),
            },
    {
        let ghost s = self.entries.deep_view();
        let mut i = self.entries.len();
        while i > 0
            invariant
                i <= self.entries@.len(),
                s == self.entries.deep_view(),
                forall|l: int| i <= l < s.len() ==> s[l].0 != key@,
            decreases i,
        {
            i = i - 1;
            if same_text(self.entries[i].0.as_str(), key) {
                proof {
                    lemma_pairs_map_last(s, key@, i as int);
                }
                return Some(&self.entries[i].1);
            }
        }
        proof {
            lemma_pairs_map_absent(s, key@);
        }
        None
    }

    /// Whether there are no members.
    pub fn is_empty(&self) -> (r: bool)
        ensures
            r == (self@ == Map::<Seq<char>, Seq<char>>::empty()),
    {
        let r = self.entries.len() == 0;
        proof {
            let s = self.entries.deep_view();
            if r {
                assert(s =~= Seq::<(Seq<char>, Seq<char>)>::empty());
            } else {
                lemma_pairs_map_last(s, s.last().0, s.len() - 1);
                assert(!self@.dom().is_empty());
                assert(self@ != Map::<Seq<char>, Seq<char>>::empty());
            }
        }
        r
    }

    /// Metadata holding the string members of the parsed entries `e`.
    pub fn from_entries(e: &Vec<(String, Option<String>)>) -> (r: ChunkMetadata)
        ensures
            r@ == string_entries(e.deep_view()),
    {
        let mut r = ChunkMetadata::new();
        let ghost d = e.deep_view();
        let mut i: usize = 0;
        while i < e.len()
            invariant
                i <= e@.len(),
                d == e.deep_view(),
                r@ == string_entries(d.take(i as int)),
            decreases e@.len() - i,
        {
            assert(d.take(i + 1).drop_last() =~= d.take(i as int));
            match &e[i].1 {
                Some(v) => {
                    r.insert(e[i].0.clone(), v.clone());
                },
                None => {},
            }
            i = i + 1;
        }
        assert(d.take(e@.len() as int) =~= d);
        r
    }
}

/// The text under which a chunk is stored.
pub fn frame_chunk(metadata: &str, content: &str) -> (r: String)
    ensures
        r@ == framed(metadata@, content@),
{
    proof {
        reveal_strlit("\n\n---\n\n");
    }
    let mut r = owned(metadata);
    r.append("\n\n---\n\n");
    r.append(content);
    r
}

/// A stored chunk's text split at its first separator: the text before it
/// and the text after it; `None` where there is no separator.
pub fn split_stored_chunk(stored: &str) -> (r: Option<(String, String)>)
    ensures
        match first_index_of(stored@, chunk_separator()) {
            Some(p) => r matches Some((m, b)) && m@ == stored@.take(p as int)
                && b@ == stored@.skip(p + chunk_separator().len() as int),
            None => r is None,
        },
{
    proof {
        reveal_strlit("\n\n---\n\n");
    }
    let hay = chars_vec(stored);
    let n = hay.len();
    let sep = chars_vec("\n\n---\n\n");
    assert(sep@ =~= chunk_separator());
    assert(sep@.len() == 7);
    match find_chars(&hay, &sep) {
        Some(p) => {
            proof {
                lemma_find_from(hay@, sep@, 0);
                assert(matches_at(hay@, sep@, p as int));
            }
            let m = owned(stored.substring_char(0, p));
            let b = owned(stored.substring_char(p + 7, n));
            assert(m@ =~= stored@.take(p as int));
            assert(b@ =~= stored@.skip(p + chunk_separator().len() as int));
            Some((m, b))
        },
        None => None,
    }
}

/// In a framed chunk whose metadata holds no line feed, the first separator
/// is the one just after the metadata.
pub proof fn lemma_separator_after_metadata(metadata: Seq<char>, content: Seq<char>)
    requires
        !metadata.contains('\n'),
    ensures
        first_index_of(framed(metadata, content), chunk_separator()) == Some(metadata.len()),
{
    let hay = framed(metadata, content);
    let sep = chunk_separator();
    assert(hay.subrange(metadata.len() as int, metadata.len() + sep.len() as int) =~= sep);
    assert forall|i: nat| i <= metadata.len() implies find_from(hay, sep, i) == Some(metadata.len()) by {
        lemma_find_from_skips(metadata, content, i);
    }
}

proof fn lemma_find_from_skips(metadata: Seq<char>, content: Seq<char>, i: nat)
    requires
        !metadata.contains('\n'),
        i <= metadata.len(),
    ensures
        find_from(framed(metadata, content), chunk_separator(), i) == Some(metadata.len()),
    decreases metadata.len() - i,
{
    let hay = framed(metadata, content);
    let sep = chunk_separator();
    assert(hay.subrange(metadata.len() as int, metadata.len() + sep.len() as int) =~= sep);
    if i < metadata.len() {
        assert(hay[i as int] == metadata[i as int]);
        if matches_at(hay, sep, i as int) {
            assert(hay.subrange(i as int, i + sep.len() as int)[0] == sep[0]);
            assert(metadata.contains(metadata[i as int]));
        }
        lemma_find_from_skips(metadata, content, i + 1);
    }
}

/// Reading back a framed chunk whose metadata holds no line feed gives the
/// string members of that metadata and exactly the content that was framed;
/// where the metadata is not a JSON object, it gives no members and the
/// whole stored text.
pub proof fn lemma_read_back_framed(metadata: Seq<char>, content: Seq<char>)
    requires
        !metadata.contains('\n'),
    ensures
        stored_metadata(framed(metadata, content)) == match json_object_entries(metadata) {
            Some(e) => string_entries(e),
            None => Map::empty(),
        },
        stored_body(framed(metadata, content)) == match json_object_entries(metadata) {
            Some(_) => content,
            None => framed(metadata, content),
        },
{
    let hay = framed(metadata, content);
    lemma_separator_after_metadata(metadata, content);
    assert(hay.take(metadata.len() as int) =~= metadata);
    assert(hay.skip(metadata.len() + chunk_separator().len() as int) =~= content);
}

} // verus!
