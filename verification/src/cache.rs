//! The record of what each watched page last looked like.
//!
//! The cache maps the address of a page to the digest of the content that
//! was last seen there. A page counts as changed when the digest of what was
//! fetched differs from the one on record, or when nothing is on record. The
//! cache is kept on disk as a JSON object from addresses to digests.

use std::collections::BTreeMap;
use sha2::Digest;
use vstd::prelude::*;
use crate::event::{Event, EventView, join2};

verus! {

/// The map that a list of pairs stands for. Where a key occurs twice, the
/// later pair counts.
pub open spec fn pairs_map(pairs: Seq<(String, String)>) -> Map<Seq<char>, Seq<char>>
    decreases pairs.len(),
{
    if pairs.len() == 0 {
        Map::empty()
    } else {
        pairs_map(pairs.drop_last()).insert(pairs.last().0@, pairs.last().1@)
    }
}

/// No key occurs in two pairs.
pub open spec fn keys_distinct(pairs: Seq<(String, String)>) -> bool {
    forall|i: int, j: int|
        0 <= i < j < pairs.len() ==> (#[trigger] pairs[i]).0@ != (#[trigger] pairs[j]).0@
}

/// Pairs with distinct keys keep them distinct when the last pair is left
/// out.
proof fn lemma_front_keys_distinct(pairs: Seq<(String, String)>)
    requires
        keys_distinct(pairs),
        pairs.len() > 0,
    ensures
        keys_distinct(pairs.drop_last()),
{
    let front = pairs.drop_last();
    assert forall|a: int, b: int| 0 <= a < b < front.len() implies (#[trigger] front[a]).0@ != (
    #[trigger] front[b]).0@ by {
        assert(front[a] == pairs[a]);
        assert(front[b] == pairs[b]);
    }
}

/// A key is in the map exactly when some pair carries it.
proof fn lemma_pairs_map_keys(pairs: Seq<(String, String)>, key: Seq<char>)
    ensures
        pairs_map(pairs).contains_key(key) <==> exists|i: int|
            0 <= i < pairs.len() && (#[trigger] pairs[i]).0@ == key,
    decreases pairs.len(),
{
    if pairs.len() > 0 {
        let front = pairs.drop_last();
        lemma_pairs_map_keys(front, key);
        if pairs_map(pairs).contains_key(key) {
            if pairs.last().0@ == key {
                assert(pairs[pairs.len() - 1].0@ == key);
            } else {
                let i = choose|i: int| 0 <= i < front.len() && (#[trigger] front[i]).0@ == key;
                assert(pairs[i].0@ == key);
            }
        }
        if exists|i: int| 0 <= i < pairs.len() && (#[trigger] pairs[i]).0@ == key {
            let i = choose|i: int| 0 <= i < pairs.len() && (#[trigger] pairs[i]).0@ == key;
            if i < front.len() {
                assert(front[i].0@ == key);
            }
        }
    }
}

/// With distinct keys, each pair gives the value of its key.
proof fn lemma_pairs_map_value(pairs: Seq<(String, String)>, i: int)
    requires
        keys_distinct(pairs),
        0 <= i < pairs.len(),
    ensures
        pairs_map(pairs).contains_key(pairs[i].0@),
        pairs_map(pairs)[pairs[i].0@] == pairs[i].1@,
    decreases pairs.len(),
{
    let front = pairs.drop_last();
    if i < pairs.len() - 1 {
        lemma_front_keys_distinct(pairs);
        lemma_pairs_map_value(front, i);
        assert(front[i] == pairs[i]);
        assert(pairs[i].0@ != pairs[pairs.len() - 1].0@);
    }
}

/// With distinct keys, putting a new value in the place of a pair is an
/// insertion into the map, and the keys stay distinct.
proof fn lemma_pairs_map_replace(pairs: Seq<(String, String)>, i: int, pair: (String, String))
    requires
        keys_distinct(pairs),
        0 <= i < pairs.len(),
        pair.0@ == pairs[i].0@,
    ensures
        keys_distinct(pairs.update(i, pair)),
        pairs_map(pairs.update(i, pair)) == pairs_map(pairs).insert(pair.0@, pair.1@),
    decreases pairs.len(),
{
    let after = pairs.update(i, pair);
    assert(keys_distinct(after)) by {
        assert forall|a: int, b: int| 0 <= a < b < after.len() implies (#[trigger] after[a]).0@
            != (#[trigger] after[b]).0@ by {
            assert(after[a].0@ == pairs[a].0@);
            assert(after[b].0@ == pairs[b].0@);
        }
    }
    let front = pairs.drop_last();
    if i == pairs.len() - 1 {
        assert(after.drop_last() =~= front);
        assert(pairs_map(after) =~= pairs_map(pairs).insert(pair.0@, pair.1@));
    } else {
        lemma_front_keys_distinct(pairs);
        assert(front[i] == pairs[i]);
        lemma_pairs_map_replace(front, i, pair);
        assert(after.drop_last() =~= front.update(i, pair));
        assert(after.last() == pairs.last());
        assert(pairs[i].0@ != pairs[pairs.len() - 1].0@);
        assert(pairs_map(after) =~= pairs_map(pairs).insert(pair.0@, pair.1@));
    }
}

/// With distinct keys, the map has as many keys as there are pairs.
proof fn lemma_pairs_map_len(pairs: Seq<(String, String)>)
    requires
        keys_distinct(pairs),
    ensures
        pairs_map(pairs).dom().finite(),
        pairs_map(pairs).dom().len() == pairs.len(),
    decreases pairs.len(),
{
    if pairs.len() > 0 {
        let front = pairs.drop_last();
        lemma_front_keys_distinct(pairs);
        lemma_pairs_map_len(front);
        lemma_pairs_map_keys(front, pairs.last().0@);
        assert(!pairs_map(front).contains_key(pairs.last().0@)) by {
            if pairs_map(front).contains_key(pairs.last().0@) {
                let i = choose|i: int|
                    0 <= i < front.len() && (#[trigger] front[i]).0@ == pairs.last().0@;
                assert(front[i] == pairs[i]);
                assert(pairs[i].0@ != pairs[pairs.len() - 1].0@);
            }
        }
        assert(pairs_map(pairs).dom() =~= pairs_map(front).dom().insert(pairs.last().0@));
    } else {
        assert(pairs_map(pairs).dom() =~= Set::<Seq<char>>::empty());
    }
}

/// The digest of a text: SHA-256 over its bytes, written as lower-case
/// hexadecimal digits.
pub uninterp spec fn content_digest(content: Seq<char>) -> Seq<char>;

/// Wraps `sha2::Sha256::digest` on the bytes of the text, written out with
/// the `{:x}` format. The result is named `content_digest`.
#[verifier::external_body]
pub(crate) fn digest_hex(content: &str) -> (r: String)
    ensures
        r@ == content_digest(content@),
{
    format!("{:x}", sha2::Sha256::digest(content.as_bytes()))
}

/// The map that serde_json reads from a text, where it reads the text as an
/// object whose values are all strings; `None` where it does not.
pub uninterp spec fn json_text_map(text: Seq<char>) -> Option<Map<Seq<char>, Seq<char>>>;

/// Declares `serde_json::Error`, the error of reading and writing JSON. It
/// is only carried: nothing is known of what it holds.
#[verifier::external_type_specification]
#[verifier::external_body]
pub struct ExJsonError(serde_json::Error);

/// Wraps `serde_json::from_str` for a map from strings to strings, whose
/// result is named `json_text_map`. The map is handed out as its pairs.
#[verifier::external_body]
pub(crate) fn decode_pairs(text: &str) -> (r: Result<Vec<(String, String)>, serde_json::Error>)
    ensures
        match r {
            Ok(pairs) => json_text_map(text@) == Some(pairs_map(pairs@)),
            Err(_) => json_text_map(text@) is None,
        },
{
    serde_json::from_str::<BTreeMap<String, String>>(text).map(|m| m.into_iter().collect())
}

/// The text that serde_json writes for a map from strings to strings, with
/// its keys in order and in the indented form; `None` where it reports an
/// error.
pub uninterp spec fn json_map_text(map: Map<Seq<char>, Seq<char>>) -> Option<Seq<char>>;

/// The text of a result of writing, if there is one.
pub open spec fn written_text(written: Result<String, serde_json::Error>) -> Option<Seq<char>> {
    match written {
        Ok(text) => Some(text@),
        Err(_) => None,
    }
}

/// Wraps `serde_json::to_string_pretty` for the map that the pairs stand
/// for, whose result is named `json_map_text`. The pairs are collected into
/// an ordered map first, so that the text depends on the map alone. The
/// keys are asked to be distinct because std does not say which of two
/// pairs with one key such a collection keeps. What serde_json writes it
/// also reads: from the text it reads the same map back.
#[verifier::external_body]
pub(crate) fn encode_pairs(pairs: &Vec<(String, String)>) -> (r: Result<
    String,
    serde_json::Error,
>)
    requires
        keys_distinct(pairs@),
    ensures
        written_text(r) == json_map_text(pairs_map(pairs@)),
        r matches Ok(text) ==> json_text_map(text@) == Some(pairs_map(pairs@)),
{
    serde_json::to_string_pretty(
        &pairs.iter().map(|p| (p.0.as_str(), p.1.as_str())).collect::<BTreeMap<&str, &str>>(),
    )
}

/// The cache that a stored text stands for: the map read from it, or the
/// empty map where the text is not a map from strings to strings.
pub open spec fn loaded(text: Seq<char>) -> Map<Seq<char>, Seq<char>> {
    match json_text_map(text) {
        Some(map) => map,
        None => Map::empty(),
    }
}

/// The digest on record for each page that has been seen.
///
/// The pairs are held in a vector, each address once. vstd has no model of
/// hashing for `String` keys, so nothing could be proved of a hash map with
/// such keys; and the cache holds one pair for each watched page, which is
/// few.
pub struct ContentCache {
    entries: Vec<(String, String)>,
}

impl View for ContentCache {
    type V = Map<Seq<char>, Seq<char>>;

    closed spec fn view(&self) -> Map<Seq<char>, Seq<char>> {
        pairs_map(self.entries@)
    }
}

/// What a check of a page comes to: the event to report, and whether the
/// cache has changed and is to be stored again.
#[derive(Clone, Debug, PartialEq, Eq)]
pub struct PageCheck {
    pub event: Event,
    pub cache_changed: bool,
}

/// The digest is the one on record for the page.
pub open spec fn is_on_record(cache: Map<Seq<char>, Seq<char>>, url: Seq<char>, digest: Seq<char>) -> bool {
    cache.contains_key(url) && cache[url] == digest
}

/// The event for a page whose content is as it was.
pub open spec fn unchanged_notice(site_name: Seq<char>) -> EventView {
    EventView::Info { message: "No changes for "@ + site_name }
}

/// The event for a page whose content is new.
pub open spec fn change_notice(site_name: Seq<char>, url: Seq<char>) -> EventView {
    EventView::ManualChange { message: "New content detected on "@ + site_name, link: url }
}

impl ContentCache {
    /// Each page has one place in the cache. Every cache that this module
    /// hands out is well formed, and every operation keeps it so.
    pub closed spec fn wf(&self) -> bool {
        keys_distinct(self.entries@)
    }

    /// The cache with nothing on record.
    pub fn new() -> (cache: ContentCache)
        ensures
            cache.wf(),
            cache@ == Map::<Seq<char>, Seq<char>>::empty(),
    {
        ContentCache { entries: Vec::new() }
    }

    /// How many pages are on record.
    pub fn len(&self) -> (count: usize)
        requires
            self.wf(),
        ensures
            self@.dom().finite(),
            count == self@.dom().len(),
    {
        proof {
            lemma_pairs_map_len(self.entries@);
        }
        self.entries.len()
    }

    /// Finds the place of the pair for `url`.
    fn position(&self, url: &String) -> (r: Option<usize>)
        ensures
            match r {
                Some(i) => i < self.entries@.len() && self.entries@[i as int].0@ == url@,
                None => !self@.contains_key(url@),
            },
    {
        let mut i: usize = 0;
        while i < self.entries.len()
            invariant
                i <= self.entries@.len(),
                forall|k: int| 0 <= k < i ==> (#[trigger] self.entries@[k]).0@ != url@,
            decreases self.entries@.len() - i,
        {
            if self.entries[i].0 == *url {
                return Some(i);
            }
            i = i + 1;
        }
        proof {
            lemma_pairs_map_keys(self.entries@, url@);
        }
        None
    }

    /// The digest on record for `url`, if there is one.
    pub fn get(&self, url: &str) -> (r: Option<String>)
        requires
            self.wf(),
        ensures
            match r {
                Some(digest) => self@.contains_key(url@) && self@[url@] == digest@,
                None => !self@.contains_key(url@),
            },
    {
        let key = url.to_owned();
        match self.position(&key) {
            Some(i) => {
                proof {
                    lemma_pairs_map_value(self.entries@, i as int);
                }
                Some(self.entries[i].1.clone())
            },
            None => None,
        }
    }

    /// Puts `digest` on record for `url`, in place of what was there.
    pub fn insert(&mut self, url: String, digest: String)
        requires
            old(self).wf(),
        ensures
            final(self).wf(),
            final(self)@ == old(self)@.insert(url@, digest@),
    {
        match self.position(&url) {
            Some(i) => {
                proof {
                    lemma_pairs_map_replace(self.entries@, i as int, (url, digest));
                }
                self.entries.set(i, (url, digest));
            },
            None => {
                proof {
                    lemma_pairs_map_keys(self.entries@, url@);
                }
                let ghost before = self.entries@;
                self.entries.push((url, digest));
                assert(self.entries@.drop_last() =~= before);
            },
        }
    }

    /// Reads a cache from its stored text. A text that is not a JSON object
    /// from strings to strings gives the empty cache.
    pub fn from_json(text: &str) -> (cache: ContentCache)
        ensures
            cache.wf(),
            cache@ == loaded(text@),
    {
        let mut cache = ContentCache::new();
        match decode_pairs(text) {
            Ok(pairs) => {
                let mut i: usize = 0;
                while i < pairs.len()
                    invariant
                        i <= pairs@.len(),
                        cache.wf(),
                        cache@ == pairs_map(pairs@.take(i as int)),
                    decreases pairs@.len() - i,
                {
                    assert(pairs@.take(i + 1).drop_last() =~= pairs@.take(i as int));
                    cache.insert(pairs[i].0.clone(), pairs[i].1.clone());
                    i = i + 1;
                }
                assert(pairs@.take(i as int) =~= pairs@);
                cache
            },
            Err(_) => cache,
        }
    }

    /// Writes the cache as the text to store: a JSON object from addresses
    /// to digests. Reading the text back gives the same cache. `None` is
    /// returned where serde_json reports an error.
    pub fn to_json(&self) -> (r: Option<String>)
        requires
            self.wf(),
        ensures
            match r {
                Some(text) => json_map_text(self@) == Some(text@) && loaded(text@) == self@,
                None => json_map_text(self@) is None,
            },
    {
        match encode_pairs(&self.entries) {
            Ok(text) => Some(text),
            Err(_) => None,
        }
    }

    /// Compares the digest of what was fetched from a page with the one on
    /// record.
    ///
    /// Where they are equal the page is reported as unchanged and the cache
    /// stays as it is. Otherwise, and where nothing is on record, the change
    /// is reported with the page's address as its link, and the new digest
    /// goes on record.
    pub fn record_digest(&mut self, site_name: &str, url: &str, digest: String) -> (check:
        PageCheck)
        requires
            old(self).wf(),
        ensures
            final(self).wf(),
            is_on_record(old(self)@, url@, digest@) ==> {
                &&& final(self)@ == old(self)@
                &&& check.event@ == unchanged_notice(site_name@)
                &&& !check.cache_changed
            },
            !is_on_record(old(self)@, url@, digest@) ==> {
                &&& final(self)@ == old(self)@.insert(url@, digest@)
                &&& check.event@ == change_notice(site_name@, url@)
                &&& check.cache_changed
            },
    {
        let known = match self.get(url) {
            Some(on_record) => on_record == digest,
            None => false,
        };
        if known {
            PageCheck {
                event: Event::Info { message: join2("No changes for ", site_name) },
                cache_changed: false,
            }
        } else {
            self.insert(url.to_owned(), digest);
            PageCheck {
                event: Event::ManualChange {
                    message: join2("New content detected on ", site_name),
                    link: url.to_owned(),
                },
                cache_changed: true,
            }
        }
    }

    /// Checks the content fetched from a page against the cache: takes its
    /// digest and records it. Any change of the content, however small,
    /// gives another digest and so counts as a change.
    pub fn check_page(&mut self, site_name: &str, url: &str, content: &str) -> (check: PageCheck)
        requires
            old(self).wf(),
        ensures
            final(self).wf(),
            is_on_record(old(self)@, url@, content_digest(content@)) ==> {
                &&& final(self)@ == old(self)@
                &&& check.event@ == unchanged_notice(site_name@)
                &&& !check.cache_changed
            },
            !is_on_record(old(self)@, url@, content_digest(content@)) ==> {
                &&& final(self)@ == old(self)@.insert(url@, content_digest(content@))
                &&& check.event@ == change_notice(site_name@, url@)
                &&& check.cache_changed
            },
    {
        let digest = digest_hex(content);
        self.record_digest(site_name, url, digest)
    }
}

} // verus!
