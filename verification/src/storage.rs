//! The data stored per movie: a link to the movie, its cached name and the
//! key/value pairs that the movie itself stores (its `.sol` data), which
//! the player reads and writes through `MovieStorageBackend`.
use vstd::prelude::*;
use vstd::slice::slice_to_vec;

use crate::options::{OptionsView, PlayerOptions};
use crate::text::opt_chars;
use crate::web_url::{parse_url, parses_to, url_parse, ParsedUrl};
use crate::stored_options::{
    decode_options, encode_options, options_bytes, options_bytes_injective, stored_options, stored_options_read_back,
};

verus! {

/// One key/value pair that a movie stored.
#[derive(Clone, Debug)]
pub struct MovieData {
    pub key: String,
    pub value: Vec<u8>,
}

impl View for MovieData {
    type V = (Seq<char>, Seq<u8>);

    open spec fn view(&self) -> (Seq<char>, Seq<u8>) {
        (self.key@, self.value@)
    }
}

/// A movie of the library: a link to the SWF or Ruffle Bundle, a cached
/// name for display, the user's options in their stored form, and the
/// data that the movie stored.
#[derive(Clone, Debug)]
pub struct Movie {
    pub link: String,
    pub cached_name: String,
    pub user_options_data: Vec<u8>,
    pub movie_data: Vec<MovieData>,
}

/// The stored pairs of a sequence of entries, as keys and values.
pub open spec fn pairs_of(entries: Seq<MovieData>) -> Seq<(Seq<char>, Seq<u8>)> {
    entries.map_values(|d: MovieData| d@)
}

/// Whether `i` is the first position of an entry with `key`.
pub open spec fn is_first_with_key(pairs: Seq<(Seq<char>, Seq<u8>)>, key: Seq<char>, i: int) -> bool {
    &&& 0 <= i < pairs.len()
    &&& pairs[i].0 == key
    &&& forall|j: int| 0 <= j < i ==> pairs[j].0 != key
}

/// The position of the first entry with `key`, if there is one.
pub open spec fn find_key(pairs: Seq<(Seq<char>, Seq<u8>)>, key: Seq<char>) -> Option<int> {
    if exists|i: int| 0 <= i < pairs.len() && pairs[i].0 == key {
        Some(choose|i: int| is_first_with_key(pairs, key, i))
    } else {
        None
    }
}

/// The value that a read of `key` gives: that of the first entry with it.
pub open spec fn stored_value(pairs: Seq<(Seq<char>, Seq<u8>)>, key: Seq<char>) -> Option<Seq<u8>> {
    match find_key(pairs, key) {
        Some(i) => Some(pairs[i].1),
        None => None,
    }
}

/// The entries after a write of `value` under `key`: the first entry with
/// the key takes the value, or a new entry is added at the end.
pub open spec fn stored_after_put(pairs: Seq<(Seq<char>, Seq<u8>)>, key: Seq<char>, value: Seq<u8>) -> Seq<(Seq<char>, Seq<u8>)> {
    match find_key(pairs, key) {
        Some(i) => pairs.update(i, (key, value)),
        None => pairs.push((key, value)),
    }
}

/// The entries after a removal of `key`: the first entry with the key is
/// deleted; nothing changes when there is none.
pub open spec fn stored_after_remove(pairs: Seq<(Seq<char>, Seq<u8>)>, key: Seq<char>) -> Seq<(Seq<char>, Seq<u8>)> {
    match find_key(pairs, key) {
        Some(i) => pairs.remove(i),
        None => pairs,
    }
}

/// Whether no key occurs twice.
pub open spec fn keys_unique(pairs: Seq<(Seq<char>, Seq<u8>)>) -> bool {
    forall|i: int, j: int| 0 <= i < pairs.len() && 0 <= j < pairs.len() && i != j ==> pairs[i].0 != pairs[j].0
}

/// How a write or a removal changed the stored entries, so that the
/// persistent store can follow.
#[derive(Clone, Copy, Debug, PartialEq, Eq, Structural)]
pub enum StoreChange {
    /// The entry at this position took a new value.
    Updated { index: usize },
    /// A new entry was added at the end.
    Inserted,
    /// The entry at this position was deleted.
    Deleted { index: usize },
    /// Nothing changed.
    Unchanged,
}

proof fn lemma_find_key_first(pairs: Seq<(Seq<char>, Seq<u8>)>, key: Seq<char>, i: int)
    requires
        is_first_with_key(pairs, key, i),
    ensures
        find_key(pairs, key) == Some(i),
{
    let c = choose|k: int| is_first_with_key(pairs, key, k);
    assert(is_first_with_key(pairs, key, c));
    if c < i {
        assert(pairs[c].0 != key);
    } else if c > i {
        assert(pairs[i].0 != key);
    }
}

proof fn lemma_find_key_none(pairs: Seq<(Seq<char>, Seq<u8>)>, key: Seq<char>)
    requires
        forall|j: int| 0 <= j < pairs.len() ==> pairs[j].0 != key,
    ensures
        find_key(pairs, key) is None,
{
}

proof fn lemma_first_below(pairs: Seq<(Seq<char>, Seq<u8>)>, key: Seq<char>, w: int)
    requires
        0 <= w < pairs.len(),
        pairs[w].0 == key,
    ensures
        exists|k: int| is_first_with_key(pairs, key, k),
    decreases w,
{
    if exists|j: int| 0 <= j < w && pairs[j].0 == key {
        let j = choose|j: int| 0 <= j < w && pairs[j].0 == key;
        lemma_first_below(pairs, key, j);
    } else {
        assert(is_first_with_key(pairs, key, w));
    }
}

proof fn lemma_find_key_some(pairs: Seq<(Seq<char>, Seq<u8>)>, key: Seq<char>)
    requires
        find_key(pairs, key) is Some,
    ensures
        is_first_with_key(pairs, key, find_key(pairs, key)->0),
{
    let w = choose|i: int| 0 <= i < pairs.len() && pairs[i].0 == key;
    lemma_first_below(pairs, key, w);
}

/// A read of a key gives back the value that the last write of that key
/// stored.
pub proof fn read_gives_back_write(pairs: Seq<(Seq<char>, Seq<u8>)>, key: Seq<char>, value: Seq<u8>)
    ensures
        stored_value(stored_after_put(pairs, key, value), key) == Some(value),
{
    let after = stored_after_put(pairs, key, value);
    match find_key(pairs, key) {
        Some(i) => {
            lemma_find_key_some(pairs, key);
            assert(is_first_with_key(after, key, i));
            lemma_find_key_first(after, key, i);
        },
        None => {
            assert forall|j: int| 0 <= j < pairs.len() implies pairs[j].0 != key by {
                if pairs[j].0 == key {
                    assert(exists|i: int| 0 <= i < pairs.len() && pairs[i].0 == key);
                }
            }
            assert(is_first_with_key(after, key, pairs.len() as int));
            lemma_find_key_first(after, key, pairs.len() as int);
        },
    }
}

/// A write of one key leaves what a read of any other key gives unchanged.
pub proof fn write_keeps_other_keys(pairs: Seq<(Seq<char>, Seq<u8>)>, key: Seq<char>, value: Seq<u8>, other: Seq<char>)
    requires
        other != key,
    ensures
        stored_value(stored_after_put(pairs, key, value), other) == stored_value(pairs, other),
{
    let after = stored_after_put(pairs, key, value);
    if find_key(pairs, key) is Some {
        lemma_find_key_some(pairs, key);
    }
    assert(after.len() >= pairs.len());
    assert forall|j: int| 0 <= j < after.len() implies (after[j].0 == other <==> j < pairs.len() && pairs[j].0 == other) by {
        if j < pairs.len() && after[j] != pairs[j] {
            assert(after[j].0 == key);
        }
    }
    match find_key(pairs, other) {
        Some(i) => {
            lemma_find_key_some(pairs, other);
            assert(after[i] == pairs[i]);
            assert(is_first_with_key(after, other, i));
            lemma_find_key_first(after, other, i);
        },
        None => {
            assert forall|j: int| 0 <= j < after.len() implies after[j].0 != other by {
                if j < pairs.len() && pairs[j].0 == other {
                    assert(exists|i: int| 0 <= i < pairs.len() && pairs[i].0 == other);
                }
            }
            lemma_find_key_none(after, other);
        },
    }
}

/// When no key occurs twice, a read of a removed key finds nothing.
pub proof fn read_after_remove_finds_nothing(pairs: Seq<(Seq<char>, Seq<u8>)>, key: Seq<char>)
    requires
        keys_unique(pairs),
    ensures
        stored_value(stored_after_remove(pairs, key), key) is None,
{
    let after = stored_after_remove(pairs, key);
    match find_key(pairs, key) {
        Some(i) => {
            lemma_find_key_some(pairs, key);
            assert forall|j: int| 0 <= j < after.len() implies after[j].0 != key by {
                if j < i {
                } else {
                    assert(after[j] == pairs[j + 1]);
                }
            }
            lemma_find_key_none(after, key);
        },
        None => {
            assert forall|j: int| 0 <= j < pairs.len() implies pairs[j].0 != key by {
                if pairs[j].0 == key {
                    assert(exists|i: int| 0 <= i < pairs.len() && pairs[i].0 == key);
                }
            }
            lemma_find_key_none(after, key);
        },
    }
}

/// A removal of one key leaves what a read of any other key gives unchanged.
pub proof fn remove_keeps_other_keys(pairs: Seq<(Seq<char>, Seq<u8>)>, key: Seq<char>, other: Seq<char>)
    requires
        other != key,
    ensures
        stored_value(stored_after_remove(pairs, key), other) == stored_value(pairs, other),
{
    let after = stored_after_remove(pairs, key);
    match find_key(pairs, key) {
        Some(r) => {
            lemma_find_key_some(pairs, key);
            match find_key(pairs, other) {
                Some(i) => {
                    lemma_find_key_some(pairs, other);
                    let k = if i < r { i } else { i - 1 };
                    assert(after[k] == pairs[i]);
                    assert forall|j: int| 0 <= j < k implies after[j].0 != other by {
                        if j < r {
                        } else {
                            assert(after[j] == pairs[j + 1]);
                        }
                    }
                    assert(is_first_with_key(after, other, k));
                    lemma_find_key_first(after, other, k);
                },
                None => {
                    assert forall|j: int| 0 <= j < after.len() implies after[j].0 != other by {
                        let p = if j < r { j } else { j + 1 };
                        assert(after[j] == pairs[p]);
                        if pairs[p].0 == other {
                            assert(exists|i: int| 0 <= i < pairs.len() && pairs[i].0 == other);
                        }
                    }
                    lemma_find_key_none(after, other);
                },
            }
        },
        None => {},
    }
}

/// Writes keep every key at most once in the store.
pub proof fn write_keeps_keys_unique(pairs: Seq<(Seq<char>, Seq<u8>)>, key: Seq<char>, value: Seq<u8>)
    requires
        keys_unique(pairs),
    ensures
        keys_unique(stored_after_put(pairs, key, value)),
{
    let after = stored_after_put(pairs, key, value);
    match find_key(pairs, key) {
        Some(i) => {
            lemma_find_key_some(pairs, key);
        },
        None => {
            assert forall|j: int| 0 <= j < pairs.len() implies pairs[j].0 != key by {
                if pairs[j].0 == key {
                    assert(exists|i: int| 0 <= i < pairs.len() && pairs[i].0 == key);
                }
            }
        },
    }
}

/// Removals keep every key at most once in the store.
pub proof fn remove_keeps_keys_unique(pairs: Seq<(Seq<char>, Seq<u8>)>, key: Seq<char>)
    requires
        keys_unique(pairs),
    ensures
        keys_unique(stored_after_remove(pairs, key)),
{
    let after = stored_after_remove(pairs, key);
    match find_key(pairs, key) {
        Some(r) => {
            lemma_find_key_some(pairs, key);
            assert forall|a: int, b: int| 0 <= a < after.len() && 0 <= b < after.len() && a != b
                implies after[a].0 != after[b].0 by {
                let pa = if a < r { a } else { a + 1 };
                let pb = if b < r { b } else { b + 1 };
                assert(after[a] == pairs[pa]);
                assert(after[b] == pairs[pb]);
            }
        },
        None => {},
    }
}

/// The store of the data of one movie, which the player reads and writes.
#[derive(Clone, Debug)]
pub struct MovieStorageBackend {
    pub movie: Movie,
}

impl MovieStorageBackend {
    /// The stored pairs, in order.
    pub open spec fn pairs(&self) -> Seq<(Seq<char>, Seq<u8>)> {
        pairs_of(self.movie.movie_data@)
    }

    /// The position of the first entry with the key `name`.
    fn lookup_data(&self, name: &str) -> (found: Option<usize>)
        ensures
            match found {
                Some(i) => find_key(self.pairs(), name@) == Some(i as int) && i < self.movie.movie_data.len()
                    && is_first_with_key(self.pairs(), name@, i as int),
                None => find_key(self.pairs(), name@) is None,
            },
    {
        let key = name.to_owned();
        let data = &self.movie.movie_data;
        let mut i: usize = 0;
        while i < data.len()
            invariant
                i <= data.len(),
                key@ == name@,
                data@ == self.movie.movie_data@,
                forall|j: int| 0 <= j < i ==> #[trigger] self.pairs()[j].0 != name@,
            decreases data.len() - i,
        {
            if data[i].key == key {
                proof {
                    lemma_find_key_first(self.pairs(), name@, i as int);
                }
                return Some(i);
            }
            i = i + 1;
        }
        proof {
            assert forall|j: int| 0 <= j < self.pairs().len() implies self.pairs()[j].0 != name@ by {}
        }
        None
    }

    /// The value stored under `name`, if any.
    pub fn get(&self, name: &str) -> (value: Option<Vec<u8>>)
        ensures
            match value {
                Some(v) => stored_value(self.pairs(), name@) == Some(v@),
                None => stored_value(self.pairs(), name@) is None,
            },
    {
        match self.lookup_data(name) {
            Some(i) => Some(self.movie.movie_data[i].value.clone()),
            None => None,
        }
    }

    /// Stores `value` under `name`, replacing the value of an existing
    /// entry with that key or adding a new one; the movie's other fields
    /// are unchanged. The answer tells which entry changed.
    pub fn put(&mut self, name: &str, value: &[u8]) -> (change: StoreChange)
        ensures
            final(self).pairs() == stored_after_put(old(self).pairs(), name@, value@),
            final(self).movie.link == old(self).movie.link,
            final(self).movie.cached_name == old(self).movie.cached_name,
            final(self).movie.user_options_data == old(self).movie.user_options_data,
            match find_key(old(self).pairs(), name@) {
                Some(i) => change == StoreChange::Updated { index: i as usize },
                None => change == StoreChange::Inserted,
            },
    {
        let entry = MovieData { key: name.to_owned(), value: slice_to_vec(value) };
        match self.lookup_data(name) {
            Some(i) => {
                self.movie.movie_data.set(i, entry);
                proof {
                    assert(self.pairs() =~= stored_after_put(old(self).pairs(), name@, value@));
                }
                StoreChange::Updated { index: i }
            },
            None => {
                self.movie.movie_data.push(entry);
                proof {
                    assert(self.pairs() =~= stored_after_put(old(self).pairs(), name@, value@));
                }
                StoreChange::Inserted
            },
        }
    }

    /// Removes the entry with the key `name`, if there is one; the movie's
    /// other fields are unchanged. The answer tells which entry went.
    pub fn remove_key(&mut self, name: &str) -> (change: StoreChange)
        ensures
            final(self).pairs() == stored_after_remove(old(self).pairs(), name@),
            final(self).movie.link == old(self).movie.link,
            final(self).movie.cached_name == old(self).movie.cached_name,
            final(self).movie.user_options_data == old(self).movie.user_options_data,
            match find_key(old(self).pairs(), name@) {
                Some(i) => change == StoreChange::Deleted { index: i as usize },
                None => change == StoreChange::Unchanged,
            },
    {
        match self.lookup_data(name) {
            Some(i) => {
                self.movie.movie_data.remove(i);
                proof {
                    assert(self.pairs() =~= stored_after_remove(old(self).pairs(), name@));
                }
                StoreChange::Deleted { index: i }
            },
            None => StoreChange::Unchanged,
        }
    }
}

impl Movie {
    /// The options the user set for this movie: the options whose stored
    /// form the movie holds; none when its bytes are the stored form of no
    /// options (such as the `{}` that a movie held before any was set).
    pub fn user_options(&self) -> (options: PlayerOptions)
        ensures
            options@ == stored_options(self.user_options_data@),
    {
        match decode_options(self.user_options_data.as_slice()) {
            Some(o) => {
                proof {
                    let data = self.user_options_data@;
                    assert(self.user_options_data.len() == data.len());
                    assert(exists|m: OptionsView| options_bytes(m) == data);
                    let c = choose|m: OptionsView| options_bytes(m) == data;
                    options_bytes_injective(c, o@);
                }
                o
            },
            None => PlayerOptions::unset(),
        }
    }

    /// Stores the user's options in their stored form; the rest of the
    /// movie is unchanged.
    pub fn set_user_options(&mut self, options: &PlayerOptions)
        ensures
            final(self).user_options_data@ == options_bytes(options@),
            final(self).link == old(self).link,
            final(self).cached_name == old(self).cached_name,
            final(self).movie_data == old(self).movie_data,
    {
        self.user_options_data = encode_options(options);
    }
}

/// A movie gives back the options that were set for it: once `o` is set,
/// the options read are `o`.
pub proof fn user_options_read_back(m: Movie, o: PlayerOptions)
    requires
        m.user_options_data@ == options_bytes(o@),
    ensures
        stored_options(m.user_options_data@) == o@,
{
    assert(m.user_options_data.len() == m.user_options_data@.len());
    stored_options_read_back(o@);
}

/// The position of the first movie whose link is `link`.
pub open spec fn first_with_link(links: Seq<Seq<char>>, link: Seq<char>, i: int) -> bool {
    &&& 0 <= i < links.len()
    &&& links[i] == link
    &&& forall|j: int| 0 <= j < i ==> links[j] != link
}

/// The links of a sequence of movies.
pub open spec fn links_of(movies: Seq<Movie>) -> Seq<Seq<char>> {
    movies.map_values(|m: Movie| m.link@)
}

/// The position of the movie of the library that has the link `link`: the
/// first one, when several have it; `None` when no movie has it.
pub fn movie_from_url(movies: &Vec<Movie>, link: &str) -> (found: Option<usize>)
    ensures
        match found {
            Some(i) => first_with_link(links_of(movies@), link@, i as int),
            None => forall|j: int| 0 <= j < movies@.len() ==> #[trigger] links_of(movies@)[j] != link@,
        },
{
    let wanted = link.to_owned();
    let mut i: usize = 0;
    while i < movies.len()
        invariant
            i <= movies.len(),
            wanted@ == link@,
            forall|j: int| 0 <= j < i ==> #[trigger] links_of(movies@)[j] != link@,
        decreases movies.len() - i,
    {
        if movies[i].link == wanted {
            return Some(i);
        }
        i = i + 1;
    }
    None
}

/// What was found at a movie's link, as far as choosing its name goes.
#[derive(Clone, Debug)]
pub enum ContentSummary {
    /// A Ruffle Bundle, with the name it gives itself.
    Bundle { name: String },
    /// An SWF at a URL: the URL's path and host (if it has one).
    DirectFile { path: String, host: Option<String> },
}

/// The stem of the final component of a path as std's `Path::file_stem`
/// gives it, if the path has a file name.
pub uninterp spec fn path_file_stem(path: Seq<char>) -> Option<Seq<char>>;

/// The stem of the file name of `path`, with `std::path::Path::file_stem`.
/// The result is named by `path_file_stem`; nothing more is stated.
#[verifier::external_body]
fn file_stem(path: &str) -> (stem: Option<String>)
    ensures
        match stem {
            Some(s) => path_file_stem(path@) == Some(s@),
            None => path_file_stem(path@) is None,
        },
{
    match std::path::Path::new(path).file_stem() {
        Some(s) => Some(s.to_string_lossy().into_owned()),
        None => None,
    }
}

/// The name a new movie is listed under: the name of its bundle; for an
/// SWF, the stem of the file name of its URL's path, else the URL's host,
/// else "unknown".
pub open spec fn cached_name_of(content: ContentSummary) -> Seq<char> {
    match content {
        ContentSummary::Bundle { name } => name@,
        ContentSummary::DirectFile { path, host } => match path_file_stem(path@) {
            Some(stem) => stem,
            None => match host {
                Some(h) => h@,
                None => "unknown"@,
            },
        },
    }
}

/// The name a new movie is listed under.
pub fn cached_name_for(content: &ContentSummary) -> (name: String)
    ensures
        name@ == cached_name_of(*content),
{
    match content {
        ContentSummary::Bundle { name } => name.clone(),
        ContentSummary::DirectFile { path, host } => match file_stem(path.as_str()) {
            Some(stem) => stem,
            None => match host {
                Some(h) => h.clone(),
                None => String::from_str("unknown"),
            },
        },
    }
}

/// The outcome of opening a local file as a Ruffle Bundle.
#[derive(Clone, Copy, Debug, PartialEq, Eq, Structural)]
pub enum BundleOpening {
    /// It is a bundle.
    Opened,
    /// Nothing is there to open as a bundle.
    DoesntExist,
    /// It is no kind of bundle source.
    UnknownSource,
    /// It is a bundle that failed to open.
    Failed,
}

/// How a movie's content is played.
#[derive(Clone, Copy, Debug, PartialEq, Eq, Structural)]
pub enum ContentKind {
    /// As a Ruffle Bundle.
    Bundle,
    /// As a single SWF.
    DirectFile,
}

/// How a local file is played once opening it as a bundle gave `opening`:
/// as a bundle when it is one, as a single SWF when it is no bundle at
/// all; `None` when it is a bundle that failed to open.
pub open spec fn content_kind_of(opening: BundleOpening) -> Option<ContentKind> {
    match opening {
        BundleOpening::Opened => Some(ContentKind::Bundle),
        BundleOpening::DoesntExist | BundleOpening::UnknownSource => Some(ContentKind::DirectFile),
        BundleOpening::Failed => None,
    }
}

/// How a local file is played once opening it as a bundle gave `opening`.
pub fn content_kind(opening: BundleOpening) -> (kind: Option<ContentKind>)
    ensures
        kind == content_kind_of(opening),
{
    match opening {
        BundleOpening::Opened => Some(ContentKind::Bundle),
        BundleOpening::DoesntExist | BundleOpening::UnknownSource => Some(ContentKind::DirectFile),
        BundleOpening::Failed => None,
    }
}

/// How a movie plays and from which URL. A link that is no file URL plays
/// as a single SWF, from what its absolute string parses to. A file URL
/// plays as opening it as a bundle decided (`opening`, read for file URLs
/// only), from what the absolute string of its file-path URL parses to.
/// `None` when the bundle failed to open or the URL does not parse.
pub fn playing_content(is_file_url: bool, absolute: &str, file_path_absolute: &str, opening: BundleOpening) -> (played:
    Option<(ContentKind, ParsedUrl)>)
    ensures
        match played {
            Some((kind, url)) => if is_file_url {
                content_kind_of(opening) == Some(kind) && parses_to(file_path_absolute@, url)
            } else {
                kind == ContentKind::DirectFile && parses_to(absolute@, url)
            },
            None => if is_file_url {
                content_kind_of(opening) is None || url_parse(file_path_absolute@) is None
            } else {
                url_parse(absolute@) is None
            },
        },
{
    if !is_file_url {
        return match parse_url(absolute) {
            Ok(url) => Some((ContentKind::DirectFile, url)),
            Err(_) => None,
        };
    }
    match content_kind(opening) {
        Some(kind) => match parse_url(file_path_absolute) {
            Ok(url) => Some((kind, url)),
            Err(_) => None,
        },
        None => None,
    }
}

/// What a new movie's name is chosen from: the name of its bundle
/// (`bundle_name`, read for bundles only), or the path and host of the URL
/// its SWF plays from.
pub fn content_summary(kind: ContentKind, url: &ParsedUrl, bundle_name: &str) -> (summary: ContentSummary)
    ensures
        match kind {
            ContentKind::Bundle => summary matches ContentSummary::Bundle { name } && name@ == bundle_name@,
            ContentKind::DirectFile => summary matches ContentSummary::DirectFile { path, host } && path@ == url.path@
                && opt_chars(host) == opt_chars(url.host),
        },
{
    match kind {
        ContentKind::Bundle => ContentSummary::Bundle { name: bundle_name.to_owned() },
        ContentKind::DirectFile => ContentSummary::DirectFile {
            path: url.path.clone(),
            host: match &url.host {
                Some(h) => Some(h.clone()),
                None => None,
            },
        },
    }
}

/// A local file plays as a bundle when it opened as one, as a single SWF
/// when there is no bundle there or it is no kind of bundle source, and not
/// at all when it is a bundle that failed to open. A new movie is named
/// after its bundle, else after the stem of its URL's file name, else after
/// its URL's host, else "unknown".
pub proof fn movies_play_and_are_named_as_they_open(name: String, path: String, host: Option<String>)
    ensures
        content_kind_of(BundleOpening::Opened) == Some(ContentKind::Bundle),
        content_kind_of(BundleOpening::DoesntExist) == Some(ContentKind::DirectFile),
        content_kind_of(BundleOpening::UnknownSource) == Some(ContentKind::DirectFile),
        content_kind_of(BundleOpening::Failed) is None,
        cached_name_of((ContentSummary::Bundle { name })) == name@,
        path_file_stem(path@) is Some ==> cached_name_of((ContentSummary::DirectFile { path, host }))
            == path_file_stem(path@)->0,
        path_file_stem(path@) is None && host is Some ==> cached_name_of(
            (ContentSummary::DirectFile { path, host }),
        ) == host->0@,
        path_file_stem(path@) is None && host is None ==> cached_name_of(
            (ContentSummary::DirectFile { path, host }),
        ) == "unknown"@,
{
}

} // verus!
