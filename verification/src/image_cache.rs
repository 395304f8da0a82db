//! The bookkeeping of the artwork cache: which images it holds, in which
//! order they were last used, and which to drop to stay within budget.
//!
//! Images are named by keys the caller hands out; the decoded images
//! themselves, and the tasks that load them, stay with the caller.

use vstd::prelude::*;

verus! {

/// At most this many images are kept.
pub const MAX_IMAGES: usize = 48;

/// Decoded images beyond this many bytes are evicted, down to the last one.
pub const MAX_DECODED_BYTES: usize = 33_554_432;

/// Whether `item_count` images, plus `reserved` about to be added, holding
/// `decoded` bytes are over budget. A single image may exceed the byte budget.
pub open spec fn over_budget(item_count: int, reserved: int, decoded: int) -> bool {
    item_count + reserved > MAX_IMAGES || (decoded > MAX_DECODED_BYTES && item_count > 1)
}

pub fn exceeds_cache_budget(item_count: usize, reserved_entries: usize, decoded_bytes: usize) -> (r: bool)
    ensures
        r == over_budget(item_count as int, reserved_entries as int, decoded_bytes as int),
{
    item_count > MAX_IMAGES || reserved_entries > MAX_IMAGES - item_count
        || (decoded_bytes > MAX_DECODED_BYTES && item_count > 1)
}

/// Where one image stands.
#[derive(Clone, Copy, Debug, PartialEq, Eq, Structural)]
pub enum ImageState {
    Loading,
    Loaded { decoded_bytes: usize },
    /// The load failed; it may be retried once `retry_ready`.
    Failed { retry_ready: bool },
}

/// One image the cache holds.
#[derive(Clone, Copy, Debug, PartialEq, Eq, Structural)]
pub struct CachedImage {
    pub key: u64,
    pub state: ImageState,
}

/// The decoded bytes an image accounts for.
pub open spec fn loaded_bytes(state: ImageState) -> int {
    match state {
        ImageState::Loaded { decoded_bytes } => decoded_bytes as int,
        _ => 0,
    }
}

/// `a - b`, or nothing when `b` is larger.
pub open spec fn less(a: int, b: int) -> int {
    if a >= b {
        a - b
    } else {
        0
    }
}

/// How many of the least recently used images go, and the decoded bytes
/// left after them, so that `reserved` more fit.
pub open spec fn evict(entries: Seq<CachedImage>, reserved: int, decoded: int) -> (nat, int)
    decreases entries.len(),
{
    if entries.len() > 0 && over_budget(entries.len() as int, reserved, decoded) {
        let (n, left) = evict(entries.drop_first(), reserved, less(decoded, loaded_bytes(entries[0].state)));
        (n + 1, left)
    } else {
        (0, decoded)
    }
}

/// No key occurs twice.
pub open spec fn distinct_keys(entries: Seq<CachedImage>) -> bool {
    forall|i: int, j: int| 0 <= i < j < entries.len() ==> entries[i].key != entries[j].key
}

/// Whether some image has `key`.
pub open spec fn holds(entries: Seq<CachedImage>, key: u64) -> bool {
    exists|p: int| 0 <= p < entries.len() && #[trigger] entries[p].key == key
}

/// Where the image with `key` stands in the recency order.
pub open spec fn slot(entries: Seq<CachedImage>, key: u64) -> int {
    choose|p: int| 0 <= p < entries.len() && #[trigger] entries[p].key == key
}

/// `entries` with the image at `p` moved to the most recent end.
pub open spec fn touched(entries: Seq<CachedImage>, p: int) -> Seq<CachedImage> {
    entries.remove(p).push(entries[p])
}

/// The images, least recently used first, and the bytes they decoded to.
pub struct ImageCacheView {
    pub entries: Seq<CachedImage>,
    pub decoded_bytes: usize,
}

pub struct ImageCache {
    entries: Vec<CachedImage>,
    decoded_bytes: usize,
}

impl View for ImageCache {
    type V = ImageCacheView;

    closed spec fn view(&self) -> ImageCacheView {
        ImageCacheView { entries: self.entries@, decoded_bytes: self.decoded_bytes }
    }
}

/// What a lookup found.
#[derive(Debug)]
pub enum ImageLoad {
    /// The image is held, in this state; it is now the most recently used.
    Cached(ImageState),
    /// The image is not held: start loading it. The images listed were
    /// evicted to make room and are to be dropped.
    Start { evicted: Vec<CachedImage> },
}

/// After a failure whose retry is due, the image is forgotten.
pub open spec fn without_due_retry(entries: Seq<CachedImage>, key: u64) -> Seq<CachedImage> {
    if holds(entries, key) && entries[slot(entries, key)].state == (ImageState::Failed { retry_ready: true }) {
        entries.remove(slot(entries, key))
    } else {
        entries
    }
}

proof fn lemma_slot(entries: Seq<CachedImage>, key: u64, p: int)
    requires
        distinct_keys(entries),
        0 <= p < entries.len(),
        entries[p].key == key,
    ensures
        holds(entries, key),
        slot(entries, key) == p,
{
    assert(holds(entries, key));
    let q = slot(entries, key);
    if q != p {
        if q < p {
            assert(entries[q].key != entries[p].key);
        } else {
            assert(entries[p].key != entries[q].key);
        }
    }
}

proof fn lemma_remove_distinct(entries: Seq<CachedImage>, p: int)
    requires
        distinct_keys(entries),
        0 <= p < entries.len(),
    ensures
        distinct_keys(entries.remove(p)),
        !holds(entries.remove(p), entries[p].key),
{
    let rest = entries.remove(p);
    assert forall|i: int, j: int| 0 <= i < j < rest.len() implies rest[i].key != rest[j].key by {
        let a = if i < p { i } else { i + 1 };
        let b = if j < p { j } else { j + 1 };
        assert(rest[i] == entries[a]);
        assert(rest[j] == entries[b]);
    }
    if holds(rest, entries[p].key) {
        let q = choose|q: int| 0 <= q < rest.len() && #[trigger] rest[q].key == entries[p].key;
        let a = if q < p { q } else { q + 1 };
        assert(rest[q] == entries[a]);
    }
}

proof fn lemma_push_distinct(entries: Seq<CachedImage>, image: CachedImage)
    requires
        distinct_keys(entries),
        !holds(entries, image.key),
    ensures
        distinct_keys(entries.push(image)),
{
    let all = entries.push(image);
    assert forall|i: int, j: int| 0 <= i < j < all.len() implies all[i].key != all[j].key by {
        if j == entries.len() {
            assert(all[i] == entries[i]);
        } else {
            assert(all[i] == entries[i]);
            assert(all[j] == entries[j]);
        }
    }
}

proof fn lemma_skip_distinct(entries: Seq<CachedImage>, n: int)
    requires
        distinct_keys(entries),
        0 <= n <= entries.len(),
    ensures
        distinct_keys(entries.skip(n)),
{
    let rest = entries.skip(n);
    assert forall|i: int, j: int| 0 <= i < j < rest.len() implies rest[i].key != rest[j].key by {
        assert(rest[i] == entries[i + n]);
        assert(rest[j] == entries[j + n]);
    }
}

impl ImageCache {
    /// Keys are unique, so every key names at most one image.
    pub closed spec fn wf(self) -> bool {
        distinct_keys(self.entries@)
    }

    pub fn new() -> (r: ImageCache)
        ensures
            r.wf(),
            r@.entries == Seq::<CachedImage>::empty(),
            r@.decoded_bytes == 0,
    {
        ImageCache { entries: Vec::new(), decoded_bytes: 0 }
    }

    /// Where `key` stands, if it is held.
    fn find(&self, key: u64) -> (r: Option<usize>)
        requires
            self.wf(),
        ensures
            r is None ==> !holds(self.entries@, key),
            r matches Some(p) ==> p < self.entries@.len() && slot(self.entries@, key) == p
                && holds(self.entries@, key),
    {
        let mut i: usize = 0;
        while i < self.entries.len()
            invariant
                i <= self.entries@.len(),
                distinct_keys(self.entries@),
                forall|k: int| 0 <= k < i ==> self.entries@[k].key != key,
            decreases self.entries.len() - i,
        {
            if self.entries[i].key == key {
                proof {
                    lemma_slot(self.entries@, key, i as int);
                }
                return Some(i);
            }
            i = i + 1;
        }
        None
    }

    /// Moves the image at `p` to the most recently used end.
    fn touch(&mut self, p: usize)
        requires
            old(self).wf(),
            p < old(self).entries@.len(),
        ensures
            final(self).wf(),
            final(self).entries@ == touched(old(self).entries@, p as int),
            final(self).decoded_bytes == old(self).decoded_bytes,
    {
        let image = self.entries.remove(p);
        proof {
            lemma_remove_distinct(old(self).entries@, p as int);
            lemma_push_distinct(self.entries@, image);
        }
        self.entries.push(image);
    }

    /// Drops the least recently used images until `reserved` more fit, and
    /// hands the dropped ones back.
    fn evict_to_budget(&mut self, reserved: usize) -> (evicted: Vec<CachedImage>)
        requires
            old(self).wf(),
        ensures
            final(self).wf(),
            ({
                let (n, left) = evict(old(self).entries@, reserved as int, old(self).decoded_bytes as int);
                &&& n <= old(self).entries@.len()
                &&& evicted@ == old(self).entries@.take(n as int)
                &&& final(self).entries@ == old(self).entries@.skip(n as int)
                &&& final(self).decoded_bytes == left
            }),
    {
        let ghost start = self.entries@;
        let ghost start_bytes = self.decoded_bytes as int;
        let mut evicted: Vec<CachedImage> = Vec::new();
        while self.entries.len() > 0 && exceeds_cache_budget(self.entries.len(), reserved, self.decoded_bytes)
            invariant
                evicted@.len() <= start.len(),
                evicted@ == start.take(evicted@.len() as int),
                self.entries@ == start.skip(evicted@.len() as int),
                distinct_keys(start),
                ({
                    let (n, left) = evict(start, reserved as int, start_bytes);
                    let (m, rest) = evict(self.entries@, reserved as int, self.decoded_bytes as int);
                    n == evicted@.len() + m && left == rest
                }),
            decreases self.entries@.len(),
        {
            let image = self.entries.remove(0);
            let freed: usize = match image.state {
                ImageState::Loaded { decoded_bytes } => decoded_bytes,
                _ => 0,
            };
            self.decoded_bytes = self.decoded_bytes.saturating_sub(freed);
            evicted.push(image);
            proof {
                assert(evicted@ =~= start.take(evicted@.len() as int));
                assert(self.entries@ =~= start.skip(evicted@.len() as int));
            }
        }
        proof {
            lemma_skip_distinct(start, evicted@.len() as int);
        }
        evicted
    }

    /// Looks `key` up. A failure whose retry is due is forgotten first, so
    /// that the image is loaded afresh.
    pub fn load(&mut self, key: u64) -> (r: ImageLoad)
        requires
            old(self).wf(),
        ensures
            final(self).wf(),
            ({
                let entries = without_due_retry(old(self)@.entries, key);
                if holds(entries, key) {
                    let p = slot(entries, key);
                    &&& final(self)@.entries == touched(entries, p)
                    &&& final(self)@.decoded_bytes == old(self)@.decoded_bytes
                    &&& r == ImageLoad::Cached(entries[p].state)
                } else {
                    let (n, left) = evict(entries, 1, old(self)@.decoded_bytes as int);
                    &&& final(self)@.entries == entries.skip(n as int).push(
                        CachedImage { key, state: ImageState::Loading },
                    )
                    &&& final(self)@.decoded_bytes == left
                    &&& r matches ImageLoad::Start { evicted } && evicted@ == entries.take(n as int)
                }
            }),
    {
        let ghost original = self.entries@;
        let found = self.find(key);
        let found = match found {
            Some(p) => {
                if self.entries[p].state == (ImageState::Failed { retry_ready: true }) {
                    self.entries.remove(p);
                    proof {
                        lemma_remove_distinct(original, p as int);
                    }
                    None
                } else {
                    Some(p)
                }
            },
            None => None,
        };
        assert(self.entries@ == without_due_retry(original, key));
        match found {
            Some(p) => {
                let state = self.entries[p].state;
                self.touch(p);
                ImageLoad::Cached(state)
            },
            None => {
                let ghost entries = self.entries@;
                let evicted = self.evict_to_budget(1);
                proof {
                    let (n, left) = evict(entries, 1, old(self).decoded_bytes as int);
                    if holds(self.entries@, key) {
                        let q = choose|q: int| 0 <= q < self.entries@.len() && #[trigger] self.entries@[q].key == key;
                        assert(self.entries@[q] == entries[q + n]);
                        assert(holds(entries, key));
                    }
                    lemma_push_distinct(self.entries@, CachedImage { key, state: ImageState::Loading });
                }
                self.entries.push(CachedImage { key, state: ImageState::Loading });
                ImageLoad::Start { evicted }
            },
        }
    }

    /// A load finished: with the decoded size, or `None` when it failed.
    /// Reports the images evicted to stay within budget.
    pub fn finished(&mut self, key: u64, outcome: Option<usize>) -> (evicted: Vec<CachedImage>)
        requires
            old(self).wf(),
            outcome matches Some(bytes) ==> old(self)@.decoded_bytes + bytes <= usize::MAX,
        ensures
            final(self).wf(),
            ({
                let entries = old(self)@.entries;
                let p = slot(entries, key);
                if holds(entries, key) && entries[p].state == ImageState::Loading {
                    match outcome {
                        Some(bytes) => {
                            let loaded = entries.update(p, CachedImage { key, state: ImageState::Loaded { decoded_bytes: bytes } });
                            let (n, left) = evict(loaded, 0, old(self)@.decoded_bytes + bytes);
                            &&& final(self)@.entries == loaded.skip(n as int)
                            &&& final(self)@.decoded_bytes == left
                            &&& evicted@ == loaded.take(n as int)
                        },
                        None => {
                            &&& final(self)@.entries == entries.update(
                                p,
                                CachedImage { key, state: ImageState::Failed { retry_ready: false } },
                            )
                            &&& final(self)@.decoded_bytes == old(self)@.decoded_bytes
                            &&& evicted@.len() == 0
                        },
                    }
                } else {
                    final(self)@ == old(self)@ && evicted@.len() == 0
                }
            }),
    {
        let ghost entries = self.entries@;
        match self.find(key) {
            Some(p) => {
                if self.entries[p].state != ImageState::Loading {
                    return Vec::new();
                }
                match outcome {
                    Some(bytes) => {
                        self.entries.set(p, CachedImage { key, state: ImageState::Loaded { decoded_bytes: bytes } });
                        self.decoded_bytes = self.decoded_bytes + bytes;
                        proof {
                            assert forall|i: int, j: int| 0 <= i < j < self.entries@.len() implies self.entries@[i].key
                                != self.entries@[j].key by {
                                assert(self.entries@[i].key == entries[i].key);
                                assert(self.entries@[j].key == entries[j].key);
                            }
                        }
                        self.evict_to_budget(0)
                    },
                    None => {
                        self.entries.set(p, CachedImage { key, state: ImageState::Failed { retry_ready: false } });
                        proof {
                            assert forall|i: int, j: int| 0 <= i < j < self.entries@.len() implies self.entries@[i].key
                                != self.entries@[j].key by {
                                assert(self.entries@[i].key == entries[i].key);
                                assert(self.entries@[j].key == entries[j].key);
                            }
                        }
                        Vec::new()
                    },
                }
            },
            None => Vec::new(),
        }
    }

    /// The wait after a failure is over: the next lookup loads the image again.
    pub fn retry_due(&mut self, key: u64)
        requires
            old(self).wf(),
        ensures
            final(self).wf(),
            ({
                let entries = old(self)@.entries;
                let p = slot(entries, key);
                if holds(entries, key) && entries[p].state is Failed {
                    &&& final(self)@.entries == entries.update(
                        p,
                        CachedImage { key, state: ImageState::Failed { retry_ready: true } },
                    )
                    &&& final(self)@.decoded_bytes == old(self)@.decoded_bytes
                } else {
                    final(self)@ == old(self)@
                }
            }),
    {
        let ghost entries = self.entries@;
        match self.find(key) {
            Some(p) => {
                if let ImageState::Failed { .. } = self.entries[p].state {
                    self.entries.set(p, CachedImage { key, state: ImageState::Failed { retry_ready: true } });
                    proof {
                        assert forall|i: int, j: int| 0 <= i < j < self.entries@.len() implies self.entries@[i].key
                            != self.entries@[j].key by {
                            assert(self.entries@[i].key == entries[i].key);
                            assert(self.entries@[j].key == entries[j].key);
                        }
                    }
                }
            },
            None => {},
        }
    }

    /// The held images, least recently used first.
    pub fn entries(&self) -> (r: &[CachedImage])
        ensures
            r@ == self@.entries,
    {
        self.entries.as_slice()
    }

    pub fn decoded_bytes(&self) -> (r: usize)
        ensures
            r == self@.decoded_bytes,
    {
        self.decoded_bytes
    }
}

/// Eviction stops only once `reserved` more images fit the count budget, and
/// the bytes fit too unless a single image is left.
pub proof fn lemma_eviction_meets_the_budget(entries: Seq<CachedImage>, reserved: int, decoded: int)
    requires
        0 <= reserved <= MAX_IMAGES,
    ensures
        ({
            let (n, left) = evict(entries, reserved, decoded);
            &&& n <= entries.len()
            &&& entries.len() - n + reserved <= MAX_IMAGES
            &&& left > MAX_DECODED_BYTES ==> entries.len() - n <= 1
        }),
    decreases entries.len(),
{
    if entries.len() > 0 && over_budget(entries.len() as int, reserved, decoded) {
        lemma_eviction_meets_the_budget(
            entries.drop_first(),
            reserved,
            less(decoded, loaded_bytes(entries[0].state)),
        );
    }
}

/// Eviction takes the least recently used images first: what stays is the
/// most recent end of the order, in the same order.
pub proof fn lemma_eviction_keeps_the_most_recent(entries: Seq<CachedImage>, reserved: int, decoded: int)
    ensures
        ({
            let (n, _) = evict(entries, reserved, decoded);
            n <= entries.len() && forall|i: int| 0 <= i < entries.len() - n ==> #[trigger] entries.skip(
                n as int,
            )[i] == entries[i + n]
        }),
    decreases entries.len(),
{
    if entries.len() > 0 && over_budget(entries.len() as int, reserved, decoded) {
        lemma_eviction_keeps_the_most_recent(
            entries.drop_first(),
            reserved,
            less(decoded, loaded_bytes(entries[0].state)),
        );
    }
}

/// A lookup never leaves the cache holding more than `MAX_IMAGES` images,
/// whatever it held before a miss, and keeps the count on a hit.
pub proof fn lemma_a_lookup_stays_within_the_count(cache: ImageCacheView, key: u64)
    requires
        cache.entries.len() <= MAX_IMAGES,
    ensures
        ({
            let entries = without_due_retry(cache.entries, key);
            if holds(entries, key) {
                touched(entries, slot(entries, key)).len() <= MAX_IMAGES
            } else {
                let (n, _) = evict(entries, 1, cache.decoded_bytes as int);
                entries.skip(n as int).push(CachedImage { key, state: ImageState::Loading }).len()
                    <= MAX_IMAGES
            }
        }),
{
    let entries = without_due_retry(cache.entries, key);
    lemma_eviction_meets_the_budget(entries, 1, cache.decoded_bytes as int);
}

/// Artwork downloads larger than this are refused.
pub const MAX_IMAGE_DOWNLOAD_BYTES: usize = 10_485_760;

pub open spec fn oversized_message() -> Seq<char> {
    "image response exceeds 10485760 byte limit"@
}

/// Checks the length a response declares before its body is read, and says
/// how much room to set aside for it.
pub fn declared_length_check(content_length: Option<u64>) -> (r: Result<usize, String>)
    ensures
        match content_length {
            Some(length) => if length > MAX_IMAGE_DOWNLOAD_BYTES {
                r matches Err(error) && error@ == oversized_message()
            } else {
                r == Ok::<usize, String>(length as usize)
            },
            None => r == Ok::<usize, String>(0),
        },
{
    match content_length {
        Some(length) => if length > MAX_IMAGE_DOWNLOAD_BYTES as u64 {
            Err(String::from_str("image response exceeds 10485760 byte limit"))
        } else {
            Ok(length as usize)
        },
        None => Ok(0),
    }
}

/// Whether one more chunk of a body still fits the download limit.
pub fn chunk_fits(received: usize, chunk: usize) -> (r: bool)
    ensures
        r == (received + chunk <= MAX_IMAGE_DOWNLOAD_BYTES),
{
    received <= MAX_IMAGE_DOWNLOAD_BYTES && chunk <= MAX_IMAGE_DOWNLOAD_BYTES - received
}

} // verus!
