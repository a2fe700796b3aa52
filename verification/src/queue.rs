//! The desktop player's playback queue: tracks, the position in them, and an
//! optional shuffle order that maps play positions to queue indices.
use crate::models::Track;
use rand::seq::SliceRandom;
use vstd::prelude::*;

verus! {

broadcast use vstd::seq_lib::group_to_multiset_ensures;

/// The indices `0, 1, ..., n - 1` in order.
pub open spec fn index_range(n: nat) -> Seq<usize> {
    Seq::new(n, |i: int| i as usize)
}

/// `order` is a rearrangement of the queue indices `0..n`: each occurs in it
/// exactly as often as in `0..n`.
pub open spec fn is_shuffle_of_range(order: Seq<usize>, n: nat) -> bool {
    order.to_multiset() == index_range(n).to_multiset()
}

/// Shuffles the indices in place with the thread-local random generator.
///
/// Calls `rand::seq::SliceRandom::shuffle` with `rand::thread_rng()`. That
/// shuffle only swaps elements of the slice, so the result is a rearrangement
/// of the input; which rearrangement comes out is left open.
#[verifier::external_body]
fn shuffle_indices(v: &mut Vec<usize>)
    ensures
        final(v)@.len() == old(v)@.len(),
        final(v)@.to_multiset() == old(v)@.to_multiset(),
{
    v.shuffle(&mut rand::thread_rng());
}

/// The indices `from, from + 1, ..., to - 1` as a vector.
fn indices_between(from: usize, to: usize) -> (r: Vec<usize>)
    requires
        from <= to,
    ensures
        r@ == index_range(to as nat).subrange(from as int, to as int),
{
    let mut v: Vec<usize> = Vec::new();
    let mut i: usize = from;
    while i < to
        invariant
            from <= i <= to,
            v@ == index_range(to as nat).subrange(from as int, i as int),
        decreases to - i,
    {
        v.push(i);
        i = i + 1;
        assert(v@ =~= index_range(to as nat).subrange(from as int, i as int));
    }
    v
}

/// The abstract value of a queue.
pub struct QueueView {
    pub tracks: Seq<Track>,
    pub current_index: int,
    pub shuffle_order: Seq<usize>,
}

impl QueueView {
    /// The track at queue index `i`, if there is one.
    pub open spec fn track_at(self, i: int) -> Option<Track> {
        if 0 <= i < self.tracks.len() {
            Some(self.tracks[i])
        } else {
            None
        }
    }

    /// Whether navigation follows the shuffle order: shuffle is on and an
    /// order exists.
    pub open spec fn uses_shuffle(self, shuffle_enabled: bool) -> bool {
        shuffle_enabled && self.shuffle_order.len() > 0
    }

    /// The track that play position `pos` of the shuffle order points to.
    pub open spec fn shuffled_at(self, pos: int) -> Option<Track> {
        if 0 <= pos < self.shuffle_order.len() {
            self.track_at(self.shuffle_order[pos] as int)
        } else {
            None
        }
    }

    /// The current track in queue order.
    pub open spec fn current(self) -> Option<Track> {
        self.track_at(self.current_index)
    }

    /// The track at play position `pos` in the given mode.
    pub open spec fn at_position(self, pos: int, shuffle_enabled: bool) -> Option<Track> {
        if self.uses_shuffle(shuffle_enabled) {
            self.shuffled_at(pos)
        } else {
            self.track_at(pos)
        }
    }

    /// The current track in the given mode.
    pub open spec fn current_in_mode(self, shuffle_enabled: bool) -> Option<Track> {
        self.at_position(self.current_index, shuffle_enabled)
    }

    /// How many play positions the current mode walks through.
    pub open spec fn walk_len(self, shuffle_enabled: bool) -> int {
        if self.uses_shuffle(shuffle_enabled) {
            self.shuffle_order.len() as int
        } else {
            self.tracks.len() as int
        }
    }

    /// The queue with its position moved to `i`.
    pub open spec fn with_index(self, i: int) -> QueueView {
        QueueView { current_index: i, ..self }
    }

    /// Whether moving to the next position is possible.
    pub open spec fn can_advance(self, shuffle_enabled: bool) -> bool {
        self.current_index + 1 < self.walk_len(shuffle_enabled)
    }

    /// The queue after a step forward (unchanged when no step is possible).
    pub open spec fn after_next(self, shuffle_enabled: bool) -> QueueView {
        if self.can_advance(shuffle_enabled) {
            self.with_index(self.current_index + 1)
        } else {
            self
        }
    }

    /// Whether moving to the previous position is possible.
    pub open spec fn can_go_back(self) -> bool {
        self.current_index > 0
    }

    /// The queue after a step back (unchanged when no step is possible).
    pub open spec fn after_previous(self) -> QueueView {
        if self.can_go_back() {
            self.with_index(self.current_index - 1)
        } else {
            self
        }
    }

    /// The play position `queue_index` entries after the current one.
    pub open spec fn skip_target(self, queue_index: int) -> int {
        self.current_index + 1 + queue_index
    }

    /// Whether skipping ahead by `queue_index` entries is possible.
    pub open spec fn can_skip(self, queue_index: int, shuffle_enabled: bool) -> bool {
        self.skip_target(queue_index) < self.walk_len(shuffle_enabled)
    }

    /// The queue after skipping ahead (unchanged when the target is past the end).
    pub open spec fn after_skip(self, queue_index: int, shuffle_enabled: bool) -> QueueView {
        if self.can_skip(queue_index, shuffle_enabled) {
            self.with_index(self.skip_target(queue_index))
        } else {
            self
        }
    }

    /// Stepping back from the current position does not index past the
    /// shuffle order (the step reads the order at the new position).
    pub open spec fn previous_in_bounds(self, shuffle_enabled: bool) -> bool {
        self.uses_shuffle(shuffle_enabled) && self.can_go_back() ==> self.current_index - 1
            < self.shuffle_order.len()
    }
}

/// A borrowed view of an optional track.
pub open spec fn borrowed<'a>(t: Option<Track>) -> Option<&'a Track> {
    match t {
        Some(x) => Some(&x),
        None => None,
    }
}

/// Queue for managing playback.
#[derive(Debug)]
pub struct PlaybackQueue {
    /// All tracks in the queue.
    pub tracks: Vec<Track>,
    /// Current play position: a queue index, or a shuffle position when
    /// navigating in shuffle mode.
    pub current_index: usize,
    /// Shuffle order: maps shuffle position to queue index.
    pub shuffle_order: Vec<usize>,
}

impl View for PlaybackQueue {
    type V = QueueView;

    open spec fn view(&self) -> QueueView {
        QueueView {
            tracks: self.tracks@,
            current_index: self.current_index as int,
            shuffle_order: self.shuffle_order@,
        }
    }
}

impl PlaybackQueue {
    /// An empty queue.
    pub fn new() -> (r: PlaybackQueue)
        ensures
            r@.tracks.len() == 0,
            r@.current_index == 0,
            r@.shuffle_order.len() == 0,
    {
        PlaybackQueue { tracks: Vec::new(), current_index: 0, shuffle_order: Vec::new() }
    }

    /// Appends a track to the end of the queue.
    pub fn add_track(&mut self, track: Track)
        ensures
            final(self)@ == (QueueView { tracks: old(self)@.tracks.push(track), ..old(self)@ }),
    {
        self.tracks.push(track);
    }

    /// Appends tracks to the end of the queue, in order.
    pub fn add_tracks(&mut self, tracks: Vec<Track>)
        ensures
            final(self)@ == (QueueView { tracks: old(self)@.tracks + tracks@, ..old(self)@ }),
    {
        let mut tracks = tracks;
        self.tracks.append(&mut tracks);
    }

    /// Empties the queue, its position and its shuffle order.
    pub fn clear(&mut self)
        ensures
            final(self)@.tracks.len() == 0,
            final(self)@.current_index == 0,
            final(self)@.shuffle_order.len() == 0,
    {
        self.tracks.clear();
        self.current_index = 0;
        self.shuffle_order.clear();
    }

    /// The track at queue index `i`, if there is one.
    fn track_ref(&self, i: usize) -> (r: Option<&Track>)
        ensures
            r == borrowed(self@.track_at(i as int)),
    {
        if i < self.tracks.len() {
            Some(&self.tracks[i])
        } else {
            None
        }
    }

    /// The track at the current queue index.
    pub fn current_track(&self) -> (r: Option<&Track>)
        ensures
            r == borrowed(self@.current()),
    {
        self.track_ref(self.current_index)
    }

    /// Moves to the next track in queue order.
    pub fn next_track(&mut self) -> (r: Option<&Track>)
        ensures
            final(self)@ == old(self)@.after_next(false),
            r == (if old(self)@.can_advance(false) {
                borrowed(final(self)@.current())
            } else {
                None
            }),
    {
        if !self.tracks.is_empty() && self.current_index < self.tracks.len() - 1 {
            self.current_index = self.current_index + 1;
            self.current_track()
        } else {
            None
        }
    }

    /// Moves to the previous track in queue order.
    pub fn previous(&mut self) -> (r: Option<&Track>)
        ensures
            final(self)@ == old(self)@.after_previous(),
            r == (if old(self)@.can_go_back() {
                borrowed(final(self)@.current())
            } else {
                None
            }),
    {
        if self.current_index > 0 {
            self.current_index = self.current_index - 1;
            self.current_track()
        } else {
            None
        }
    }

    /// Number of tracks in the queue.
    pub fn len(&self) -> (r: usize)
        ensures
            r == self@.tracks.len(),
    {
        self.tracks.len()
    }

    /// Whether the queue has no tracks.
    pub fn is_empty(&self) -> (r: bool)
        ensures
            r == (self@.tracks.len() == 0),
    {
        self.tracks.is_empty()
    }

    /// Replaces the shuffle order with a random rearrangement of all queue
    /// indices.
    pub fn generate_shuffle_order(&mut self)
        ensures
            final(self)@.tracks == old(self)@.tracks,
            final(self)@.current_index == old(self)@.current_index,
            is_shuffle_of_range(final(self)@.shuffle_order, old(self)@.tracks.len()),
    {
        let track_count = self.tracks.len();
        if track_count == 0 {
            self.shuffle_order.clear();
            assert(index_range(0) =~= Seq::<usize>::empty());
            return;
        }
        let mut indices = indices_between(0, track_count);
        assert(indices@ =~= index_range(track_count as nat));
        shuffle_indices(&mut indices);
        self.shuffle_order = indices;
    }

    /// Replaces the shuffle order with a random rearrangement of all queue
    /// indices that keeps index 0 first.
    pub fn generate_shuffle_order_keep_first(&mut self)
        ensures
            final(self)@.tracks == old(self)@.tracks,
            final(self)@.current_index == old(self)@.current_index,
            is_shuffle_of_range(final(self)@.shuffle_order, old(self)@.tracks.len()),
            old(self)@.tracks.len() > 0 ==> final(self)@.shuffle_order[0] == 0,
    {
        let track_count = self.tracks.len();
        if track_count == 0 {
            self.shuffle_order.clear();
            assert(index_range(0) =~= Seq::<usize>::empty());
            return;
        }
        if track_count == 1 {
            self.shuffle_order = vec![0];
            assert(self.shuffle_order@ =~= index_range(1));
            return;
        }
        let mut indices: Vec<usize> = vec![0];
        let mut rest = indices_between(1, track_count);
        let ghost unshuffled = rest@;
        shuffle_indices(&mut rest);
        let ghost first = indices@;
        let ghost shuffled = rest@;
        indices.append(&mut rest);
        proof {
            assert(indices@ =~= first + shuffled);
            assert(index_range(track_count as nat) =~= first + unshuffled);
            vstd::seq_lib::lemma_multiset_commutative(first, shuffled);
            vstd::seq_lib::lemma_multiset_commutative(first, unshuffled);
        }
        self.shuffle_order = indices;
    }

    /// Drops the shuffle order.
    pub fn clear_shuffle_order(&mut self)
        ensures
            final(self)@ == (QueueView { shuffle_order: Seq::empty(), ..old(self)@ }),
    {
        self.shuffle_order.clear();
        assert(self@.shuffle_order =~= Seq::<usize>::empty());
    }

    /// The track at play position `pos` in the given mode.
    fn track_at_position(&self, pos: usize, shuffle_enabled: bool) -> (r: Option<&Track>)
        ensures
            r == borrowed(self@.at_position(pos as int, shuffle_enabled)),
    {
        if shuffle_enabled && !self.shuffle_order.is_empty() {
            if pos < self.shuffle_order.len() {
                let actual_index = self.shuffle_order[pos];
                self.track_ref(actual_index)
            } else {
                None
            }
        } else {
            self.track_ref(pos)
        }
    }

    /// The current track, following the shuffle order when shuffle is on and
    /// an order exists.
    pub fn current_track_shuffled(&self, shuffle_enabled: bool) -> (r: Option<&Track>)
        ensures
            r == borrowed(self@.current_in_mode(shuffle_enabled)),
    {
        self.track_at_position(self.current_index, shuffle_enabled)
    }

    /// Moves to the next play position in the given mode.
    pub fn next_track_shuffled(&mut self, shuffle_enabled: bool) -> (r: Option<&Track>)
        ensures
            final(self)@ == old(self)@.after_next(shuffle_enabled),
            r == (if old(self)@.can_advance(shuffle_enabled) {
                borrowed(final(self)@.current_in_mode(shuffle_enabled))
            } else {
                None
            }),
    {
        if shuffle_enabled && !self.shuffle_order.is_empty() {
            if self.current_index < self.shuffle_order.len() - 1 {
                self.current_index = self.current_index + 1;
                return self.track_at_position(self.current_index, shuffle_enabled);
            }
            None
        } else {
            self.next_track()
        }
    }

    /// Moves to the previous play position in the given mode.
    pub fn previous_shuffled(&mut self, shuffle_enabled: bool) -> (r: Option<&Track>)
        requires
            old(self)@.previous_in_bounds(shuffle_enabled),
        ensures
            final(self)@ == old(self)@.after_previous(),
            r == (if old(self)@.can_go_back() {
                borrowed(final(self)@.current_in_mode(shuffle_enabled))
            } else {
                None
            }),
    {
        if shuffle_enabled && !self.shuffle_order.is_empty() {
            if self.current_index > 0 {
                self.current_index = self.current_index - 1;
                return self.track_at_position(self.current_index, shuffle_enabled);
            }
            None
        } else {
            self.previous()
        }
    }

    /// Skips to the entry `queue_index` places after the current one in the
    /// displayed queue (which follows the shuffle order in shuffle mode).
    pub fn skip_to_queue_index(&mut self, queue_index: usize, shuffle_enabled: bool) -> (r:
        Option<&Track>)
        requires
            old(self).current_index + 1 + queue_index <= usize::MAX,
        ensures
            final(self)@ == old(self)@.after_skip(queue_index as int, shuffle_enabled),
            r == (if old(self)@.can_skip(queue_index as int, shuffle_enabled) {
                borrowed(final(self)@.current_in_mode(shuffle_enabled))
            } else {
                None
            }),
    {
        let target = self.current_index + 1 + queue_index;
        if shuffle_enabled && !self.shuffle_order.is_empty() {
            if target < self.shuffle_order.len() {
                self.current_index = target;
                return self.track_at_position(self.current_index, shuffle_enabled);
            }
            None
        } else {
            if target < self.tracks.len() {
                self.current_index = target;
                return self.current_track();
            }
            None
        }
    }
}


/// The play position after `k` steps forward.
pub open spec fn advance_n(q: QueueView, k: nat, shuffle_enabled: bool) -> QueueView
    decreases k,
{
    if k == 0 {
        q
    } else {
        advance_n(q, (k - 1) as nat, shuffle_enabled).after_next(shuffle_enabled)
    }
}

/// A shuffle order made by `generate_shuffle_order` is a permutation of the
/// queue indices: it has one entry per track, every entry is a valid index,
/// no index occurs twice, and every index occurs.
pub proof fn lemma_shuffle_order_is_permutation(order: Seq<usize>, n: nat)
    requires
        is_shuffle_of_range(order, n),
        n <= usize::MAX,
    ensures
        order.len() == n,
        order.no_duplicates(),
        forall|i: int| 0 <= i < n ==> (#[trigger] order[i]) < n,
        forall|t: int| 0 <= t < n ==> #[trigger] order.contains(t as usize),
{
    let range = index_range(n);
    assert(order.len() == order.to_multiset().len());
    assert(range.len() == range.to_multiset().len());
    assert forall|i: int| 0 <= i < n implies (#[trigger] order[i]) < n by {
        assert(order.contains(order[i]));
        assert(order.to_multiset().count(order[i]) > 0);
        assert(range.to_multiset().count(order[i]) > 0);
        assert(range.contains(order[i]));
    }
    assert forall|t: int| 0 <= t < n implies #[trigger] order.contains(t as usize) by {
        assert(range[t] == t as usize);
        assert(range.contains(t as usize));
        assert(range.to_multiset().count(t as usize) > 0);
        assert(order.to_multiset().count(t as usize) > 0);
    }
    assert forall|i: int, j: int| 0 <= i < range.len() && 0 <= j < range.len() && i != j implies
        range[i] != range[j] by {
        assert(range[i] == i as usize);
        assert(range[j] == j as usize);
    }
    assert(range.no_duplicates());
    range.lemma_multiset_has_no_duplicates();
    order.lemma_multiset_has_no_duplicates_conv();
}

/// In shuffle mode with an order made by `generate_shuffle_order`, every play
/// position of the order resolves to a track, and every track of the queue is
/// reached at exactly one play position.
pub proof fn lemma_shuffled_walk_plays_every_track_once(q: QueueView)
    requires
        is_shuffle_of_range(q.shuffle_order, q.tracks.len()),
        0 < q.tracks.len() <= usize::MAX,
    ensures
        q.walk_len(true) == q.tracks.len(),
        forall|pos: int|
            0 <= pos < q.tracks.len() ==> #[trigger] q.at_position(pos, true) == Some(
                q.tracks[q.shuffle_order[pos] as int],
            ),
        forall|t: int| 0 <= t < q.tracks.len() ==> #[trigger] q.shuffle_order.contains(t as usize),
        forall|p1: int, p2: int|
            0 <= p1 < q.tracks.len() && 0 <= p2 < q.tracks.len() && p1 != p2 ==> q.shuffle_order[p1]
                != q.shuffle_order[p2],
{
    lemma_shuffle_order_is_permutation(q.shuffle_order, q.tracks.len());
}

/// A step forward followed by a step back returns to the same position
/// (and the step back is allowed).
pub proof fn lemma_next_then_previous(q: QueueView, shuffle_enabled: bool)
    requires
        q.current_index >= 0,
        q.can_advance(shuffle_enabled),
    ensures
        q.after_next(shuffle_enabled).can_go_back(),
        q.after_next(shuffle_enabled).previous_in_bounds(shuffle_enabled),
        q.after_next(shuffle_enabled).after_previous() == q,
{
}

/// A step back followed by a step forward returns to the same position, when
/// the position was within the walked sequence.
pub proof fn lemma_previous_then_next(q: QueueView, shuffle_enabled: bool)
    requires
        q.can_go_back(),
        q.current_index < q.walk_len(shuffle_enabled),
    ensures
        q.after_previous().can_advance(shuffle_enabled),
        q.after_previous().after_next(shuffle_enabled) == q,
{
}

/// Skipping ahead by `queue_index` lands where `queue_index + 1` steps forward
/// land.
pub proof fn lemma_skip_is_repeated_next(q: QueueView, queue_index: nat, shuffle_enabled: bool)
    requires
        q.current_index >= 0,
        q.can_skip(queue_index as int, shuffle_enabled),
    ensures
        q.after_skip(queue_index as int, shuffle_enabled) == advance_n(
            q,
            queue_index + 1,
            shuffle_enabled,
        ),
    decreases queue_index,
{
    lemma_advance_n_moves(q, queue_index + 1, shuffle_enabled);
}

/// `k` steps forward that stay within the walked sequence move the position
/// by exactly `k`.
pub proof fn lemma_advance_n_moves(q: QueueView, k: nat, shuffle_enabled: bool)
    requires
        q.current_index >= 0,
        q.current_index + k < q.walk_len(shuffle_enabled),
    ensures
        advance_n(q, k, shuffle_enabled) == q.with_index(q.current_index + k),
    decreases k,
{
    if k == 0 {
        assert(q.with_index(q.current_index) == q);
    } else {
        lemma_advance_n_moves(q, (k - 1) as nat, shuffle_enabled);
    }
}

/// Appending tracks leaves the track at every existing play position as it
/// was, so the current track does not change.
pub proof fn lemma_append_keeps_positions(q: QueueView, extra: Seq<Track>, shuffle_enabled: bool)
    ensures
        forall|pos: int|
            (#[trigger] q.at_position(pos, shuffle_enabled)) is Some ==> (QueueView {
                tracks: q.tracks + extra,
                ..q
            }).at_position(pos, shuffle_enabled) == q.at_position(pos, shuffle_enabled),
{
}

} // verus!
