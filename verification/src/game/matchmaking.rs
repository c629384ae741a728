//! Ranked and casual matchmaking queues. Ranked pairing is by rating band:
//! two players may meet when their ratings differ by at most the wider of
//! their two bands, and a band starts at 200 and widens by 25 per second of
//! waiting. Casual pairing takes any other waiting player.
use vstd::prelude::*;

verus! {

broadcast use {vstd::seq_lib::group_to_multiset_ensures, vstd::multiset::group_multiset_axioms};

pub const INITIAL_BAND: i64 = 200;

pub const BAND_WIDEN_PER_SECOND: i64 = 25;

/// Longest wait for which a band still fits in an `i64`.
pub open spec fn max_wait_secs() -> int {
    (i64::MAX - 200) / 25
}

/// One waiting player as the queue logic sees it: who, at what rating, how
/// long they have waited so far, and whether their connection is still open.
pub struct QueueEntry {
    pub user_id: String,
    pub rating: i64,
    pub waited_secs: u64,
    pub connected: bool,
}

pub open spec fn spec_band(waited_secs: int) -> int {
    200 + waited_secs * 25
}

pub open spec fn abs_diff(a: int, b: int) -> int {
    if a >= b {
        a - b
    } else {
        b - a
    }
}

pub open spec fn max_int(a: int, b: int) -> int {
    if a >= b {
        a
    } else {
        b
    }
}

/// Whether two waiting players may be paired.
pub open spec fn spec_can_pair(a: QueueEntry, b: QueueEntry, ranked: bool) -> bool {
    &&& a.user_id@ != b.user_id@
    &&& (ranked ==> abs_diff(a.rating as int, b.rating as int) <= max_int(
        spec_band(a.waited_secs as int),
        spec_band(b.waited_secs as int),
    ))
}

pub open spec fn waits_ok(q: Seq<QueueEntry>) -> bool {
    forall|i: int| 0 <= i < q.len() ==> (#[trigger] q[i]).waited_secs <= max_wait_secs()
}

/// No two entries of the queue could be paired with each other.
pub open spec fn no_pairable(q: Seq<QueueEntry>, ranked: bool) -> bool {
    forall|a: int, b: int| 0 <= a < b < q.len() ==> !spec_can_pair(q[a], q[b], ranked)
}

/// Entries still waiting: connected, and (when `uid` is given) not that user.
pub open spec fn keeps(e: QueueEntry, uid: Option<Seq<char>>) -> bool {
    e.connected && match uid {
        Some(u) => e.user_id@ != u,
        None => true,
    }
}

pub open spec fn spec_still_waiting(q: Seq<QueueEntry>, uid: Option<Seq<char>>) -> Seq<QueueEntry>
    decreases q.len(),
{
    if q.len() == 0 {
        Seq::empty()
    } else {
        let rest = spec_still_waiting(q.drop_last(), uid);
        if keeps(q.last(), uid) {
            rest.push(q.last())
        } else {
            rest
        }
    }
}

/// The pairs of a sweep, flattened: initiator then opponent, pair by pair.
pub open spec fn flatten_pairs(ps: Seq<(QueueEntry, QueueEntry)>) -> Seq<QueueEntry>
    decreases ps.len(),
{
    if ps.len() == 0 {
        Seq::empty()
    } else {
        flatten_pairs(ps.drop_last()).push(ps.last().0).push(ps.last().1)
    }
}

/// Rating band after `waited_secs` seconds in the queue.
pub fn current_band(waited_secs: u64) -> (band: i64)
    requires
        waited_secs <= max_wait_secs(),
    ensures
        band == spec_band(waited_secs as int),
{
    INITIAL_BAND + (waited_secs as i64) * BAND_WIDEN_PER_SECOND
}

/// Pairing is symmetric.
pub proof fn lemma_can_pair_symmetric(a: QueueEntry, b: QueueEntry, ranked: bool)
    ensures
        spec_can_pair(a, b, ranked) == spec_can_pair(b, a, ranked),
{
}

/// Whether the two players may be paired.
pub fn can_pair(a: &QueueEntry, b: &QueueEntry, ranked: bool) -> (r: bool)
    requires
        a.waited_secs <= max_wait_secs(),
        b.waited_secs <= max_wait_secs(),
    ensures
        r == spec_can_pair(*a, *b, ranked),
{
    if a.user_id == b.user_id {
        return false;
    }
    if !ranked {
        return true;
    }
    let band_a = current_band(a.waited_secs);
    let band_b = current_band(b.waited_secs);
    let band = if band_a >= band_b {
        band_a
    } else {
        band_b
    };
    let diff: i128 = (a.rating as i128) - (b.rating as i128);
    let dist: i128 = if diff >= 0 {
        diff
    } else {
        -diff
    };
    dist <= band as i128
}

/// Drops disconnected entries, and every entry of `uid` when given, keeping order.
fn drop_departed(queue: &mut Vec<QueueEntry>, uid: Option<&str>)
    ensures
        final(queue)@ == spec_still_waiting(
            old(queue)@,
            match uid {
                Some(u) => Some(u@),
                None => None,
            },
        ),
{
    let ghost orig = queue@;
    let ghost u = match uid {
        Some(u) => Some(u@),
        None => None::<Seq<char>>,
    };
    let mut i: usize = 0;
    let ghost mut k: int = 0;
    while i < queue.len()
        invariant
            0 <= k <= orig.len(),
            queue@ == spec_still_waiting(orig.take(k), u) + orig.skip(k),
            i == spec_still_waiting(orig.take(k), u).len(),
            u == match uid {
                Some(u) => Some(u@),
                None => None::<Seq<char>>,
            },
        decreases queue.len() - i,
    {
        proof {
            assert(orig.skip(k).len() > 0);
            assert(queue@[i as int] == orig[k]);
            assert(orig.take(k + 1).drop_last() =~= orig.take(k));
            assert(orig.take(k + 1).last() == orig[k]);
        }
        let keep = queue[i].connected && match uid {
            Some(u) => !queue[i].user_id.as_str().eq(u),
            None => true,
        };
        if keep {
            proof {
                assert(queue@ =~= spec_still_waiting(orig.take(k + 1), u) + orig.skip(k + 1));
            }
            i += 1;
        } else {
            queue.remove(i);
            proof {
                assert(queue@ =~= spec_still_waiting(orig.take(k + 1), u) + orig.skip(k + 1));
            }
        }
        proof {
            k = k + 1;
        }
    }
    proof {
        assert(orig.skip(k).len() == 0);
        assert(orig.take(k) =~= orig);
        assert(queue@ =~= spec_still_waiting(orig, u));
    }
}

/// Every entry that survives the filter came from the queue and is still waiting.
pub proof fn lemma_still_waiting_members(q: Seq<QueueEntry>, uid: Option<Seq<char>>)
    ensures
        forall|x: QueueEntry| #[trigger]
            spec_still_waiting(q, uid).contains(x) ==> q.contains(x) && keeps(x, uid),
    decreases q.len(),
{
    if q.len() > 0 {
        lemma_still_waiting_members(q.drop_last(), uid);
        assert forall|x: QueueEntry| #[trigger]
            spec_still_waiting(q, uid).contains(x) implies q.contains(x) && keeps(x, uid) by {
            let rest = spec_still_waiting(q.drop_last(), uid);
            if rest.contains(x) {
                let j = choose|j: int| 0 <= j < q.drop_last().len() && q.drop_last()[j] == x;
                assert(q[j] == x);
            } else {
                assert(x == q.last());
                assert(q[q.len() - 1] == x);
            }
        }
    }
}

/// The outcome of a join: with `waiting` the queue once closed connections and
/// the newcomer's earlier entries are gone, either the opponent is the first
/// waiting player who may be paired with the newcomer and has left the queue,
/// or nobody could be paired and the newcomer now waits at the back.
pub open spec fn spec_join_result(
    old_q: Seq<QueueEntry>,
    new_q: Seq<QueueEntry>,
    player: QueueEntry,
    ranked: bool,
    opponent: Option<QueueEntry>,
) -> bool {
    let waiting = spec_still_waiting(old_q, Some(player.user_id@));
    match opponent {
        Some(o) => exists|k: int|
            0 <= k < waiting.len() && #[trigger] waiting[k] == o && spec_can_pair(
                waiting[k],
                player,
                ranked,
            ) && (forall|j: int| 0 <= j < k ==> !spec_can_pair(waiting[j], player, ranked))
                && new_q == waiting.remove(k),
        None => (forall|j: int| 0 <= j < waiting.len() ==> !spec_can_pair(waiting[j], player, ranked))
            && new_q == waiting.push(player),
    }
}

/// A player joins a queue. Closed connections and any earlier entry of the
/// same user are dropped first; then the first waiting player who may be
/// paired with the newcomer is taken out and returned as the opponent, or,
/// when there is none, the newcomer is appended to the queue.
pub fn join(queue: &mut Vec<QueueEntry>, player: QueueEntry, ranked: bool) -> (opponent: Option<
    QueueEntry,
>)
    requires
        waits_ok(old(queue)@),
        player.waited_secs <= max_wait_secs(),
    ensures
        spec_join_result(old(queue)@, final(queue)@, player, ranked, opponent),
        waits_ok(final(queue)@),
{
    let ghost orig = old(queue)@;
    drop_departed(queue, Some(player.user_id.as_str()));
    let ghost waiting = queue@;
    assert(waiting == spec_still_waiting(orig, Some(player.user_id@)));
    proof {
        lemma_still_waiting_members(orig, Some(player.user_id@));
        assert forall|i: int| 0 <= i < waiting.len() implies (#[trigger] waiting[i]).waited_secs
            <= max_wait_secs() by {
            assert(waiting.contains(waiting[i]));
        }
    }
    let mut k: usize = 0;
    while k < queue.len()
        invariant
            queue@ == waiting,
            waiting == spec_still_waiting(orig, Some(player.user_id@)),
            orig == old(queue)@,
            k <= queue.len(),
            waits_ok(waiting),
            player.waited_secs <= max_wait_secs(),
            forall|j: int| 0 <= j < k ==> !spec_can_pair(waiting[j], player, ranked),
        decreases queue.len() - k,
    {
        if can_pair(&queue[k], &player, ranked) {
            let o = queue.remove(k);
            proof {
                lemma_remove_waits(waiting, k as int);
                assert(waiting[k as int] == o);
                assert(0 <= k < waiting.len() && waiting[k as int] == o && spec_can_pair(
                    waiting[k as int],
                    player,
                    ranked,
                ) && (forall|j: int| 0 <= j < k ==> !spec_can_pair(waiting[j], player, ranked))
                    && queue@ == waiting.remove(k as int));
            }
            return Some(o);
        }
        k += 1;
    }
    queue.push(player);
    proof {
        assert forall|i: int| 0 <= i < queue@.len() implies (#[trigger] queue@[i]).waited_secs
            <= max_wait_secs() by {
            if i < waiting.len() {
                assert(queue@[i] == waiting[i]);
            }
        }
    }
    None
}

/// Removing an entry keeps every remaining wait within bounds.
proof fn lemma_remove_waits(q: Seq<QueueEntry>, i: int)
    requires
        waits_ok(q),
        0 <= i < q.len(),
    ensures
        waits_ok(q.remove(i)),
{
    assert forall|k: int| 0 <= k < q.remove(i).len() implies (#[trigger] q.remove(i)[k]).waited_secs
        <= max_wait_secs() by {
        if k < i {
            assert(q.remove(i)[k] == q[k]);
        } else {
            assert(q.remove(i)[k] == q[k + 1]);
        }
    }
}

/// Index, in `s`, of the first entry that `p` may be paired with.
pub open spec fn first_partner(p: QueueEntry, s: Seq<QueueEntry>, ranked: bool) -> Option<int>
    decreases s.len(),
{
    if s.len() == 0 {
        None
    } else if spec_can_pair(p, s[0], ranked) {
        Some(0)
    } else {
        match first_partner(p, s.skip(1), ranked) {
            Some(k) => Some(k + 1),
            None => None,
        }
    }
}

/// The sweep, front to back: `kept` holds the players already passed over
/// (they stay, in order); the front player of `rest` is paired with the first
/// later player they may meet (both leave, and the pair is reported before
/// every later pair), or, when there is none, joins `kept`. Returns the
/// players left waiting and the pairs.
pub open spec fn spec_sweep_from(kept: Seq<QueueEntry>, rest: Seq<QueueEntry>, ranked: bool) -> (
    Seq<QueueEntry>,
    Seq<(QueueEntry, QueueEntry)>,
)
    decreases rest.len(),
{
    if rest.len() == 0 {
        (kept, Seq::empty())
    } else {
        let p = rest[0];
        let tail = rest.skip(1);
        match first_partner(p, tail, ranked) {
            Some(j) => if 0 <= j < tail.len() {
                let r = spec_sweep_from(kept, tail.remove(j), ranked);
                (r.0, seq![(p, tail[j])] + r.1)
            } else {
                spec_sweep_from(kept.push(p), tail, ranked)
            },
            None => spec_sweep_from(kept.push(p), tail, ranked),
        }
    }
}

/// The players left waiting and the pairs made by one sweep over `q`.
pub open spec fn spec_sweep(q: Seq<QueueEntry>, ranked: bool) -> (
    Seq<QueueEntry>,
    Seq<(QueueEntry, QueueEntry)>,
) {
    spec_sweep_from(Seq::empty(), q, ranked)
}

/// `first_partner` is the first index at which a partner stands.
proof fn lemma_first_partner(p: QueueEntry, s: Seq<QueueEntry>, ranked: bool, m: int)
    requires
        0 <= m <= s.len(),
        forall|k: int| 0 <= k < m ==> !spec_can_pair(p, #[trigger] s[k], ranked),
    ensures
        m < s.len() && spec_can_pair(p, s[m], ranked) ==> first_partner(p, s, ranked) == Some(m),
        m == s.len() ==> first_partner(p, s, ranked) is None,
    decreases s.len(),
{
    if s.len() > 0 && m > 0 {
        let t = s.skip(1);
        assert forall|k: int| 0 <= k < m - 1 implies !spec_can_pair(p, #[trigger] t[k], ranked) by {
            assert(t[k] == s[k + 1]);
        }
        lemma_first_partner(p, t, ranked, m - 1);
        if m < s.len() {
            assert(t[m - 1] == s[m]);
        }
        assert(!spec_can_pair(p, s[0], ranked));
    }
}

/// One sweep over a queue (run every two seconds, after bands have widened):
/// closed connections are dropped, then, front to back, each player is paired
/// with the first later player they may meet; both leave the queue and the
/// pair is reported (earlier player first); the players passed over keep
/// their order (`spec_sweep`). Afterwards no two players left waiting could be
/// paired, and every player that was still connected is either still waiting
/// or in exactly one reported pair.
pub fn sweep(queue: &mut Vec<QueueEntry>, ranked: bool) -> (pairs: Vec<(QueueEntry, QueueEntry)>)
    requires
        waits_ok(old(queue)@),
    ensures
        forall|k: int|
            0 <= k < pairs@.len() ==> spec_can_pair(#[trigger] pairs@[k].0, pairs@[k].1, ranked),
        no_pairable(final(queue)@, ranked),
        spec_still_waiting(old(queue)@, None).to_multiset()
            =~= final(queue)@.to_multiset().add(flatten_pairs(pairs@).to_multiset()),
        waits_ok(final(queue)@),
        final(queue)@ == spec_sweep(spec_still_waiting(old(queue)@, None), ranked).0,
        pairs@ == spec_sweep(spec_still_waiting(old(queue)@, None), ranked).1,
{
    let ghost orig = old(queue)@;
    drop_departed(queue, None);
    let ghost start = queue@;
    proof {
        lemma_still_waiting_members(orig, None);
        assert forall|i: int| 0 <= i < start.len() implies (#[trigger] start[i]).waited_secs
            <= max_wait_secs() by {
            assert(start.contains(start[i]));
        }
        assert(flatten_pairs(Seq::<(QueueEntry, QueueEntry)>::empty()) =~= Seq::<QueueEntry>::empty());
        assert(start.take(0) =~= Seq::<QueueEntry>::empty());
        assert(start.skip(0) =~= start);
        let r0 = spec_sweep_from(start.take(0), start.skip(0), ranked);
        assert(Seq::<(QueueEntry, QueueEntry)>::empty() + r0.1 =~= r0.1);
    }
    let mut pairs: Vec<(QueueEntry, QueueEntry)> = Vec::new();
    let mut i: usize = 0;
    while i < queue.len()
        invariant
            i <= queue.len(),
            waits_ok(queue@),
            forall|a: int, b: int|
                0 <= a < i && a < b < queue@.len() ==> !spec_can_pair(queue@[a], queue@[b], ranked),
            forall|k: int|
                0 <= k < pairs@.len() ==> spec_can_pair(#[trigger] pairs@[k].0, pairs@[k].1, ranked),
            start.to_multiset() =~= queue@.to_multiset().add(flatten_pairs(pairs@).to_multiset()),
            spec_sweep(start, ranked).0 == spec_sweep_from(queue@.take(i as int), queue@.skip(i as int), ranked).0,
            spec_sweep(start, ranked).1 == pairs@ + spec_sweep_from(queue@.take(i as int), queue@.skip(i as int), ranked).1,
        decreases queue.len() - i,
    {
        let mut j: usize = i + 1;
        let mut found = false;
        while !found && j < queue.len()
            invariant
                i < queue.len(),
                i + 1 <= j <= queue.len(),
                waits_ok(queue@),
                found ==> j < queue.len() && spec_can_pair(queue@[i as int], queue@[j as int], ranked),
                forall|m: int|
                    i < m < j ==> !spec_can_pair(queue@[i as int], #[trigger] queue@[m], ranked),
            decreases queue.len() - j, (if found { 0int } else { 1int }),
        {
            if can_pair(&queue[i], &queue[j], ranked) {
                found = true;
            } else {
                j += 1;
            }
        }
        if found {
            let ghost q0 = queue@;
            let ghost ps0 = pairs@;
            let p2 = queue.remove(j);
            let ghost q1 = queue@;
            let p1 = queue.remove(i);
            proof {
                assert(q1 == q0.remove(j as int));
                assert(queue@ == q1.remove(i as int));
                assert(q1[i as int] == q0[i as int]);
                lemma_remove_waits(q0, j as int);
                lemma_remove_waits(q1, i as int);
                assert forall|a: int, b: int|
                    0 <= a < i && a < b < queue@.len() implies !spec_can_pair(
                    queue@[a],
                    queue@[b],
                    ranked,
                ) by {
                    assert(queue@[a] == q0[a]);
                    if b < i {
                        assert(queue@[b] == q0[b]);
                    } else if b + 1 < j {
                        assert(queue@[b] == q0[b + 1]);
                    } else {
                        assert(queue@[b] == q0[b + 2]);
                    }
                }
            }
            pairs.push((p1, p2));
            proof {
                assert(pairs@ == ps0.push((p1, p2)));
                assert(pairs@.drop_last() =~= ps0);
                assert(flatten_pairs(pairs@) == flatten_pairs(ps0).push(p1).push(p2));
                assert(p1 == q0[i as int]);
                assert(p2 == q0[j as int]);
                let rest = q0.skip(i as int);
                let tail = rest.skip(1);
                let jj = j - i - 1;
                assert(rest[0] == p1);
                assert(tail[jj] == p2);
                assert forall|k: int| 0 <= k < jj implies !spec_can_pair(p1, #[trigger] tail[k], ranked) by {
                    assert(tail[k] == q0[i + 1 + k]);
                    assert(!spec_can_pair(q0[i as int], q0[i + 1 + k], ranked));
                }
                lemma_first_partner(p1, tail, ranked, jj);
                assert(queue@.take(i as int) =~= q0.take(i as int));
                assert(queue@.skip(i as int) =~= tail.remove(jj));
                let r = spec_sweep_from(q0.take(i as int), tail.remove(jj), ranked);
                assert(spec_sweep_from(q0.take(i as int), rest, ranked) == (r.0, seq![(p1, p2)] + r.1));
                assert(ps0 + (seq![(p1, p2)] + r.1) =~= pairs@ + r.1);
            }
        } else {
            proof {
                assert forall|a: int, b: int|
                    0 <= a < i + 1 && a < b < queue@.len() implies !spec_can_pair(
                    queue@[a],
                    queue@[b],
                    ranked,
                ) by {
                    if a == i {
                        assert(!spec_can_pair(queue@[i as int], queue@[b], ranked));
                    }
                }
                let q0 = queue@;
                let p = q0[i as int];
                let rest = q0.skip(i as int);
                let tail = rest.skip(1);
                assert(rest[0] == p);
                assert forall|k: int| 0 <= k < tail.len() implies !spec_can_pair(p, #[trigger] tail[k], ranked) by {
                    assert(tail[k] == q0[i + 1 + k]);
                }
                lemma_first_partner(p, tail, ranked, tail.len() as int);
                assert(q0.take(i + 1) =~= q0.take(i as int).push(p));
                assert(q0.skip(i + 1) =~= tail);
                assert(spec_sweep_from(q0.take(i as int), rest, ranked) == spec_sweep_from(
                    q0.take(i + 1),
                    q0.skip(i + 1),
                    ranked,
                ));
            }
            i += 1;
        }
    }
    proof {
        assert(queue@.skip(i as int) =~= Seq::<QueueEntry>::empty());
        assert(queue@.take(i as int) =~= queue@);
        assert(pairs@ + Seq::<(QueueEntry, QueueEntry)>::empty() =~= pairs@);
    }
    pairs
}

/// Dropping entries never creates a pairable couple.
pub proof fn lemma_still_waiting_no_pairable(q: Seq<QueueEntry>, uid: Option<Seq<char>>, ranked: bool)
    requires
        no_pairable(q, ranked),
    ensures
        no_pairable(spec_still_waiting(q, uid), ranked),
    decreases q.len(),
{
    if q.len() > 0 {
        let init = q.drop_last();
        assert(no_pairable(init, ranked)) by {
            assert forall|a: int, b: int| 0 <= a < b < init.len() implies !spec_can_pair(
                init[a],
                init[b],
                ranked,
            ) by {
                assert(init[a] == q[a] && init[b] == q[b]);
            }
        }
        lemma_still_waiting_no_pairable(init, uid, ranked);
        lemma_still_waiting_members(init, uid);
        let rest = spec_still_waiting(init, uid);
        if keeps(q.last(), uid) {
            let s = rest.push(q.last());
            assert forall|a: int, b: int| 0 <= a < b < s.len() implies !spec_can_pair(
                s[a],
                s[b],
                ranked,
            ) by {
                if b == s.len() - 1 {
                    assert(rest.contains(s[a]));
                    let j = choose|j: int| 0 <= j < init.len() && init[j] == s[a];
                    assert(q[j] == s[a]);
                    assert(!spec_can_pair(q[j], q[q.len() - 1], ranked));
                } else {
                    assert(s[a] == rest[a] && s[b] == rest[b]);
                }
            }
        }
    }
}

/// Joining never leaves two pairable players waiting: if no two players in the
/// queue could be paired before a join (at the same bands), none can after it.
pub proof fn lemma_join_keeps_no_pairable(
    old_q: Seq<QueueEntry>,
    new_q: Seq<QueueEntry>,
    player: QueueEntry,
    ranked: bool,
    opponent: Option<QueueEntry>,
)
    requires
        spec_join_result(old_q, new_q, player, ranked, opponent),
        no_pairable(old_q, ranked),
    ensures
        no_pairable(new_q, ranked),
{
    let waiting = spec_still_waiting(old_q, Some(player.user_id@));
    lemma_still_waiting_no_pairable(old_q, Some(player.user_id@), ranked);
    match opponent {
        Some(o) => {
            let k = choose|k: int|
                0 <= k < waiting.len() && #[trigger] waiting[k] == o && spec_can_pair(
                    waiting[k],
                    player,
                    ranked,
                ) && (forall|j: int| 0 <= j < k ==> !spec_can_pair(waiting[j], player, ranked))
                    && new_q == waiting.remove(k);
            assert forall|a: int, b: int| 0 <= a < b < new_q.len() implies !spec_can_pair(
                new_q[a],
                new_q[b],
                ranked,
            ) by {
                let a2 = if a < k { a } else { a + 1 };
                let b2 = if b < k { b } else { b + 1 };
                assert(new_q[a] == waiting[a2] && new_q[b] == waiting[b2]);
            }
        },
        None => {
            assert forall|a: int, b: int| 0 <= a < b < new_q.len() implies !spec_can_pair(
                new_q[a],
                new_q[b],
                ranked,
            ) by {
                if b == new_q.len() - 1 {
                    assert(new_q[a] == waiting[a]);
                    assert(!spec_can_pair(waiting[a], player, ranked));
                    lemma_can_pair_symmetric(waiting[a], player, ranked);
                } else {
                    assert(new_q[a] == waiting[a] && new_q[b] == waiting[b]);
                }
            }
        },
    }
}


pub open spec fn spec_without_user(q: Seq<QueueEntry>, uid: Seq<char>) -> Seq<QueueEntry>
    decreases q.len(),
{
    if q.len() == 0 {
        Seq::empty()
    } else if q.last().user_id@ == uid {
        spec_without_user(q.drop_last(), uid)
    } else {
        spec_without_user(q.drop_last(), uid).push(q.last())
    }
}

/// Removes every queued entry of `user_id` (a cancelled or repeated join);
/// the others keep their order.
pub fn leave(queue: &mut Vec<QueueEntry>, user_id: &str)
    ensures
        final(queue)@ == spec_without_user(old(queue)@, user_id@),
{
    let ghost orig = queue@;
    let mut kept: Vec<QueueEntry> = Vec::new();
    let mut rest: Vec<QueueEntry> = Vec::new();
    std::mem::swap(&mut rest, queue);
    let n = rest.len();
    let mut i: usize = 0;
    while i < n
        invariant
            n == orig.len(),
            i <= n,
            rest@ == orig.skip(i as int),
            kept@ == spec_without_user(orig.take(i as int), user_id@),
        decreases n - i,
    {
        let e = rest.remove(0);
        assert(e == orig[i as int]);
        assert(rest@ =~= orig.skip(i + 1));
        assert(orig.take(i + 1).drop_last() =~= orig.take(i as int));
        if !e.user_id.as_str().eq(user_id) {
            kept.push(e);
        }
        i += 1;
    }
    assert(orig.take(n as int) =~= orig);
    *queue = kept;
}

/// After `leave`, the user is no longer queued.
pub proof fn lemma_leave_removes_user(q: Seq<QueueEntry>, uid: Seq<char>)
    ensures
        forall|i: int|
            0 <= i < spec_without_user(q, uid).len() ==> (#[trigger] spec_without_user(q, uid)[i]).user_id@
                != uid,
    decreases q.len(),
{
    if q.len() > 0 {
        lemma_leave_removes_user(q.drop_last(), uid);
        let r = spec_without_user(q.drop_last(), uid);
        if q.last().user_id@ != uid {
            assert forall|i: int| 0 <= i < r.push(q.last()).len() implies (#[trigger] r.push(
                q.last(),
            )[i]).user_id@ != uid by {
                if i < r.len() {
                    assert(r.push(q.last())[i] == r[i]);
                }
            }
        }
    }
}

/// Ranked pairing by band: two different players may meet exactly when the
/// rating gap is within `200 + 25 * waited_secs` of at least one of them (the
/// wider band decides); casual pairing only needs two different players.
pub proof fn lemma_pairing_by_wider_band(a: QueueEntry, b: QueueEntry)
    ensures
        spec_can_pair(a, b, true) <==> (a.user_id@ != b.user_id@ && ((-(200 + 25 * a.waited_secs)
            <= a.rating - b.rating <= 200 + 25 * a.waited_secs) || (-(200 + 25 * b.waited_secs)
            <= a.rating - b.rating <= 200 + 25 * b.waited_secs))),
        spec_can_pair(a, b, false) <==> a.user_id@ != b.user_id@,
{
}

} // verus!
