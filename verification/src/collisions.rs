//! The merge resolver: what the game does with one tick's collisions.
//!
//! The host physics engine delivers all collision-start events of a tick as
//! one batch.  Each event either is a merge — both endpoints resolve to live
//! objects, not yet consumed this batch, of the same non-terminal tier — or
//! it is skipped.  A merge despawns both endpoints and spawns one object of
//! the next tier at their midpoint.  A handle consumed by a merge counts as
//! dead for the rest of the batch, so no object is ever consumed twice in one
//! tick; with more than two mutually-touching objects, which pair merges is
//! decided by event order, an accepted nondeterminism of the host.

use vstd::prelude::*;

use crate::ball::GameObject;
use crate::geometry::midpoint;
use crate::geometry::spec_midpoint;
use crate::spawn::SpawnRequest;

verus! {

/// A collision-start notification from the physics engine: the colliders
/// with handles `a` and `b` began touching this tick.
#[derive(Clone, Copy, PartialEq, Eq, Structural, Debug)]
pub struct CollisionEvent {
    pub a: u64,
    pub b: u64,
}

/// The live object carrying handle `id`, if any: the first match in the
/// live-object list.  A handle that is no object at all — a wall, the floor,
/// the ceiling — resolves to nothing.
pub open spec fn find_live(objs: Seq<GameObject>, id: u64) -> Option<GameObject>
    decreases objs.len(),
{
    if objs.len() == 0 {
        None
    } else if objs[0].id == id {
        Some(objs[0])
    } else {
        find_live(objs.skip(1), id)
    }
}

/// The pair of objects an event merges, if it merges any: both endpoints
/// must be distinct live objects, neither already consumed this batch, of
/// the same tier, and that tier must not be the terminal one.
pub open spec fn merge_pair(
    objs: Seq<GameObject>,
    consumed: Set<u64>,
    ev: CollisionEvent,
    tier_count: usize,
) -> Option<(GameObject, GameObject)> {
    if ev.a != ev.b && !consumed.contains(ev.a) && !consumed.contains(ev.b) {
        match (find_live(objs, ev.a), find_live(objs, ev.b)) {
            (Some(oa), Some(ob)) => if oa.tier == ob.tier && oa.tier + 1 < tier_count {
                Some((oa, ob))
            } else {
                None
            },
            _ => None,
        }
    } else {
        None
    }
}

/// The spawn a merge of `oa` with `ob` requests: one object of the next
/// tier, at the exact midpoint of the two inputs.
pub open spec fn merge_spawn(oa: GameObject, ob: GameObject) -> SpawnRequest {
    SpawnRequest { tier: (oa.tier + 1) as usize, position: spec_midpoint(oa.position, ob.position) }
}

/// The despawn requests a batch produces, processing events in order and
/// threading the set of handles already consumed.
pub open spec fn batch_despawns(
    objs: Seq<GameObject>,
    tier_count: usize,
    events: Seq<CollisionEvent>,
    consumed: Set<u64>,
) -> Seq<u64>
    decreases events.len(),
{
    if events.len() == 0 {
        Seq::empty()
    } else {
        let ev = events[0];
        match merge_pair(objs, consumed, ev, tier_count) {
            Some(pair) => seq![ev.a, ev.b] + batch_despawns(
                objs,
                tier_count,
                events.skip(1),
                consumed.insert(ev.a).insert(ev.b),
            ),
            None => batch_despawns(objs, tier_count, events.skip(1), consumed),
        }
    }
}

/// The spawn requests a batch produces, one per merge, in event order.
pub open spec fn batch_spawns(
    objs: Seq<GameObject>,
    tier_count: usize,
    events: Seq<CollisionEvent>,
    consumed: Set<u64>,
) -> Seq<SpawnRequest>
    decreases events.len(),
{
    if events.len() == 0 {
        Seq::empty()
    } else {
        let ev = events[0];
        match merge_pair(objs, consumed, ev, tier_count) {
            Some(pair) => seq![merge_spawn(pair.0, pair.1)] + batch_spawns(
                objs,
                tier_count,
                events.skip(1),
                consumed.insert(ev.a).insert(ev.b),
            ),
            None => batch_spawns(objs, tier_count, events.skip(1), consumed),
        }
    }
}

/// The set of handles consumed after a batch: the initial set plus both
/// endpoints of every merge.
pub open spec fn batch_consumed(
    objs: Seq<GameObject>,
    tier_count: usize,
    events: Seq<CollisionEvent>,
    consumed: Set<u64>,
) -> Set<u64>
    decreases events.len(),
{
    if events.len() == 0 {
        consumed
    } else {
        let ev = events[0];
        match merge_pair(objs, consumed, ev, tier_count) {
            Some(pair) => batch_consumed(
                objs,
                tier_count,
                events.skip(1),
                consumed.insert(ev.a).insert(ev.b),
            ),
            None => batch_consumed(objs, tier_count, events.skip(1), consumed),
        }
    }
}

/// Appending one event to a batch extends its outputs by exactly that
/// event's own contribution, decided against the handles the batch has
/// already consumed.
proof fn lemma_batch_snoc(
    objs: Seq<GameObject>,
    tier_count: usize,
    events: Seq<CollisionEvent>,
    consumed: Set<u64>,
    ev: CollisionEvent,
)
    ensures
        merge_pair(objs, batch_consumed(objs, tier_count, events, consumed), ev, tier_count)
            is None ==> {
            &&& batch_despawns(objs, tier_count, events.push(ev), consumed) == batch_despawns(
                objs,
                tier_count,
                events,
                consumed,
            )
            &&& batch_spawns(objs, tier_count, events.push(ev), consumed) == batch_spawns(
                objs,
                tier_count,
                events,
                consumed,
            )
            &&& batch_consumed(objs, tier_count, events.push(ev), consumed) == batch_consumed(
                objs,
                tier_count,
                events,
                consumed,
            )
        },
        merge_pair(objs, batch_consumed(objs, tier_count, events, consumed), ev, tier_count)
            matches Some(pair) ==> {
            &&& batch_despawns(objs, tier_count, events.push(ev), consumed) == batch_despawns(
                objs,
                tier_count,
                events,
                consumed,
            ).push(ev.a).push(ev.b)
            &&& batch_spawns(objs, tier_count, events.push(ev), consumed) == batch_spawns(
                objs,
                tier_count,
                events,
                consumed,
            ).push(merge_spawn(pair.0, pair.1))
            &&& batch_consumed(objs, tier_count, events.push(ev), consumed) == batch_consumed(
                objs,
                tier_count,
                events,
                consumed,
            ).insert(ev.a).insert(ev.b)
        },
    decreases events.len(),
{
    if events.len() == 0 {
        assert(events.push(ev)[0] == ev);
        assert(events.push(ev).skip(1) =~= events);
        if merge_pair(objs, consumed, ev, tier_count) is Some {
            let cafter = consumed.insert(ev.a).insert(ev.b);
            assert(batch_despawns(objs, tier_count, events, cafter) == Seq::<u64>::empty());
            assert(batch_spawns(objs, tier_count, events, cafter) == Seq::<
                SpawnRequest,
            >::empty());
            assert(batch_consumed(objs, tier_count, events, cafter) == cafter);
            assert(batch_despawns(objs, tier_count, events.push(ev), consumed) =~= batch_despawns(
                objs,
                tier_count,
                events,
                consumed,
            ).push(ev.a).push(ev.b));
            assert(batch_spawns(objs, tier_count, events.push(ev), consumed) =~= batch_spawns(
                objs,
                tier_count,
                events,
                consumed,
            ).push(
                merge_spawn(
                    merge_pair(objs, consumed, ev, tier_count)->Some_0.0,
                    merge_pair(objs, consumed, ev, tier_count)->Some_0.1,
                ),
            ));
        }
    } else {
        let e0 = events[0];
        let tail = events.skip(1);
        let cfin = batch_consumed(objs, tier_count, events, consumed);
        assert(events.push(ev)[0] == e0);
        assert(events.push(ev).skip(1) =~= tail.push(ev));
        match merge_pair(objs, consumed, e0, tier_count) {
            Some(p0) => {
                let c2 = consumed.insert(e0.a).insert(e0.b);
                assert(batch_despawns(objs, tier_count, events, consumed) == seq![e0.a, e0.b]
                    + batch_despawns(objs, tier_count, tail, c2));
                assert(batch_spawns(objs, tier_count, events, consumed) == seq![
                    merge_spawn(p0.0, p0.1),
                ] + batch_spawns(objs, tier_count, tail, c2));
                assert(cfin == batch_consumed(objs, tier_count, tail, c2));
                assert(batch_despawns(objs, tier_count, events.push(ev), consumed) == seq![
                    e0.a,
                    e0.b,
                ] + batch_despawns(objs, tier_count, tail.push(ev), c2));
                assert(batch_spawns(objs, tier_count, events.push(ev), consumed) == seq![
                    merge_spawn(p0.0, p0.1),
                ] + batch_spawns(objs, tier_count, tail.push(ev), c2));
                assert(batch_consumed(objs, tier_count, events.push(ev), consumed)
                    == batch_consumed(objs, tier_count, tail.push(ev), c2));
                lemma_batch_snoc(objs, tier_count, tail, c2, ev);
                if merge_pair(objs, cfin, ev, tier_count) is Some {
                    let p = merge_pair(objs, cfin, ev, tier_count)->Some_0;
                    assert(batch_despawns(objs, tier_count, events.push(ev), consumed)
                        =~= batch_despawns(objs, tier_count, events, consumed).push(ev.a).push(
                        ev.b,
                    ));
                    assert(batch_spawns(objs, tier_count, events.push(ev), consumed)
                        =~= batch_spawns(objs, tier_count, events, consumed).push(
                        merge_spawn(p.0, p.1),
                    ));
                    assert(batch_consumed(objs, tier_count, events.push(ev), consumed)
                        =~= batch_consumed(objs, tier_count, events, consumed).insert(ev.a).insert(
                        ev.b,
                    ));
                }
            },
            None => {
                assert(batch_despawns(objs, tier_count, events, consumed) == batch_despawns(
                    objs,
                    tier_count,
                    tail,
                    consumed,
                ));
                assert(batch_spawns(objs, tier_count, events, consumed) == batch_spawns(
                    objs,
                    tier_count,
                    tail,
                    consumed,
                ));
                assert(cfin == batch_consumed(objs, tier_count, tail, consumed));
                assert(batch_despawns(objs, tier_count, events.push(ev), consumed)
                    == batch_despawns(objs, tier_count, tail.push(ev), consumed));
                assert(batch_spawns(objs, tier_count, events.push(ev), consumed) == batch_spawns(
                    objs,
                    tier_count,
                    tail.push(ev),
                    consumed,
                ));
                assert(batch_consumed(objs, tier_count, events.push(ev), consumed)
                    == batch_consumed(objs, tier_count, tail.push(ev), consumed));
                lemma_batch_snoc(objs, tier_count, tail, consumed, ev);
            },
        }
    }
}

/// What one merge owes its outputs: spawn `j` of a batch consumes the
/// despawn handles at `2j` and `2j + 1`, which resolve to two live objects
/// of one non-terminal tier; the spawned tier is theirs plus one, still a
/// tier, and the spawned position is exactly their midpoint.
pub open spec fn merge_output_ok(
    objs: Seq<GameObject>,
    tier_count: usize,
    despawns: Seq<u64>,
    spawns: Seq<SpawnRequest>,
    j: int,
) -> bool {
    &&& find_live(objs, despawns[2 * j]) is Some
    &&& find_live(objs, despawns[2 * j + 1]) is Some
    &&& {
        let oa = find_live(objs, despawns[2 * j])->Some_0;
        let ob = find_live(objs, despawns[2 * j + 1])->Some_0;
        &&& oa.tier == ob.tier
        &&& oa.tier + 1 < tier_count
        &&& spawns[j].tier == oa.tier + 1
        &&& spawns[j].tier < tier_count
        &&& spawns[j].position == spec_midpoint(oa.position, ob.position)
    }
}

/// Law (tier monotonicity, conservation at merge): every batch pairs its
/// despawn list two-to-one with its spawn list, and each spawn is the
/// next-tier, midpoint fusion of the two live objects it consumed.
pub proof fn lemma_merge_outputs(
    objs: Seq<GameObject>,
    tier_count: usize,
    events: Seq<CollisionEvent>,
    consumed: Set<u64>,
)
    ensures
        batch_despawns(objs, tier_count, events, consumed).len() == 2 * batch_spawns(
            objs,
            tier_count,
            events,
            consumed,
        ).len(),
        forall|j: int|
            0 <= j < batch_spawns(objs, tier_count, events, consumed).len()
                ==> #[trigger] merge_output_ok(
                objs,
                tier_count,
                batch_despawns(objs, tier_count, events, consumed),
                batch_spawns(objs, tier_count, events, consumed),
                j,
            ),
    decreases events.len(),
{
    if events.len() == 0 {
    } else {
        let ev = events[0];
        let d = batch_despawns(objs, tier_count, events, consumed);
        let s = batch_spawns(objs, tier_count, events, consumed);
        match merge_pair(objs, consumed, ev, tier_count) {
            Some(p) => {
                let c2 = consumed.insert(ev.a).insert(ev.b);
                let d2 = batch_despawns(objs, tier_count, events.skip(1), c2);
                let s2 = batch_spawns(objs, tier_count, events.skip(1), c2);
                lemma_merge_outputs(objs, tier_count, events.skip(1), c2);
                assert(d == seq![ev.a, ev.b] + d2);
                assert(s == seq![merge_spawn(p.0, p.1)] + s2);
                assert forall|j: int| 0 <= j < s.len() implies #[trigger] merge_output_ok(
                    objs,
                    tier_count,
                    d,
                    s,
                    j,
                ) by {
                    if j == 0 {
                        assert(d[0] == ev.a);
                        assert(d[1] == ev.b);
                        assert(find_live(objs, ev.a) == Some(p.0));
                        assert(find_live(objs, ev.b) == Some(p.1));
                        assert(s[0] == merge_spawn(p.0, p.1));
                    } else {
                        assert(merge_output_ok(objs, tier_count, d2, s2, j - 1));
                        assert(d[2 * j] == d2[2 * (j - 1)]);
                        assert(d[2 * j + 1] == d2[2 * (j - 1) + 1]);
                        assert(s[j] == s2[j - 1]);
                    }
                }
            },
            None => {
                lemma_merge_outputs(objs, tier_count, events.skip(1), consumed);
            },
        }
    }
}

/// Law (at-most-once consumption): no handle appears twice among one
/// batch's despawn requests, nor at all if it already counted as consumed
/// when the batch began.
pub proof fn lemma_despawn_at_most_once(
    objs: Seq<GameObject>,
    tier_count: usize,
    events: Seq<CollisionEvent>,
    consumed: Set<u64>,
)
    ensures
        forall|k: int|
            0 <= k < batch_despawns(objs, tier_count, events, consumed).len()
                ==> !consumed.contains(
                #[trigger] batch_despawns(objs, tier_count, events, consumed)[k],
            ),
        forall|j: int, k: int|
            0 <= j < k < batch_despawns(objs, tier_count, events, consumed).len()
                ==> batch_despawns(objs, tier_count, events, consumed)[j] != batch_despawns(
                objs,
                tier_count,
                events,
                consumed,
            )[k],
    decreases events.len(),
{
    if events.len() == 0 {
        assert(batch_despawns(objs, tier_count, events, consumed) == Seq::<u64>::empty());
    } else {
        let ev = events[0];
        let d = batch_despawns(objs, tier_count, events, consumed);
        match merge_pair(objs, consumed, ev, tier_count) {
            Some(p) => {
                let c2 = consumed.insert(ev.a).insert(ev.b);
                let d2 = batch_despawns(objs, tier_count, events.skip(1), c2);
                lemma_despawn_at_most_once(objs, tier_count, events.skip(1), c2);
                assert(d == seq![ev.a, ev.b] + d2);
                assert(d[0] == ev.a);
                assert(d[1] == ev.b);
                assert forall|k: int| 0 <= k < d.len() implies !consumed.contains(
                    #[trigger] d[k],
                ) by {
                    if k >= 2 {
                        assert(d[k] == d2[k - 2]);
                        assert(!c2.contains(d2[k - 2]));
                    }
                }
                assert forall|j: int, k: int| 0 <= j < k < d.len() implies d[j] != d[k] by {
                    if k >= 2 {
                        assert(d[k] == d2[k - 2]);
                        assert(!c2.contains(d2[k - 2]));
                        if j >= 2 {
                            assert(d[j] == d2[j - 2]);
                        }
                    }
                }
            },
            None => {
                assert(d == batch_despawns(objs, tier_count, events.skip(1), consumed));
                lemma_despawn_at_most_once(objs, tier_count, events.skip(1), consumed);
            },
        }
    }
}

/// Law (terminal-tier stability): an object standing at the terminal tier
/// is never consumed — its handle appears in no despawn request of any
/// batch, whatever the events.
pub proof fn lemma_terminal_never_despawned(
    objs: Seq<GameObject>,
    tier_count: usize,
    events: Seq<CollisionEvent>,
    consumed: Set<u64>,
    h: u64,
)
    requires
        find_live(objs, h) matches Some(o) && o.tier + 1 >= tier_count,
    ensures
        !batch_despawns(objs, tier_count, events, consumed).contains(h),
    decreases events.len(),
{
    if events.len() == 0 {
    } else {
        let ev = events[0];
        let d = batch_despawns(objs, tier_count, events, consumed);
        match merge_pair(objs, consumed, ev, tier_count) {
            Some(p) => {
                let c2 = consumed.insert(ev.a).insert(ev.b);
                let d2 = batch_despawns(objs, tier_count, events.skip(1), c2);
                lemma_terminal_never_despawned(objs, tier_count, events.skip(1), c2, h);
                assert(d == seq![ev.a, ev.b] + d2);
                if d.contains(h) {
                    let k = choose|k: int| 0 <= k < d.len() && d[k] == h;
                    if k == 0 {
                        assert(h == ev.a);
                        assert(find_live(objs, ev.a) == Some(p.0));
                    } else if k == 1 {
                        assert(h == ev.b);
                        assert(find_live(objs, ev.b) == Some(p.1));
                    } else {
                        assert(d2[k - 2] == h);
                        assert(d2.contains(h));
                    }
                    assert(false);
                }
            },
            None => {
                lemma_terminal_never_despawned(objs, tier_count, events.skip(1), consumed, h);
            },
        }
    }
}

/// Law (different-tier non-interaction): a collision of two live objects of
/// different tiers is never a merge; it contributes no despawn and no spawn.
pub proof fn lemma_different_tier_no_merge(
    objs: Seq<GameObject>,
    consumed: Set<u64>,
    ev: CollisionEvent,
    tier_count: usize,
)
    requires
        find_live(objs, ev.a) matches Some(oa) && find_live(objs, ev.b) matches Some(ob)
            && oa.tier != ob.tier,
    ensures
        merge_pair(objs, consumed, ev, tier_count) is None,
{
}

/// Law (terminal-tier stability, per event): a collision whose endpoints
/// stand at the terminal tier is never a merge; the objects bounce per
/// normal physics and nothing despawns or spawns.
pub proof fn lemma_terminal_tier_no_merge(
    objs: Seq<GameObject>,
    consumed: Set<u64>,
    ev: CollisionEvent,
    tier_count: usize,
)
    requires
        find_live(objs, ev.a) matches Some(oa) && oa.tier + 1 >= tier_count,
    ensures
        merge_pair(objs, consumed, ev, tier_count) is None,
{
}

/// Scan the live-object list for a handle; the executable face of
/// `find_live`.
fn lookup(objs: &Vec<GameObject>, id: u64) -> (r: Option<GameObject>)
    ensures
        r == find_live(objs@, id),
{
    let n = objs.len();
    let mut i: usize = 0;
    proof {
        assert(objs@.skip(0) =~= objs@);
    }
    while i < n
        invariant
            0 <= i <= n,
            n == objs@.len(),
            find_live(objs@, id) == find_live(objs@.skip(i as int), id),
        decreases n - i,
    {
        if objs[i].id == id {
            assert(objs@.skip(i as int)[0] == objs@[i as int]);
            return Some(objs[i]);
        }
        proof {
            assert(objs@.skip(i as int)[0] == objs@[i as int]);
            assert(objs@.skip(i as int).skip(1) =~= objs@.skip(i as int + 1));
        }
        i += 1;
    }
    None
}

/// Whether `id` occurs in `ids`.
fn contains_id(ids: &Vec<u64>, id: u64) -> (r: bool)
    ensures
        r == ids@.contains(id),
{
    let n = ids.len();
    let mut i: usize = 0;
    while i < n
        invariant
            0 <= i <= n,
            n == ids@.len(),
            forall|k: int| 0 <= k < i ==> ids@[k] != id,
        decreases n - i,
    {
        if ids[i] == id {
            return true;
        }
        i += 1;
    }
    false
}

/// Resolve one tick's batch of collision-start events: the despawn requests
/// (both endpoints of every merge, in order) and the spawn requests (one
/// next-tier object per merge, at the consumed pair's midpoint).
///
/// `objs` is the live-object list at the start of the tick — the physics
/// engine applies no despawn before the batch ends — and `tier_count` is N,
/// the number of tiers.
pub fn on_collisions_started(
    objs: &Vec<GameObject>,
    tier_count: usize,
    events: &Vec<CollisionEvent>,
) -> (r: (Vec<u64>, Vec<SpawnRequest>))
    ensures
        r.0@ == batch_despawns(objs@, tier_count, events@, Set::empty()),
        r.1@ == batch_spawns(objs@, tier_count, events@, Set::empty()),
{
    let mut despawn: Vec<u64> = Vec::new();
    let mut spawn: Vec<SpawnRequest> = Vec::new();
    let ghost mut cset: Set<u64> = Set::empty();
    let n = events.len();
    let mut i: usize = 0;
    proof {
        assert(events@.take(0) =~= Seq::<CollisionEvent>::empty());
    }
    while i < n
        invariant
            0 <= i <= n,
            n == events@.len(),
            despawn@ == batch_despawns(objs@, tier_count, events@.take(i as int), Set::empty()),
            spawn@ == batch_spawns(objs@, tier_count, events@.take(i as int), Set::empty()),
            cset == batch_consumed(objs@, tier_count, events@.take(i as int), Set::empty()),
            forall|h: u64| #[trigger] despawn@.contains(h) <==> cset.contains(h),
        decreases n - i,
    {
        let ev = events[i];
        proof {
            lemma_batch_snoc(objs@, tier_count, events@.take(i as int), Set::empty(), ev);
            assert(events@.take(i as int + 1) =~= events@.take(i as int).push(ev));
        }
        if ev.a != ev.b && !contains_id(&despawn, ev.a) && !contains_id(&despawn, ev.b) {
            let oa_opt = lookup(objs, ev.a);
            let ob_opt = lookup(objs, ev.b);
            match (oa_opt, ob_opt) {
                (Some(oa), Some(ob)) => {
                    if oa.tier == ob.tier && tier_count >= 1 && oa.tier < tier_count - 1 {
                        let ghost d0 = despawn@;
                        let ghost c0 = cset;
                        despawn.push(ev.a);
                        despawn.push(ev.b);
                        spawn.push(
                            SpawnRequest {
                                tier: oa.tier + 1,
                                position: midpoint(oa.position, ob.position),
                            },
                        );
                        proof {
                            cset = cset.insert(ev.a).insert(ev.b);
                            assert(despawn@ == d0.push(ev.a).push(ev.b));
                            assert forall|h: u64| #[trigger] despawn@.contains(h)
                                <==> cset.contains(h) by {
                                if despawn@.contains(h) {
                                    let j = choose|j: int|
                                        0 <= j < despawn@.len() && despawn@[j] == h;
                                    if j < d0.len() {
                                        assert(d0[j] == h);
                                        assert(d0.contains(h));
                                    } else if j == d0.len() {
                                        assert(h == ev.a);
                                    } else {
                                        assert(h == ev.b);
                                    }
                                }
                                if cset.contains(h) {
                                    if h == ev.a {
                                        assert(despawn@[d0.len() as int] == h);
                                        assert(despawn@.contains(h));
                                    } else if h == ev.b {
                                        assert(despawn@[d0.len() as int + 1] == h);
                                        assert(despawn@.contains(h));
                                    } else {
                                        assert(c0.contains(h));
                                        assert(d0.contains(h));
                                        let j = choose|j: int| 0 <= j < d0.len() && d0[j] == h;
                                        assert(despawn@[j] == h);
                                        assert(despawn@.contains(h));
                                    }
                                }
                            }
                        }
                    }
                },
                _ => {},
            }
        }
        i += 1;
    }
    proof {
        assert(events@.take(n as int) =~= events@);
    }
    (despawn, spawn)
}

} // verus!
