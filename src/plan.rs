use vstd::prelude::*;

use crate::layout::{bulkhead_pillars, valid_pillar_count, RingLayout};

verus! {

/// How the physics engine treats a body.
#[derive(Debug, Clone, Copy, PartialEq, Eq, Structural)]
pub enum BodyKind {
    /// Never moves.
    Fixed,
    /// Fully simulated, with unit mass.
    Dynamic,
    /// Driven from outside, pushing dynamic bodies without feeling them.
    Kinematic,
}

/// The role of a body in the scene.
#[derive(Debug, Clone, Copy, PartialEq, Eq, Structural)]
pub enum Part {
    Ground,
    Pillar { index: usize },
    /// A beam resting on two neighbouring pillars.
    Bulkhead { first: usize, second: usize },
    Platform,
}

/// The collision shape attached to a body.
#[derive(Debug, Clone, Copy, PartialEq, Eq, Structural)]
pub enum Shape {
    /// A box of the ground's half-extents.
    GroundBox,
    /// A cylinder with slightly rounded edges.
    RoundCylinder,
    /// A box whose half-length is the ring's angular sector.
    BulkheadBox,
    /// A box of the platform's half-extents.
    PlatformBox,
}

/// One body to create.
#[derive(Debug, Clone, Copy, PartialEq, Eq, Structural)]
pub struct BodyPlan {
    pub part: Part,
    pub kind: BodyKind,
}

/// One collider to create, attached to the body at index `body` of the plan.
#[derive(Debug, Clone, Copy, PartialEq, Eq, Structural)]
pub struct ColliderPlan {
    pub body: usize,
    pub shape: Shape,
}

/// Everything a scene consists of, in the order of creation.
#[derive(Debug, Clone)]
pub struct ScenePlan {
    pub bodies: Vec<BodyPlan>,
    pub colliders: Vec<ColliderPlan>,
}

pub open spec fn kind_of(p: Part) -> BodyKind {
    match p {
        Part::Ground => BodyKind::Fixed,
        Part::Platform => BodyKind::Kinematic,
        _ => BodyKind::Dynamic,
    }
}

pub open spec fn shape_of(p: Part) -> Shape {
    match p {
        Part::Ground => Shape::GroundBox,
        Part::Pillar { .. } => Shape::RoundCylinder,
        Part::Bulkhead { .. } => Shape::BulkheadBox,
        Part::Platform => Shape::PlatformBox,
    }
}

pub open spec fn body_for(p: Part) -> BodyPlan {
    BodyPlan { part: p, kind: kind_of(p) }
}

/// The bodies of the first `i` pillars: each pillar, and after each odd one
/// the bulkhead joining it to the pillar before.
pub open spec fn ring_bodies(i: nat) -> Seq<BodyPlan>
    decreases i,
{
    if i == 0 {
        Seq::empty()
    } else {
        let j = (i - 1) as nat;
        let with_pillar = ring_bodies(j).push(body_for(Part::Pillar { index: j as usize }));
        if j % 2 == 1 {
            with_pillar.push(body_for(Part::Bulkhead { first: (j - 1) as usize, second: j as usize }))
        } else {
            with_pillar
        }
    }
}

/// The bodies of a scene with `n` pillars: the ground, the ring, the platform.
pub open spec fn scene_bodies(n: nat) -> Seq<BodyPlan> {
    seq![body_for(Part::Ground)] + ring_bodies(n) + seq![body_for(Part::Platform)]
}

/// Exactly one collider per body, the k-th on the k-th body, shaped after its part.
pub open spec fn colliders_match(bodies: Seq<BodyPlan>, colliders: Seq<ColliderPlan>) -> bool {
    &&& colliders.len() == bodies.len()
    &&& forall|k: int|
        0 <= k < colliders.len() ==> #[trigger] colliders[k].body as int == k
            && colliders[k].shape == shape_of(bodies[k].part)
}

/// How many items of `s` satisfy `p`.
pub open spec fn count_where<A>(s: Seq<A>, p: spec_fn(A) -> bool) -> nat
    decreases s.len(),
{
    if s.len() == 0 {
        0
    } else {
        count_where(s.drop_last(), p) + if p(s.last()) {
            1nat
        } else {
            0nat
        }
    }
}

pub open spec fn is_pillar() -> spec_fn(BodyPlan) -> bool {
    |b: BodyPlan| b.part is Pillar
}

pub open spec fn is_bulkhead() -> spec_fn(BodyPlan) -> bool {
    |b: BodyPlan| b.part is Bulkhead
}

pub open spec fn has_kind(k: BodyKind) -> spec_fn(BodyPlan) -> bool {
    |b: BodyPlan| b.kind == k
}

pub open spec fn attached_to(body: nat) -> spec_fn(ColliderPlan) -> bool {
    |c: ColliderPlan| c.body as nat == body
}

impl ScenePlan {
    pub open spec fn wf(self) -> bool {
        colliders_match(self.bodies@, self.colliders@)
    }

    /// Appends a body for `part` and the one collider that goes with it.
    fn add(&mut self, part: Part)
        requires
            old(self).wf(),
        ensures
            final(self).wf(),
            final(self).bodies@ == old(self).bodies@.push(body_for(part)),
    {
        let body = self.bodies.len();
        let kind = match part {
            Part::Ground => BodyKind::Fixed,
            Part::Platform => BodyKind::Kinematic,
            _ => BodyKind::Dynamic,
        };
        let shape = match part {
            Part::Ground => Shape::GroundBox,
            Part::Pillar { .. } => Shape::RoundCylinder,
            Part::Bulkhead { .. } => Shape::BulkheadBox,
            Part::Platform => Shape::PlatformBox,
        };
        self.bodies.push(BodyPlan { part, kind });
        self.colliders.push(ColliderPlan { body, shape });
    }

    /// The number of planned bodies of the given kind.
    pub fn count_kind(&self, kind: BodyKind) -> (r: usize)
        ensures
            r == count_where(self.bodies@, has_kind(kind)),
    {
        let mut r: usize = 0;
        let mut i: usize = 0;
        while i < self.bodies.len()
            invariant
                i <= self.bodies@.len(),
                r == count_where(self.bodies@.take(i as int), has_kind(kind)),
                r <= i,
            decreases self.bodies@.len() - i,
        {
            assert(self.bodies@.take(i + 1).drop_last() =~= self.bodies@.take(i as int));
            if self.bodies[i].kind == kind {
                r = r + 1;
            }
            i = i + 1;
        }
        assert(self.bodies@.take(i as int) =~= self.bodies@);
        r
    }

    /// The number of planned colliders attached to the body at index `body`.
    pub fn colliders_on(&self, body: usize) -> (r: usize)
        ensures
            r == count_where(self.colliders@, attached_to(body as nat)),
    {
        let mut r: usize = 0;
        let mut i: usize = 0;
        while i < self.colliders.len()
            invariant
                i <= self.colliders@.len(),
                r == count_where(self.colliders@.take(i as int), attached_to(body as nat)),
                r <= i,
            decreases self.colliders@.len() - i,
        {
            assert(self.colliders@.take(i + 1).drop_last() =~= self.colliders@.take(i as int));
            if self.colliders[i].body == body {
                r = r + 1;
            }
            i = i + 1;
        }
        assert(self.colliders@.take(i as int) =~= self.colliders@);
        r
    }
}

proof fn lemma_count_push<A>(s: Seq<A>, x: A, p: spec_fn(A) -> bool)
    ensures
        count_where(s.push(x), p) == count_where(s, p) + if p(x) {
            1nat
        } else {
            0nat
        },
{
    assert(s.push(x).drop_last() =~= s);
}

proof fn lemma_count_append<A>(a: Seq<A>, b: Seq<A>, p: spec_fn(A) -> bool)
    ensures
        count_where(a + b, p) == count_where(a, p) + count_where(b, p),
    decreases b.len(),
{
    if b.len() > 0 {
        lemma_count_append(a, b.drop_last(), p);
        assert((a + b).drop_last() =~= a + b.drop_last());
    } else {
        assert(a + b =~= a);
    }
}

proof fn lemma_ring_counts(i: nat)
    ensures
        count_where(ring_bodies(i), is_pillar()) == i,
        count_where(ring_bodies(i), is_bulkhead()) == i / 2,
        count_where(ring_bodies(i), has_kind(BodyKind::Dynamic)) == i + i / 2,
        count_where(ring_bodies(i), has_kind(BodyKind::Fixed)) == 0,
        count_where(ring_bodies(i), has_kind(BodyKind::Kinematic)) == 0,
    decreases i,
{
    if i > 0 {
        let j = (i - 1) as nat;
        lemma_ring_counts(j);
        let pillar = body_for(Part::Pillar { index: j as usize });
        let with_pillar = ring_bodies(j).push(pillar);
        lemma_count_push(ring_bodies(j), pillar, is_pillar());
        lemma_count_push(ring_bodies(j), pillar, is_bulkhead());
        lemma_count_push(ring_bodies(j), pillar, has_kind(BodyKind::Dynamic));
        lemma_count_push(ring_bodies(j), pillar, has_kind(BodyKind::Fixed));
        lemma_count_push(ring_bodies(j), pillar, has_kind(BodyKind::Kinematic));
        if j % 2 == 1 {
            let beam = body_for(Part::Bulkhead { first: (j - 1) as usize, second: j as usize });
            lemma_count_push(with_pillar, beam, is_pillar());
            lemma_count_push(with_pillar, beam, is_bulkhead());
            lemma_count_push(with_pillar, beam, has_kind(BodyKind::Dynamic));
            lemma_count_push(with_pillar, beam, has_kind(BodyKind::Fixed));
            lemma_count_push(with_pillar, beam, has_kind(BodyKind::Kinematic));
        }
    }
}

proof fn lemma_scene_count(n: nat, p: spec_fn(BodyPlan) -> bool)
    ensures
        count_where(scene_bodies(n), p) == count_where(ring_bodies(n), p) + (if p(
            body_for(Part::Ground),
        ) {
            1nat
        } else {
            0nat
        }) + (if p(body_for(Part::Platform)) {
            1nat
        } else {
            0nat
        }),
{
    let head = seq![body_for(Part::Ground)];
    lemma_count_append(head, ring_bodies(n), p);
    lemma_count_push(head + ring_bodies(n), body_for(Part::Platform), p);
    lemma_count_push(Seq::<BodyPlan>::empty(), body_for(Part::Ground), p);
    assert(Seq::<BodyPlan>::empty().push(body_for(Part::Ground)) =~= head);
    assert((head + ring_bodies(n)).push(body_for(Part::Platform)) =~= scene_bodies(n));
}

/// A ring of `n` pillars, `n` even and at least two, plans exactly `n`
/// pillars and `n / 2` bulkheads.
pub proof fn law_pillar_and_bulkhead_counts(n: nat)
    requires
        valid_pillar_count(n),
    ensures
        count_where(scene_bodies(n), is_pillar()) == n,
        count_where(scene_bodies(n), is_bulkhead()) == n / 2,
{
    lemma_ring_counts(n);
    lemma_scene_count(n, is_pillar());
    lemma_scene_count(n, is_bulkhead());
}

/// A scene with `n` pillars holds one fixed body (the ground), `n + n / 2`
/// dynamic bodies (pillars and bulkheads) and one kinematic body (the platform).
pub proof fn law_body_kinds(n: nat)
    requires
        valid_pillar_count(n),
    ensures
        count_where(scene_bodies(n), has_kind(BodyKind::Fixed)) == 1,
        count_where(scene_bodies(n), has_kind(BodyKind::Dynamic)) == n + n / 2,
        count_where(scene_bodies(n), has_kind(BodyKind::Kinematic)) == 1,
        scene_bodies(n).len() == n + n / 2 + 2,
{
    lemma_ring_counts(n);
    lemma_scene_count(n, has_kind(BodyKind::Fixed));
    lemma_scene_count(n, has_kind(BodyKind::Dynamic));
    lemma_scene_count(n, has_kind(BodyKind::Kinematic));
    lemma_ring_len(n);
}

proof fn lemma_ring_len(i: nat)
    ensures
        ring_bodies(i).len() == i + i / 2,
    decreases i,
{
    if i > 0 {
        lemma_ring_len((i - 1) as nat);
    }
}

proof fn lemma_attached_prefix(bodies: Seq<BodyPlan>, colliders: Seq<ColliderPlan>, body: nat, m: nat)
    requires
        colliders_match(bodies, colliders),
        m <= colliders.len(),
    ensures
        count_where(colliders.take(m as int), attached_to(body)) == if body < m {
            1nat
        } else {
            0nat
        },
    decreases m,
{
    if m == 0 {
        assert(colliders.take(0).len() == 0);
    } else {
        let k = (m - 1) as nat;
        lemma_attached_prefix(bodies, colliders, body, k);
        assert(colliders.take(m as int) =~= colliders.take(k as int).push(colliders[k as int]));
        lemma_count_push(colliders.take(k as int), colliders[k as int], attached_to(body));
        assert(colliders[k as int].body == k);
    }
}

/// Every body of a well-formed plan carries exactly one collider.
pub proof fn law_one_collider_per_body(plan: ScenePlan, body: nat)
    requires
        plan.wf(),
        body < plan.bodies@.len(),
    ensures
        count_where(plan.colliders@, attached_to(body)) == 1,
{
    lemma_attached_prefix(plan.bodies@, plan.colliders@, body, plan.colliders@.len());
    assert(plan.colliders@.take(plan.colliders@.len() as int) =~= plan.colliders@);
}

/// The bulkhead at index `k` of `s`, if it is one, joins pillars `i - 1`
/// and `i` for an odd `i` below `n`, and comes right after those two pillars.
pub open spec fn bulkhead_ok(s: Seq<BodyPlan>, k: int, n: nat) -> bool {
    s[k].part is Bulkhead ==> {
        let first = s[k].part->first;
        let second = s[k].part->second;
        &&& second % 2 == 1
        &&& first + 1 == second
        &&& second < n
        &&& k >= 2
        &&& s[k - 1] == body_for(Part::Pillar { index: second })
        &&& s[k - 2] == body_for(Part::Pillar { index: first })
    }
}

pub open spec fn bulkheads_join_neighbours(s: Seq<BodyPlan>, n: nat) -> bool {
    forall|k: int| 0 <= k < s.len() ==> #[trigger] bulkhead_ok(s, k, n)
}

proof fn lemma_ring_bulkheads(i: nat, n: nat)
    requires
        i <= n,
        n <= usize::MAX,
    ensures
        bulkheads_join_neighbours(ring_bodies(i), n),
        i > 0 && (i - 1) % 2 == 0 ==> ring_bodies(i).last() == body_for(
            Part::Pillar { index: (i - 1) as usize },
        ),
    decreases i,
{
    if i > 0 {
        let j = (i - 1) as nat;
        lemma_ring_bulkheads(j, n);
        let rj = ring_bodies(j);
        let pillar = body_for(Part::Pillar { index: j as usize });
        let with_pillar = rj.push(pillar);
        let ri = ring_bodies(i);
        assert forall|k: int| 0 <= k < ri.len() implies #[trigger] bulkhead_ok(ri, k, n) by {
            if k < rj.len() {
                assert(bulkhead_ok(rj, k, n));
                assert(ri[k] == rj[k]);
                if ri[k].part is Bulkhead {
                    assert(ri[k - 1] == rj[k - 1]);
                    assert(ri[k - 2] == rj[k - 2]);
                }
            } else if k == rj.len() {
                assert(ri[k] == pillar);
            } else {
                assert(j % 2 == 1);
                assert(k == rj.len() + 1);
                assert(ri[k - 1] == pillar);
                assert(ri[k - 2] == rj.last());
            }
        }
    }
}

/// In every scene each bulkhead joins two neighbouring pillars, an even one and
/// the odd one after it, and is planned right after them.
pub proof fn law_bulkheads_join_neighbours(n: nat)
    requires
        valid_pillar_count(n),
        n <= usize::MAX,
    ensures
        bulkheads_join_neighbours(scene_bodies(n), n),
{
    lemma_ring_bulkheads(n, n);
    let ring = ring_bodies(n);
    let s = scene_bodies(n);
    assert forall|k: int| 0 <= k < s.len() implies #[trigger] bulkhead_ok(s, k, n) by {
        if 1 <= k <= ring.len() {
            assert(s[k] == ring[k - 1]);
            assert(bulkhead_ok(ring, k - 1, n));
            if s[k].part is Bulkhead {
                assert(s[k - 1] == ring[k - 2]);
                assert(s[k - 2] == ring[k - 3]);
            }
        } else if k == 0 {
            assert(s[k] == body_for(Part::Ground));
        } else {
            assert(s[k] == body_for(Part::Platform));
        }
    }
}

/// Planning is a function of the layout alone: equal layouts give equal plans.
pub proof fn law_plan_is_deterministic(a: RingLayout, b: RingLayout)
    requires
        a == b,
    ensures
        scene_bodies(a.pillars()) == scene_bodies(b.pillars()),
{
}

/// Plans a scene: the ground, then each pillar in turn with a bulkhead after
/// every odd one, then the platform; one collider on each body.
pub fn plan_scene(layout: &RingLayout) -> (r: ScenePlan)
    requires
        layout.wf(),
    ensures
        r.bodies@ == scene_bodies(layout.pillars()),
        r.wf(),
{
    let n = layout.pillar_count();
    let mut plan = ScenePlan { bodies: Vec::new(), colliders: Vec::new() };
    plan.add(Part::Ground);
    let mut i: usize = 0;
    while i < n
        invariant
            i <= n,
            n == layout.pillars(),
            plan.wf(),
            plan.bodies@ == seq![body_for(Part::Ground)] + ring_bodies(i as nat),
        decreases n - i,
    {
        plan.add(Part::Pillar { index: i });
        match bulkhead_pillars(i) {
            Some((first, second)) => {
                plan.add(Part::Bulkhead { first, second });
            },
            None => {},
        }
        i = i + 1;
    }
    plan.add(Part::Platform);
    plan
}

} // verus!
