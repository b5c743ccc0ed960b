use vstd::prelude::*;

verus! {

/// A number drawn from the half-open range `low..high`, through
/// `rand::random_range` on the thread-local generator.
/// Claimed: the result lies in the range. `random_range` asserts that the range
/// is not empty, so the range is required to be non-empty. Which number comes
/// out rests on chance and is not stated.
#[verifier::external_body]
fn random_range_i32(low: i32, high: i32) -> (r: i32)
    requires
        low < high,
    ensures
        low <= r < high,
{
    rand::random_range(low..high)
}

/// The integer state of one particle of the flow field. Its position and
/// velocity are floating point and are kept by the caller, who hands this
/// core the truncated position (`x as i32`, `y as i32`) after each move.
#[derive(Clone, Copy)]
pub struct Particle {
    /// Colour the particle is drawn in.
    pub color: (u8, u8, u8),
    /// `(domain, range)`: two half-open integer intervals. Spawns draw `y` from
    /// the first and `x` from the second; the liveness test holds the `x`
    /// coordinate against the first and the `y` coordinate against the second.
    pub space: ((i32, i32), (i32, i32)),
    /// Number of frames the particle lives before it is respawned.
    pub lifetime: i32,
    /// Frames since the last spawn.
    pub tick: i32,
}

impl Particle {
    /// Both intervals of `space` are non-empty, so the particle can respawn.
    pub open spec fn can_respawn(self) -> bool {
        &&& self.space.0.0 < self.space.0.1
        &&& self.space.1.0 < self.space.1.1
    }

    /// The state every particle of the field keeps between frames: it can
    /// respawn, its lifetime is at most `i32::MAX - 2` (as every lifetime that
    /// `new` draws is), and its tick has not run past the lifetime by more
    /// than one.
    pub open spec fn wf(self) -> bool {
        &&& self.can_respawn()
        &&& 0 <= self.lifetime < i32::MAX - 1
        &&& 0 <= self.tick <= self.lifetime + 1
    }

    /// `p = (x, y)` is a point a spawn can give: `x` in `space.1`, `y` in `space.0`.
    pub open spec fn spawns_at(self, p: (i32, i32)) -> bool {
        &&& self.space.1.0 <= p.0 < self.space.1.1
        &&& self.space.0.0 <= p.1 < self.space.0.1
    }

    /// The truncated position `cell` lies strictly inside the space:
    /// `cell.0` strictly inside `space.0`, `cell.1` strictly inside `space.1`.
    pub open spec fn inside(self, cell: (i32, i32)) -> bool {
        &&& self.space.0.0 < cell.0 < self.space.0.1
        &&& self.space.1.0 < cell.1 < self.space.1.1
    }

    /// The particle is still alive at `cell`: its tick is below its lifetime
    /// and it has not left the space.
    pub open spec fn alive(self, cell: (i32, i32)) -> bool {
        self.tick < self.lifetime && self.inside(cell)
    }

    /// The particle one frame older.
    pub open spec fn ticked(self) -> Particle {
        Particle { tick: (self.tick + 1) as i32, ..self }
    }

    /// The particle as a respawn leaves it: same colour, space and lifetime,
    /// tick back to zero.
    pub open spec fn reset(self) -> Particle {
        Particle { tick: 0, ..self }
    }

    /// `self`, spawned at `spawn`, is what `new(domain, range, lifetime)` can
    /// make: white, in `(domain, range)`, tick zero, a lifetime in
    /// `0..2 * lifetime`, and a spawn point of its space.
    pub open spec fn fresh_from(self, spawn: (i32, i32), domain: (i32, i32), range: (i32, i32), lifetime: i32) -> bool {
        &&& self.color == (255u8, 255u8, 255u8)
        &&& self.space == (domain, range)
        &&& self.tick == 0
        &&& 0 <= self.lifetime < 2 * lifetime
        &&& self.spawns_at(spawn)
    }

    /// A white particle in `(domain, range)` with a lifetime drawn from
    /// `0..2 * lifetime`. Returns the particle and its spawn point `(x, y)`,
    /// with `y` drawn from `domain` and `x` from `range`.
    pub fn new(domain: (i32, i32), range: (i32, i32), lifetime: i32) -> (res: (Particle, (i32, i32)))
        requires
            domain.0 < domain.1,
            range.0 < range.1,
            0 < lifetime <= i32::MAX / 2,
        ensures
            res.0.fresh_from(res.1, domain, range, lifetime),
            res.0.wf(),
    {
        let space = (domain, range);
        let y = random_range_i32(domain.0, domain.1);
        let x = random_range_i32(range.0, range.1);
        let lifetime = random_range_i32(0, lifetime * 2);
        let p = Particle { color: (255, 255, 255), space, lifetime, tick: 0 };
        (p, (x, y))
    }

    /// Ages the particle by one frame and says whether it is still alive at
    /// `cell`, its position after this frame's move, truncated to integers.
    pub fn update(&mut self, cell: (i32, i32)) -> (alive: bool)
        requires
            old(self).tick < i32::MAX,
        ensures
            *final(self) == old(self).ticked(),
            alive == final(self).alive(cell),
    {
        self.tick = self.tick + 1;
        self.tick < self.lifetime
            && cell.0 > self.space.0.0
            && cell.0 < self.space.0.1
            && cell.1 > self.space.1.0
            && cell.1 < self.space.1.1
    }

    /// Starts the particle over: tick back to zero, and a new spawn point
    /// `(x, y)` drawn with `y` from `space.0` and `x` from `space.1`. The
    /// caller puts the particle there and stops it.
    pub fn respawn(&mut self) -> (spawn: (i32, i32))
        requires
            old(self).can_respawn(),
        ensures
            *final(self) == old(self).reset(),
            final(self).spawns_at(spawn),
    {
        let y = random_range_i32(self.space.0.0, self.space.0.1);
        let x = random_range_i32(self.space.1.0, self.space.1.1);
        self.tick = 0;
        (x, y)
    }
}

/// A fresh field of `count` particles, each made as `Particle::new(domain,
/// range, lifetime)` makes one, each with its spawn point.
pub fn seed_field(count: usize, domain: (i32, i32), range: (i32, i32), lifetime: i32) -> (field: Vec<(Particle, (i32, i32))>)
    requires
        domain.0 < domain.1,
        range.0 < range.1,
        0 < lifetime <= i32::MAX / 2,
    ensures
        field@.len() == count,
        forall|i: int|
            0 <= i < count ==> (#[trigger] field@[i]).0.fresh_from(field@[i].1, domain, range, lifetime)
                && field@[i].0.wf(),
{
    let mut field: Vec<(Particle, (i32, i32))> = Vec::with_capacity(count);
    let mut n: usize = 0;
    while n < count
        invariant
            n <= count,
            field@.len() == n,
            domain.0 < domain.1,
            range.0 < range.1,
            0 < lifetime <= i32::MAX / 2,
            forall|i: int|
                0 <= i < n ==> (#[trigger] field@[i]).0.fresh_from(field@[i].1, domain, range, lifetime)
                    && field@[i].0.wf(),
        decreases count - n,
    {
        field.push(Particle::new(domain, range, lifetime));
        n = n + 1;
    }
    field
}

/// One frame of the field keeps a well-formed particle well formed: the
/// particle is aged; if it did not survive, it is respawned and aged again.
/// Each aging is allowed (the tick is below `i32::MAX`).
pub proof fn lemma_frame_keeps_particle_well_formed(p: Particle, cell: (i32, i32))
    requires
        p.wf(),
    ensures
        p.tick < i32::MAX,
        p.ticked().alive(cell) ==> p.ticked().wf(),
        !p.ticked().alive(cell) ==> {
            &&& p.ticked().reset().tick < i32::MAX
            &&& p.ticked().reset().can_respawn()
            &&& p.ticked().reset().ticked().wf()
        },
{
}

} // verus!
