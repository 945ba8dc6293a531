//! Checkpoints, spawners and level outlines: the bookkeeping the cutscene
//! teleports and the save data lean on. Level streaming itself is the
//! outside collaborator's job; this module only answers which level or
//! spawner a given id or position names.

use vstd::prelude::*;

verus! {

/// Coordinates are milli-pixels and stay below this bound so rectangle
/// arithmetic is exact.
pub const COORD_BOUND: i64 = 1000000000000;

/// A level's placement in the world: origin, extent (the vertical extent
/// is negative, the world grows downward), and the level's id.
pub struct LevelOutline {
    pub pos: (i64, i64),
    pub size: (i64, i64),
    pub iid: String,
}

pub open spec fn wf_outline(l: LevelOutline) -> bool {
    &&& -COORD_BOUND <= l.pos.0 <= COORD_BOUND
    &&& -COORD_BOUND <= l.pos.1 <= COORD_BOUND
    &&& -COORD_BOUND <= l.size.0 <= COORD_BOUND
    &&& -COORD_BOUND <= l.size.1 <= COORD_BOUND
}

/// Whether the point lies in the rectangle spanned by the outline's two
/// corners, whichever way the extent points.
pub open spec fn outline_contains(l: LevelOutline, p: (i64, i64)) -> bool {
    let x1 = l.pos.0 as int;
    let x2 = l.pos.0 + l.size.0;
    let y1 = l.pos.1 as int;
    let y2 = l.pos.1 + l.size.1;
    let xmin = if x1 <= x2 { x1 } else { x2 };
    let xmax = if x1 <= x2 { x2 } else { x1 };
    let ymin = if y1 <= y2 { y1 } else { y2 };
    let ymax = if y1 <= y2 { y2 } else { y1 };
    xmin <= p.0 <= xmax && ymin <= p.1 <= ymax
}

impl LevelOutline {
    /// Point-in-level test.
    pub fn contains(&self, p: (i64, i64)) -> (r: bool)
        requires
            wf_outline(*self),
        ensures
            r == outline_contains(*self, p),
    {
        let x2: i64 = self.pos.0 + self.size.0;
        let y2: i64 = self.pos.1 + self.size.1;
        let xmin = if self.pos.0 <= x2 { self.pos.0 } else { x2 };
        let xmax = if self.pos.0 <= x2 { x2 } else { self.pos.0 };
        let ymin = if self.pos.1 <= y2 { self.pos.1 } else { y2 };
        let ymax = if self.pos.1 <= y2 { y2 } else { self.pos.1 };
        xmin <= p.0 && p.0 <= xmax && ymin <= p.1 && p.1 <= ymax
    }
}

/// A player spawner: its authored id, its instance id, and the level it
/// stands in.
pub struct SpawnerInfo {
    pub id: String,
    pub iid: String,
    pub level_iid: String,
}

/// The first spawner with this authored id.
pub open spec fn find_spawner_by_id(ss: Seq<SpawnerInfo>, id: Seq<char>) -> Option<int>
    decreases ss.len(),
{
    if ss.len() == 0 {
        None
    } else if ss[0].id@ == id {
        Some(0int)
    } else {
        match find_spawner_by_id(ss.skip(1), id) {
            Some(j) => Some(j + 1),
            None => None,
        }
    }
}

/// The first spawner with this instance id.
pub open spec fn find_spawner_by_iid(ss: Seq<SpawnerInfo>, iid: Seq<char>) -> Option<int>
    decreases ss.len(),
{
    if ss.len() == 0 {
        None
    } else if ss[0].iid@ == iid {
        Some(0int)
    } else {
        match find_spawner_by_iid(ss.skip(1), iid) {
            Some(j) => Some(j + 1),
            None => None,
        }
    }
}

/// The first level outline with this id.
pub open spec fn find_level(ls: Seq<LevelOutline>, iid: Seq<char>) -> Option<int>
    decreases ls.len(),
{
    if ls.len() == 0 {
        None
    } else if ls[0].iid@ == iid {
        Some(0int)
    } else {
        match find_level(ls.skip(1), iid) {
            Some(j) => Some(j + 1),
            None => None,
        }
    }
}

proof fn lemma_find_spawner_by_id(ss: Seq<SpawnerInfo>, id: Seq<char>, j: int)
    requires
        0 <= j < ss.len(),
        ss[j].id@ == id,
        forall|k: int| 0 <= k < j ==> (#[trigger] ss[k]).id@ != id,
    ensures
        find_spawner_by_id(ss, id) == Some(j),
    decreases j,
{
    if j == 0 {
    } else {
        assert(ss.skip(1)[j - 1] == ss[j]);
        assert(forall|k: int| 0 <= k < j - 1 ==> (#[trigger] ss.skip(1)[k]).id@ != id);
        lemma_find_spawner_by_id(ss.skip(1), id, j - 1);
    }
}

proof fn lemma_find_spawner_by_id_some(ss: Seq<SpawnerInfo>, id: Seq<char>)
    requires
        exists|k: int| 0 <= k < ss.len() && (#[trigger] ss[k]).id@ == id,
    ensures
        find_spawner_by_id(ss, id) is Some,
    decreases ss.len(),
{
    if ss[0].id@ == id {
    } else {
        let k = choose|k: int| 0 <= k < ss.len() && (#[trigger] ss[k]).id@ == id;
        assert(ss.skip(1)[k - 1] == ss[k]);
        lemma_find_spawner_by_id_some(ss.skip(1), id);
    }
}

proof fn lemma_find_spawner_by_id_none(ss: Seq<SpawnerInfo>, id: Seq<char>)
    requires
        forall|k: int| 0 <= k < ss.len() ==> (#[trigger] ss[k]).id@ != id,
    ensures
        find_spawner_by_id(ss, id) is None,
    decreases ss.len(),
{
    if ss.len() == 0 {
    } else {
        assert(forall|k: int| 0 <= k < ss.skip(1).len() ==> (#[trigger] ss.skip(1)[k]).id@ != id);
        lemma_find_spawner_by_id_none(ss.skip(1), id);
    }
}

proof fn lemma_find_spawner_by_iid(ss: Seq<SpawnerInfo>, iid: Seq<char>, j: int)
    requires
        0 <= j < ss.len(),
        ss[j].iid@ == iid,
        forall|k: int| 0 <= k < j ==> (#[trigger] ss[k]).iid@ != iid,
    ensures
        find_spawner_by_iid(ss, iid) == Some(j),
    decreases j,
{
    if j == 0 {
    } else {
        assert(ss.skip(1)[j - 1] == ss[j]);
        assert(forall|k: int| 0 <= k < j - 1 ==> (#[trigger] ss.skip(1)[k]).iid@ != iid);
        lemma_find_spawner_by_iid(ss.skip(1), iid, j - 1);
    }
}

proof fn lemma_find_spawner_by_iid_props(ss: Seq<SpawnerInfo>, iid: Seq<char>)
    requires
        find_spawner_by_iid(ss, iid) is Some,
    ensures
        0 <= find_spawner_by_iid(ss, iid).unwrap() < ss.len(),
        ss[find_spawner_by_iid(ss, iid).unwrap()].iid@ == iid,
    decreases ss.len(),
{
    if ss.len() == 0 {
    } else if ss[0].iid@ == iid {
    } else {
        lemma_find_spawner_by_iid_props(ss.skip(1), iid);
        let j = find_spawner_by_iid(ss.skip(1), iid).unwrap();
        assert(ss.skip(1)[j] == ss[j + 1]);
    }
}

proof fn lemma_find_spawner_by_iid_none(ss: Seq<SpawnerInfo>, iid: Seq<char>)
    requires
        forall|k: int| 0 <= k < ss.len() ==> (#[trigger] ss[k]).iid@ != iid,
    ensures
        find_spawner_by_iid(ss, iid) is None,
    decreases ss.len(),
{
    if ss.len() == 0 {
    } else {
        assert(forall|k: int|
            0 <= k < ss.skip(1).len() ==> (#[trigger] ss.skip(1)[k]).iid@ != iid);
        lemma_find_spawner_by_iid_none(ss.skip(1), iid);
    }
}

proof fn lemma_find_level(ls: Seq<LevelOutline>, iid: Seq<char>, j: int)
    requires
        0 <= j < ls.len(),
        ls[j].iid@ == iid,
        forall|k: int| 0 <= k < j ==> (#[trigger] ls[k]).iid@ != iid,
    ensures
        find_level(ls, iid) == Some(j),
    decreases j,
{
    if j == 0 {
    } else {
        assert(ls.skip(1)[j - 1] == ls[j]);
        assert(forall|k: int| 0 <= k < j - 1 ==> (#[trigger] ls.skip(1)[k]).iid@ != iid);
        lemma_find_level(ls.skip(1), iid, j - 1);
    }
}

proof fn lemma_find_level_none(ls: Seq<LevelOutline>, iid: Seq<char>)
    requires
        forall|k: int| 0 <= k < ls.len() ==> (#[trigger] ls[k]).iid@ != iid,
    ensures
        find_level(ls, iid) is None,
    decreases ls.len(),
{
    if ls.len() == 0 {
    } else {
        assert(forall|k: int|
            0 <= k < ls.skip(1).len() ==> (#[trigger] ls.skip(1)[k]).iid@ != iid);
        lemma_find_level_none(ls.skip(1), iid);
    }
}

/// Checkpoints, spawners and outlines of the loaded world, plus the
/// pending-respawn flag.
pub struct LevelManager {
    pub levels: Vec<LevelOutline>,
    pub spawner_id: String,
    pub spawners: Vec<SpawnerInfo>,
    pub reload: bool,
}

impl LevelManager {
    /// A fresh manager that will respawn from the given spawner id.
    pub fn from_spawner(s: String) -> (r: Self)
        ensures
            r.levels@.len() == 0,
            r.spawners@.len() == 0,
            r.spawner_id@ == s@,
            !r.reload,
    {
        LevelManager { levels: Vec::new(), spawner_id: s, spawners: Vec::new(), reload: false }
    }

    /// Registers a level outline (fed once at load time).
    pub fn register_level(&mut self, l: LevelOutline)
        ensures
            final(self).levels@ == old(self).levels@.push(l),
            final(self).spawners == old(self).spawners,
            final(self).spawner_id == old(self).spawner_id,
            final(self).reload == old(self).reload,
    {
        self.levels.push(l);
    }

    /// Registers a spawner; an id already registered is kept as it was.
    pub fn register_spawner(&mut self, id: String, iid: String, level_iid: String)
        ensures
            final(self).levels == old(self).levels,
            final(self).spawner_id == old(self).spawner_id,
            final(self).reload == old(self).reload,
            find_spawner_by_id(old(self).spawners@, id@) is Some ==> final(self).spawners == old(
                self,
            ).spawners,
            find_spawner_by_id(old(self).spawners@, id@) is None ==> final(self).spawners@.len()
                == old(self).spawners@.len() + 1 && final(self).spawners@[old(
                self,
            ).spawners@.len() as int].id@ == id@ && final(self).spawners@[old(
                self,
            ).spawners@.len() as int].iid@ == iid@ && final(self).spawners@[old(
                self,
            ).spawners@.len() as int].level_iid@ == level_iid@ && final(self).spawners@.subrange(
                0,
                old(self).spawners@.len() as int,
            ) == old(self).spawners@,
    {
        let mut i: usize = 0;
        while i < self.spawners.len()
            invariant
                0 <= i <= self.spawners@.len(),
                forall|k: int| 0 <= k < i ==> (#[trigger] self.spawners@[k]).id@ != id@,
                *self == *old(self),
            decreases self.spawners@.len() - i,
        {
            if self.spawners[i].id == id {
                proof {
                    lemma_find_spawner_by_id(self.spawners@, id@, i as int);
                }
                return;
            }
            i = i + 1;
        }
        proof {
            lemma_find_spawner_by_id_none(self.spawners@, id@);
        }
        self.spawners.push(SpawnerInfo { id, iid, level_iid });
        proof {
            assert(final(self).spawners@.subrange(0, old(self).spawners@.len() as int)
                =~= old(self).spawners@);
        }
    }

    /// The level the given spawner instance id stands in, if both the
    /// spawner and its level are known.
    pub fn determine_level_by_iid(&self, spawner_iid: &String) -> (r: Option<&LevelOutline>)
        ensures
            (match find_spawner_by_iid(self.spawners@, spawner_iid@) {
                None => r is None,
                Some(j) => (match find_level(self.levels@, self.spawners@[j].level_iid@) {
                    None => r is None,
                    Some(k) => r matches Some(l) && *l == self.levels@[k],
                }),
            }),
    {
        let mut i: usize = 0;
        while i < self.spawners.len()
            invariant
                0 <= i <= self.spawners@.len(),
                forall|k: int| 0 <= k < i ==> (#[trigger] self.spawners@[k]).iid@ != spawner_iid@,
            decreases self.spawners@.len() - i,
        {
            if self.spawners[i].iid == *spawner_iid {
                proof {
                    lemma_find_spawner_by_iid(self.spawners@, spawner_iid@, i as int);
                }
                return self.level_of(&self.spawners[i].level_iid);
            }
            i = i + 1;
        }
        proof {
            lemma_find_spawner_by_iid_none(self.spawners@, spawner_iid@);
        }
        None
    }

    /// The level the given spawner id stands in, if both the spawner and
    /// its level are known.
    pub fn determine_level(&self, spawner_id: &String) -> (r: Option<&LevelOutline>)
        ensures
            (match find_spawner_by_id(self.spawners@, spawner_id@) {
                None => r is None,
                Some(j) => (match find_level(self.levels@, self.spawners@[j].level_iid@) {
                    None => r is None,
                    Some(k) => r matches Some(l) && *l == self.levels@[k],
                }),
            }),
    {
        let mut i: usize = 0;
        while i < self.spawners.len()
            invariant
                0 <= i <= self.spawners@.len(),
                forall|k: int| 0 <= k < i ==> (#[trigger] self.spawners@[k]).id@ != spawner_id@,
            decreases self.spawners@.len() - i,
        {
            if self.spawners[i].id == *spawner_id {
                proof {
                    lemma_find_spawner_by_id(self.spawners@, spawner_id@, i as int);
                }
                return self.level_of(&self.spawners[i].level_iid);
            }
            i = i + 1;
        }
        proof {
            lemma_find_spawner_by_id_none(self.spawners@, spawner_id@);
        }
        None
    }

    /// The outline with the given level id.
    fn level_of(&self, level_iid: &String) -> (r: Option<&LevelOutline>)
        ensures
            (match find_level(self.levels@, level_iid@) {
                None => r is None,
                Some(k) => r matches Some(l) && *l == self.levels@[k],
            }),
    {
        let mut i: usize = 0;
        while i < self.levels.len()
            invariant
                0 <= i <= self.levels@.len(),
                forall|k: int| 0 <= k < i ==> (#[trigger] self.levels@[k]).iid@ != level_iid@,
            decreases self.levels@.len() - i,
        {
            if self.levels[i].iid == *level_iid {
                proof {
                    lemma_find_level(self.levels@, level_iid@, i as int);
                }
                return Some(&self.levels[i]);
            }
            i = i + 1;
        }
        proof {
            lemma_find_level_none(self.levels@, level_iid@);
        }
        None
    }

    /// The instance id of the current spawner; the current id must be
    /// registered (a save that names an unknown spawner is malformed
    /// static data).
    pub fn spawner_uuid(&self) -> (r: &String)
        requires
            find_spawner_by_id(self.spawners@, self.spawner_id@) is Some,
        ensures
            r@ == self.spawners@[find_spawner_by_id(
                self.spawners@,
                self.spawner_id@,
            ).unwrap()].iid@,
    {
        let mut i: usize = 0;
        loop
            invariant
                find_spawner_by_id(self.spawners@, self.spawner_id@) is Some,
                0 <= i <= self.spawners@.len(),
                forall|k: int| 0 <= k < i ==> (#[trigger] self.spawners@[k]).id@
                    != self.spawner_id@,
            decreases self.spawners@.len() - i,
        {
            if i >= self.spawners.len() {
                proof {
                    lemma_find_spawner_by_id_none(self.spawners@, self.spawner_id@);
                }
                // Unreachable: the current spawner is registered.
                assert(false);
            } else {
                if self.spawners[i].id == self.spawner_id {
                    proof {
                        lemma_find_spawner_by_id(self.spawners@, self.spawner_id@, i as int);
                    }
                    return &self.spawners[i].iid;
                }
            }
            i = i + 1;
        }
    }

    pub fn spawner_id(&self) -> (r: &String)
        ensures
            r == &self.spawner_id,
    {
        &self.spawner_id
    }

    pub fn set_spawner_id(&mut self, spawner_id: String)
        ensures
            final(self).spawner_id == spawner_id,
            final(self).levels == old(self).levels,
            final(self).spawners == old(self).spawners,
            final(self).reload == old(self).reload,
    {
        self.spawner_id = spawner_id;
    }

    /// Makes the spawner with this instance id current; the id must be
    /// registered (a checkpoint naming an unknown spawner is malformed
    /// static data).
    pub fn set_spawner_iid(&mut self, spawner_iid: String)
        requires
            find_spawner_by_iid(old(self).spawners@, spawner_iid@) is Some,
        ensures
            final(self).spawner_id == old(self).spawners@[find_spawner_by_iid(
                old(self).spawners@,
                spawner_iid@,
            ).unwrap()].id,
            final(self).levels == old(self).levels,
            final(self).spawners == old(self).spawners,
            final(self).reload == old(self).reload,
    {
        let mut i: usize = 0;
        loop
            invariant
                *self == *old(self),
                find_spawner_by_iid(self.spawners@, spawner_iid@) is Some,
                0 <= i <= self.spawners@.len(),
                forall|k: int| 0 <= k < i ==> (#[trigger] self.spawners@[k]).iid@ != spawner_iid@,
            decreases self.spawners@.len() - i,
        {
            if i >= self.spawners.len() {
                proof {
                    lemma_find_spawner_by_iid_none(self.spawners@, spawner_iid@);
                }
                // Unreachable: the spawner is registered.
                assert(false);
            } else {
                if self.spawners[i].iid == spawner_iid {
                    proof {
                        lemma_find_spawner_by_iid(self.spawners@, spawner_iid@, i as int);
                    }
                    let id = self.spawners[i].id.clone();
                    self.spawner_id = id;
                    return;
                }
            }
            i = i + 1;
        }
    }

    /// The level of the current checkpoint.
    pub fn current_checkpoint_level(&self) -> (r: Option<&LevelOutline>)
        ensures
            (match find_spawner_by_id(self.spawners@, self.spawner_id@) {
                None => r is None,
                Some(j) => (match find_level(self.levels@, self.spawners@[j].level_iid@) {
                    None => r is None,
                    Some(k) => r matches Some(l) && *l == self.levels@[k],
                }),
            }),
    {
        let id = self.spawner_id.clone();
        self.determine_level(&id)
    }

    /// Whether the position lies inside any loaded level.
    pub fn is_vec_inside_any_level(&self, pos: (i64, i64)) -> (r: bool)
        requires
            forall|k: int| 0 <= k < self.levels@.len() ==> wf_outline(#[trigger] self.levels@[k]),
        ensures
            r == exists|k: int|
                0 <= k < self.levels@.len() && outline_contains(#[trigger] self.levels@[k], pos),
    {
        let mut i: usize = 0;
        while i < self.levels.len()
            invariant
                forall|k: int|
                    0 <= k < self.levels@.len() ==> wf_outline(#[trigger] self.levels@[k]),
                0 <= i <= self.levels@.len(),
                forall|k: int| 0 <= k < i ==> !outline_contains(#[trigger] self.levels@[k], pos),
            decreases self.levels@.len() - i,
        {
            if self.levels[i].contains(pos) {
                proof {
                    assert(outline_contains(self.levels@[i as int], pos));
                }
                return true;
            }
            i = i + 1;
        }
        false
    }

    /// Asks for a respawn; the level collaborator performs it.
    pub fn reload(&mut self)
        ensures
            final(self).reload,
            final(self).levels == old(self).levels,
            final(self).spawners == old(self).spawners,
            final(self).spawner_id == old(self).spawner_id,
    {
        self.reload = true;
    }

    /// Consumes the pending-respawn flag.
    pub fn take_reload(&mut self) -> (r: bool)
        ensures
            r == old(self).reload,
            !final(self).reload,
            final(self).levels == old(self).levels,
            final(self).spawners == old(self).spawners,
            final(self).spawner_id == old(self).spawner_id,
    {
        let r = self.reload;
        self.reload = false;
        r
    }
}

/// A checkpoint area and the spawner it makes current.
pub struct Checkpoint {
    pub pos: (i64, i64),
    pub width: i64,
    pub height: i64,
    pub spawner_iid: String,
}

pub open spec fn wf_checkpoint(c: Checkpoint) -> bool {
    &&& -COORD_BOUND <= c.pos.0 <= COORD_BOUND
    &&& -COORD_BOUND <= c.pos.1 <= COORD_BOUND
    &&& 0 <= c.width <= COORD_BOUND
    &&& 0 <= c.height <= COORD_BOUND
}

/// Whether the player stands in the checkpoint's rectangle (centred on its
/// position).
pub open spec fn checkpoint_contains(c: Checkpoint, p: (i64, i64)) -> bool {
    &&& 2 * c.pos.0 - c.width <= 2 * p.0 <= 2 * c.pos.0 + c.width
    &&& 2 * c.pos.1 - c.height <= 2 * p.1 <= 2 * c.pos.1 + c.height
}

/// Walks the checkpoints in order, switching the current spawner whenever
/// the player stands in a checkpoint that is not already current.
pub open spec fn spec_checkpoint_pass(
    lm: LevelManager,
    cps: Seq<Checkpoint>,
    p: (i64, i64),
) -> LevelManager
    decreases cps.len(),
{
    if cps.len() == 0 {
        lm
    } else {
        let c = cps[0];
        let switch = {
            &&& checkpoint_contains(c, p)
            &&& (match find_spawner_by_id(lm.spawners@, lm.spawner_id@) {
                Some(j) => lm.spawners@[j].iid@ != c.spawner_iid@,
                None => false,
            })
        };
        let next = if switch {
            (match find_spawner_by_iid(lm.spawners@, c.spawner_iid@) {
                Some(j) => LevelManager {
                    spawner_id: lm.spawners@[j].id,
                    ..lm
                },
                None => lm,
            })
        } else {
            lm
        };
        spec_checkpoint_pass(next, cps.skip(1), p)
    }
}

/// One checkpoint sweep: the current spawner after it is exactly the fold
/// of the checkpoints the player stands in. Every checkpoint must name a
/// registered spawner, and the current spawner must be registered, else
/// the static data is malformed.
pub fn check_player_in_checkpoint(
    player_pos: (i64, i64),
    checkpoints: &Vec<Checkpoint>,
    lm: &mut LevelManager,
)
    requires
        -COORD_BOUND <= player_pos.0 <= COORD_BOUND,
        -COORD_BOUND <= player_pos.1 <= COORD_BOUND,
        forall|i: int| 0 <= i < checkpoints@.len() ==> wf_checkpoint(#[trigger] checkpoints@[i]),
        forall|i: int|
            0 <= i < checkpoints@.len() ==> find_spawner_by_iid(
                old(lm).spawners@,
                (#[trigger] checkpoints@[i]).spawner_iid@,
            ) is Some,
        find_spawner_by_id(old(lm).spawners@, old(lm).spawner_id@) is Some,
    ensures
        *final(lm) == spec_checkpoint_pass(*old(lm), checkpoints@, player_pos),
{
    let mut i: usize = 0;
    proof {
        assert(checkpoints@.skip(0) =~= checkpoints@);
    }
    loop
        invariant
            -COORD_BOUND <= player_pos.0 <= COORD_BOUND,
            -COORD_BOUND <= player_pos.1 <= COORD_BOUND,
            forall|k: int|
                0 <= k < checkpoints@.len() ==> wf_checkpoint(#[trigger] checkpoints@[k]),
            forall|k: int|
                0 <= k < checkpoints@.len() ==> find_spawner_by_iid(
                    lm.spawners@,
                    (#[trigger] checkpoints@[k]).spawner_iid@,
                ) is Some,
            find_spawner_by_id(lm.spawners@, lm.spawner_id@) is Some,
            lm.spawners == old(lm).spawners,
            lm.levels == old(lm).levels,
            lm.reload == old(lm).reload,
            0 <= i <= checkpoints@.len(),
            spec_checkpoint_pass(*old(lm), checkpoints@, player_pos) == spec_checkpoint_pass(
                *lm,
                checkpoints@.skip(i as int),
                player_pos,
            ),
        decreases checkpoints@.len() - i,
    {
        if i >= checkpoints.len() {
            proof {
                assert(checkpoints@.skip(i as int).len() == 0);
            }
            return;
        }
        let ghost lm_pre = *lm;
        let c = &checkpoints[i];
        proof {
            assert(checkpoints@.skip(i as int)[0] == checkpoints@[i as int]);
            assert(checkpoints@.skip(i as int).skip(1) =~= checkpoints@.skip(i + 1));
        }
        let inside = {
            let two_px: i64 = 2 * player_pos.0;
            let two_py: i64 = 2 * player_pos.1;
            let two_cx: i64 = 2 * c.pos.0;
            let two_cy: i64 = 2 * c.pos.1;
            two_cx - c.width <= two_px && two_px <= two_cx + c.width && two_cy - c.height
                <= two_py && two_py <= two_cy + c.height
        };
        if inside {
            let differs = {
                let uuid = lm.spawner_uuid();
                *uuid != c.spawner_iid
            };
            if differs {
                let iid = c.spawner_iid.clone();
                lm.set_spawner_iid(iid);
            }
        }
        proof {
            let c0 = checkpoints@[i as int];
            let switch = {
                &&& checkpoint_contains(c0, player_pos)
                &&& (match find_spawner_by_id(lm_pre.spawners@, lm_pre.spawner_id@) {
                    Some(j) => lm_pre.spawners@[j].iid@ != c0.spawner_iid@,
                    None => false,
                })
            };
            if switch {
                lemma_find_spawner_by_iid_props(lm_pre.spawners@, c0.spawner_iid@);
                let j = find_spawner_by_iid(lm_pre.spawners@, c0.spawner_iid@).unwrap();
                assert(*lm == LevelManager { spawner_id: lm_pre.spawners@[j].id, ..lm_pre });
                assert(0 <= j < lm.spawners@.len() && (lm.spawners@[j]).id@ == lm.spawner_id@);
                lemma_find_spawner_by_id_some(lm.spawners@, lm.spawner_id@);
            } else {
                assert(*lm == lm_pre);
            }
            assert(spec_checkpoint_pass(lm_pre, checkpoints@.skip(i as int), player_pos)
                == spec_checkpoint_pass(*lm, checkpoints@.skip(i + 1), player_pos));
        }
        i = i + 1;
    }
}

} // verus!
