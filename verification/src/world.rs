//! The entity store: one list per kind of record, each record carrying its
//! own despawn tag, plus the player singleton.  Records leave the store
//! only through the end-of-frame sweep.

use vstd::prelude::*;

use crate::background::BackgroundBundle;
use crate::death_effect::DeathEffectBundle;
use crate::enemy::EnemyBundle;
use crate::player::PlayerBundle;
use crate::roof::RoofBundle;
use crate::shuriken::ShurikenBundle;
use crate::walls::WallBundle;

verus! {

/// A record that can carry the despawn tag.
pub trait Despawnable: Sized {
    spec fn spec_marked(&self) -> bool;

    fn is_marked(&self) -> (r: bool)
        ensures
            r == self.spec_marked(),
    ;
}

impl Despawnable for EnemyBundle {
    open spec fn spec_marked(&self) -> bool {
        self.marked
    }

    fn is_marked(&self) -> (r: bool)
        ensures
            r == self.spec_marked(),
    {
        self.marked
    }
}

impl Despawnable for ShurikenBundle {
    open spec fn spec_marked(&self) -> bool {
        self.marked
    }

    fn is_marked(&self) -> (r: bool)
        ensures
            r == self.spec_marked(),
    {
        self.marked
    }
}

impl Despawnable for DeathEffectBundle {
    open spec fn spec_marked(&self) -> bool {
        self.marked
    }

    fn is_marked(&self) -> (r: bool)
        ensures
            r == self.spec_marked(),
    {
        self.marked
    }
}

impl Despawnable for WallBundle {
    open spec fn spec_marked(&self) -> bool {
        self.marked
    }

    fn is_marked(&self) -> (r: bool)
        ensures
            r == self.spec_marked(),
    {
        self.marked
    }
}

impl Despawnable for RoofBundle {
    open spec fn spec_marked(&self) -> bool {
        self.marked
    }

    fn is_marked(&self) -> (r: bool)
        ensures
            r == self.spec_marked(),
    {
        self.marked
    }
}

impl Despawnable for BackgroundBundle {
    open spec fn spec_marked(&self) -> bool {
        self.marked
    }

    fn is_marked(&self) -> (r: bool)
        ensures
            r == self.spec_marked(),
    {
        self.marked
    }
}

/// The records of `s` that survive a despawn sweep, in order.
pub open spec fn live_records<T: Despawnable>(s: Seq<T>) -> Seq<T> {
    s.filter(|t: T| !t.spec_marked())
}

/// Remove every record tagged for despawn from one list.
fn sweep_list<T: Despawnable + Copy>(v: &mut Vec<T>)
    ensures
        final(v)@ == live_records(old(v)@),
{
    let mut kept: Vec<T> = Vec::new();
    let mut i: usize = 0;
    while i < v.len()
        invariant
            i <= v@.len(),
            kept@ == live_records(v@.take(i as int)),
        decreases v@.len() - i,
    {
        let ghost prefix = v@.take(i as int);
        let record = v[i];
        if !record.is_marked() {
            kept.push(record);
        }
        i = i + 1;
        proof {
            let longer = v@.take(i as int);
            assert(longer.drop_last() =~= prefix);
            assert(longer.last() == v@[i - 1]);
            reveal(Seq::filter);
        }
    }
    proof {
        assert(v@.take(v@.len() as int) =~= v@);
    }
    *v = kept;
}

/// The shared store of live entity records.
#[derive(Debug)]
pub struct World {
    pub player: Option<PlayerBundle>,
    pub enemies: Vec<EnemyBundle>,
    pub shurikens: Vec<ShurikenBundle>,
    pub effects: Vec<DeathEffectBundle>,
    pub walls: Vec<WallBundle>,
    pub roofs: Vec<RoofBundle>,
    pub backgrounds: Vec<BackgroundBundle>,
}

impl World {
    /// An empty store with no player.
    pub fn new() -> (w: World)
        ensures
            w.player is None,
            w.enemies@.len() == 0,
            w.shurikens@.len() == 0,
            w.effects@.len() == 0,
            w.walls@.len() == 0,
            w.roofs@.len() == 0,
            w.backgrounds@.len() == 0,
    {
        World {
            player: None,
            enemies: Vec::new(),
            shurikens: Vec::new(),
            effects: Vec::new(),
            walls: Vec::new(),
            roofs: Vec::new(),
            backgrounds: Vec::new(),
        }
    }

    /// A sweep changes exactly this: every tagged record leaves each list;
    /// the player singleton is never swept.
    pub open spec fn swept_from(self, before: World) -> bool {
        &&& self.player == before.player
        &&& self.enemies@ == live_records(before.enemies@)
        &&& self.shurikens@ == live_records(before.shurikens@)
        &&& self.effects@ == live_records(before.effects@)
        &&& self.walls@ == live_records(before.walls@)
        &&& self.roofs@ == live_records(before.roofs@)
        &&& self.backgrounds@ == live_records(before.backgrounds@)
    }

    /// Remove every record tagged for despawn.
    pub fn sweep(&mut self)
        ensures
            final(self).swept_from(*old(self)),
    {
        sweep_list(&mut self.enemies);
        sweep_list(&mut self.shurikens);
        sweep_list(&mut self.effects);
        sweep_list(&mut self.walls);
        sweep_list(&mut self.roofs);
        sweep_list(&mut self.backgrounds);
    }
}

/// No record that survived a sweep is still tagged.
pub proof fn lemma_live_records_unmarked<T: Despawnable>(s: Seq<T>)
    ensures
        forall|i: int| 0 <= i < live_records(s).len()
            ==> !(#[trigger] live_records(s)[i]).spec_marked(),
{
    broadcast use vstd::seq_lib::group_filter_ensures;

}

/// A sequence whose records all survive filtering is left whole by it.
proof fn lemma_filter_of_clean<T: Despawnable>(s: Seq<T>)
    requires
        forall|i: int| 0 <= i < s.len() ==> !(#[trigger] s[i]).spec_marked(),
    ensures
        live_records(s) == s,
    decreases s.len(),
{
    reveal(Seq::filter);
    if s.len() == 0 {
        assert(live_records(s) =~= s);
    } else {
        lemma_filter_of_clean(s.drop_last());
        assert(live_records(s) =~= s);
    }
}

/// Law: the despawn sweep is idempotent.  Sweeping a list that was just
/// swept — no new tags added in between — removes nothing more.
pub proof fn lemma_despawn_sweep_idempotent<T: Despawnable>(s: Seq<T>)
    ensures
        live_records(live_records(s)) == live_records(s),
{
    lemma_live_records_unmarked(s);
    lemma_filter_of_clean(live_records(s));
}

/// Law: the sweep is idempotent on the whole store — two sweeps in a row
/// with no new tags in between leave exactly the state after the first.
pub proof fn lemma_world_sweep_idempotent(w0: World, w1: World, w2: World)
    requires
        w1.swept_from(w0),
        w2.swept_from(w1),
    ensures
        w2.player == w1.player,
        w2.enemies@ == w1.enemies@,
        w2.shurikens@ == w1.shurikens@,
        w2.effects@ == w1.effects@,
        w2.walls@ == w1.walls@,
        w2.roofs@ == w1.roofs@,
        w2.backgrounds@ == w1.backgrounds@,
{
    lemma_despawn_sweep_idempotent::<EnemyBundle>(w0.enemies@);
    lemma_despawn_sweep_idempotent::<ShurikenBundle>(w0.shurikens@);
    lemma_despawn_sweep_idempotent::<DeathEffectBundle>(w0.effects@);
    lemma_despawn_sweep_idempotent::<WallBundle>(w0.walls@);
    lemma_despawn_sweep_idempotent::<RoofBundle>(w0.roofs@);
    lemma_despawn_sweep_idempotent::<BackgroundBundle>(w0.backgrounds@);
}

} // verus!
