use vstd::prelude::*;
use crate::ability::AbilityModifier;

verus! {

/// A collection of modifiers that models refer to by index, so that several
/// models can read the same modifier and all see a bonus or penalty applied to it.
pub struct ModifierPool {
    modifiers: Vec<AbilityModifier>,
}

impl View for ModifierPool {
    type V = Seq<AbilityModifier>;

    closed spec fn view(&self) -> Seq<AbilityModifier> {
        self.modifiers@
    }
}

impl ModifierPool {
    /// Every modifier in the pool is well formed.
    pub open spec fn wf(&self) -> bool {
        forall|i: int| 0 <= i < self@.len() ==> #[trigger] self@[i].wf()
    }

    /// Both pools hold modifiers over the same abilities with the same slots;
    /// only their caches may differ.
    pub open spec fn same_slots(&self, other: &ModifierPool) -> bool {
        &&& self@.len() == other@.len()
        &&& forall|i: int|
            0 <= i < self@.len() ==> {
                &&& (#[trigger] self@[i]).ability() == other@[i].ability()
                &&& self@[i].positive() == other@[i].positive()
                &&& self@[i].negative() == other@[i].negative()
            }
    }

    /// Only the modifier at `id` differs between the two pools.
    pub open spec fn others_kept(&self, other: &ModifierPool, id: int) -> bool {
        &&& self@.len() == other@.len()
        &&& forall|i: int| 0 <= i < self@.len() && i != id ==> #[trigger] self@[i] == other@[i]
    }

    pub fn new() -> (r: ModifierPool)
        ensures
            r@ == Seq::<AbilityModifier>::empty(),
            r.wf(),
    {
        ModifierPool { modifiers: Vec::new() }
    }

    pub fn len(&self) -> (r: usize)
        ensures
            r as int == self@.len(),
    {
        self.modifiers.len()
    }

    /// Adds a modifier and returns the index that refers to it.
    pub fn add(&mut self, modifier: AbilityModifier) -> (id: usize)
        requires
            old(self).wf(),
            modifier.wf(),
        ensures
            final(self).wf(),
            id as int == old(self)@.len(),
            final(self)@ == old(self)@.push(modifier),
    {
        let id = self.modifiers.len();
        self.modifiers.push(modifier);
        proof {
            assert forall|i: int| 0 <= i < self@.len() implies #[trigger] self@[i].wf() by {
                if i < old(self)@.len() {
                    assert(self@[i] == old(self)@[i]);
                }
            }
        }
        id
    }

    /// A copy of the modifier at `id`.
    pub fn modifier(&self, id: usize) -> (r: AbilityModifier)
        requires
            id < self@.len(),
        ensures
            r == self@[id as int],
    {
        self.modifiers[id]
    }

    /// Applies a bonus to the modifier at `id`.
    pub fn apply_positive(&mut self, id: usize, modifier: i32)
        requires
            old(self).wf(),
            id < old(self)@.len(),
        ensures
            final(self).wf(),
            final(self).others_kept(old(self), id as int),
            old(self)@[id as int].positive_step(final(self)@[id as int], modifier as int),
    {
        let mut m = self.modifiers[id];
        m.apply_positive(modifier);
        self.modifiers.set(id, m);
    }

    /// Applies a penalty, given with either sign, to the modifier at `id`.
    pub fn apply_negative(&mut self, id: usize, modifier: i32)
        requires
            old(self).wf(),
            id < old(self)@.len(),
        ensures
            final(self).wf(),
            final(self).others_kept(old(self), id as int),
            old(self)@[id as int].negative_step(final(self)@[id as int], modifier as int),
    {
        let mut m = self.modifiers[id];
        m.apply_negative(modifier);
        self.modifiers.set(id, m);
    }

    /// The total of the modifier at `id`, cached in the pool by the read.
    pub fn value(&mut self, id: usize) -> (r: i32)
        requires
            old(self).wf(),
            id < old(self)@.len(),
            old(self)@[id as int].total_fits(),
        ensures
            r as int == old(self)@[id as int].total(),
            final(self).wf(),
            final(self).others_kept(old(self), id as int),
            old(self)@[id as int].read_step(final(self)@[id as int], r),
            final(self).same_slots(old(self)),
    {
        let mut m = self.modifiers[id];
        let r = m.value();
        self.modifiers.set(id, m);
        r
    }
}


/// How a model combines the totals of its modifiers.
#[derive(Debug, Clone, Copy, PartialEq, Eq, Structural)]
pub enum AbilityModelType {
    /// The plain average of the two totals.
    Equal,
    /// The average that counts the first total twice.
    WeigthedOnPrior,
    /// The first total alone.
    Single,
}

/// Integer division of `a` by a positive `d`, rounded toward zero.
pub open spec fn div_toward_zero(a: int, d: int) -> int
    recommends
        d > 0,
{
    if a >= 0 {
        a / d
    } else {
        -((-a) / d)
    }
}

/// The score that a blend rule gives to the totals `v1` and `v2`.
pub open spec fn blend(kind: AbilityModelType, v1: int, v2: int) -> int {
    match kind {
        AbilityModelType::Single => v1,
        AbilityModelType::Equal => div_toward_zero(v1 + v2, 2),
        AbilityModelType::WeigthedOnPrior => div_toward_zero(2 * v1 + v2, 3),
    }
}

/// A blend rule over one or two modifiers of a pool.
#[derive(Debug, Clone, Copy)]
pub struct AbilityModel {
    model_type: AbilityModelType,
    ability1: usize,
    ability2: Option<usize>,
}

impl AbilityModel {
    pub closed spec fn kind(self) -> AbilityModelType {
        self.model_type
    }

    /// The index of the first (prior) modifier.
    pub closed spec fn first(self) -> int {
        self.ability1 as int
    }

    /// The index of the second modifier, if any.
    pub closed spec fn second(self) -> Option<usize> {
        self.ability2
    }

    /// A rule other than `Single` has a second modifier.
    pub open spec fn wf(self) -> bool {
        self.kind() != AbilityModelType::Single ==> self.second() is Some
    }

    /// The index of the modifier that stands second in the blend.
    pub open spec fn second_index(self) -> int {
        match self.second() {
            Some(i) => i as int,
            None => self.first(),
        }
    }

    /// The model's modifiers are in `pool`, and those that it reads have
    /// totals that fit an `i32`.
    pub open spec fn readable(self, pool: &ModifierPool) -> bool {
        &&& self.wf()
        &&& 0 <= self.first() < pool@.len()
        &&& pool@[self.first()].total_fits()
        &&& self.kind() != AbilityModelType::Single ==> {
            &&& 0 <= self.second_index() < pool@.len()
            &&& pool@[self.second_index()].total_fits()
        }
    }

    /// The model's score over the current totals of `pool`.
    pub open spec fn score(self, pool: &ModifierPool) -> int {
        blend(self.kind(), pool@[self.first()].total(), pool@[self.second_index()].total())
    }

    /// Builds a model; a rule other than `Single` without a second modifier is
    /// refused with the rule itself as the error.
    pub fn new(model_type: AbilityModelType, ability1: usize, ability2: Option<usize>) -> (r: Result<
        AbilityModel,
        AbilityModelType,
    >)
        ensures
            model_type != AbilityModelType::Single && ability2 is None <==> r is Err,
            r matches Err(e) ==> e == model_type,
            r matches Ok(m) ==> {
                &&& m.wf()
                &&& m.kind() == model_type
                &&& m.first() == ability1 as int
                &&& m.second() == ability2
            },
    {
        match model_type {
            AbilityModelType::Single => Ok(AbilityModel { model_type, ability1, ability2 }),
            _ => match ability2 {
                None => Err(model_type),
                Some(_) => Ok(AbilityModel { model_type, ability1, ability2 }),
            },
        }
    }

    /// Whether the model can be read from `pool`.
    pub fn readable_in(&self, pool: &ModifierPool) -> (r: bool)
        ensures
            r == self.readable(pool),
    {
        if self.ability1 >= pool.len() || !pool.modifier(self.ability1).total_in_range() {
            return false;
        }
        match self.model_type {
            AbilityModelType::Single => true,
            _ => match self.ability2 {
                None => false,
                Some(i) => i < pool.len() && pool.modifier(i).total_in_range(),
            },
        }
    }

    /// The blend of the current totals of the model's modifiers; the reads
    /// fill the modifiers' caches and change nothing else.
    pub fn value(&self, pool: &mut ModifierPool) -> (r: i32)
        requires
            old(pool).wf(),
            self.readable(old(pool)),
        ensures
            r as int == self.score(old(pool)),
            final(pool).wf(),
            final(pool).same_slots(old(pool)),
    {
        let v1: i32 = pool.value(self.ability1);
        match self.model_type {
            AbilityModelType::Single => v1,
            AbilityModelType::Equal => {
                let v2: i32 = match self.ability2 {
                    Some(i) => pool.value(i),
                    None => v1,
                };
                let sum: i64 = v1 as i64 + v2 as i64;
                let q: i64 = if sum >= 0 {
                    sum / 2
                } else {
                    -((-sum) / 2)
                };
                q as i32
            },
            AbilityModelType::WeigthedOnPrior => {
                let v2: i32 = match self.ability2 {
                    Some(i) => pool.value(i),
                    None => v1,
                };
                let sum: i64 = 2 * (v1 as i64) + v2 as i64;
                let q: i64 = if sum >= 0 {
                    sum / 3
                } else {
                    -((-sum) / 3)
                };
                q as i32
            },
        }
    }
}


/// The attacker's score less the defender's, both read from the same pool;
/// the reads fill caches and change no total.
pub fn score_difference(
    pool: &mut ModifierPool,
    attacker: &AbilityModel,
    defender: &AbilityModel,
) -> (d: i64)
    requires
        old(pool).wf(),
        attacker.readable(old(pool)),
        defender.readable(old(pool)),
    ensures
        d as int == attacker.score(old(pool)) - defender.score(old(pool)),
        final(pool).wf(),
        final(pool).same_slots(old(pool)),
{
    let a: i32 = attacker.value(pool);
    let b: i32 = defender.value(pool);
    a as i64 - b as i64
}

} // verus!
