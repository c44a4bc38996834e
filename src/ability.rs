use vstd::prelude::*;
use vstd::string::StringExecFns;
use crate::text::{decimal, decimal_text};

verus! {

/// A named base attribute of a character, carrying its base value.
#[derive(Debug, Clone, Copy, PartialEq, Eq, Structural)]
pub enum Ability {
    Strength(i32),
    Dexterity(i32),
    Stamina(i32),
    Endurement(i32),
    Luck(i32),
    Intelligence(i32),
}

impl Ability {
    /// The base value carried by any kind of ability.
    pub open spec fn base(self) -> int {
        match self {
            Ability::Strength(v) => v as int,
            Ability::Dexterity(v) => v as int,
            Ability::Stamina(v) => v as int,
            Ability::Endurement(v) => v as int,
            Ability::Luck(v) => v as int,
            Ability::Intelligence(v) => v as int,
        }
    }

    /// The name of the ability's kind.
    pub open spec fn kind_name(self) -> Seq<char> {
        match self {
            Ability::Strength(_) => "Strength"@,
            Ability::Dexterity(_) => "Dexterity"@,
            Ability::Stamina(_) => "Stamina"@,
            Ability::Endurement(_) => "Endurement"@,
            Ability::Luck(_) => "Luck"@,
            Ability::Intelligence(_) => "Intelligence"@,
        }
    }

    pub fn typename(&self) -> (r: String)
        ensures
            r@ == self.kind_name(),
    {
        let name: &str = match self {
            Ability::Strength(_) => "Strength",
            Ability::Dexterity(_) => "Dexterity",
            Ability::Stamina(_) => "Stamina",
            Ability::Endurement(_) => "Endurement",
            Ability::Luck(_) => "Luck",
            Ability::Intelligence(_) => "Intelligence",
        };
        proof {
            reveal_strlit("Strength");
            reveal_strlit("Dexterity");
            reveal_strlit("Stamina");
            reveal_strlit("Endurement");
            reveal_strlit("Luck");
            reveal_strlit("Intelligence");
        }
        name.to_owned()
    }

    pub fn value(&self) -> (r: i32)
        ensures
            r as int == self.base(),
    {
        match self {
            Ability::Strength(v) => *v,
            Ability::Dexterity(v) => *v,
            Ability::Stamina(v) => *v,
            Ability::Endurement(v) => *v,
            Ability::Luck(v) => *v,
            Ability::Intelligence(v) => *v,
        }
    }

    /// The text of the ability: a tab, its kind, a colon, its value and a newline.
    pub open spec fn text(self) -> Seq<char> {
        "\t"@ + self.kind_name() + ": "@ + decimal(self.base()) + "\n"@
    }

    pub fn to_string(&self) -> (r: String)
        ensures
            r@ == self.text(),
    {
        let name = self.typename();
        let digits = decimal_text(self.value());
        let mut r = String::from_str("\t");
        r.append(name.as_str());
        r.append(": ");
        r.append(digits.as_str());
        r.append("\n");
        proof {
            reveal_strlit("\t");
            reveal_strlit(": ");
            reveal_strlit("\n");
        }
        r
    }
}


/// Keeps the two largest of the slots `s` (largest first) and `m`;
/// a value equal to a slot takes that slot's place.
pub open spec fn raise_slots(s: (int, int), m: int) -> (int, int) {
    if m >= s.0 {
        (m, s.0)
    } else if m >= s.1 {
        (s.0, m)
    } else {
        s
    }
}

/// Keeps the two smallest of the slots `s` (smallest first) and `m`;
/// a value equal to a slot takes that slot's place.
pub open spec fn lower_slots(s: (int, int), m: int) -> (int, int) {
    if m <= s.0 {
        (m, s.0)
    } else if m <= s.1 {
        (s.0, m)
    } else {
        s
    }
}

/// A penalty given with either sign, as the non-positive amount it stands for.
pub open spec fn as_penalty(m: int) -> int {
    if m > 0 {
        -m
    } else {
        m
    }
}

/// An ability with the two largest bonuses and the two largest penalties
/// applied to it, and a cached total that is cleared whenever a slot is written.
#[derive(Debug, Clone, Copy)]
pub struct AbilityModifier {
    ability: Ability,
    modifier_positive: [i32; 2],
    modifier_negative: [i32; 2],
    current: Option<i32>,
}

impl AbilityModifier {
    pub closed spec fn ability(self) -> Ability {
        self.ability
    }

    /// The bonus slots, largest first.
    pub closed spec fn positive(self) -> (int, int) {
        (self.modifier_positive@[0] as int, self.modifier_positive@[1] as int)
    }

    /// The penalty slots, most negative first.
    pub closed spec fn negative(self) -> (int, int) {
        (self.modifier_negative@[0] as int, self.modifier_negative@[1] as int)
    }

    /// The cached total, if it has been computed since the last change.
    pub closed spec fn cached(self) -> Option<i32> {
        self.current
    }

    /// Base value plus all four slots.
    pub open spec fn total(self) -> int {
        self.ability().base() + self.positive().0 + self.positive().1 + self.negative().0
            + self.negative().1
    }

    /// The total can be returned as an `i32`.
    pub open spec fn total_fits(self) -> bool {
        i32::MIN <= self.total() <= i32::MAX
    }

    /// Slots are ordered and of their sign, and a cached total is the true total.
    pub open spec fn wf(self) -> bool {
        &&& self.positive().0 >= self.positive().1 >= 0
        &&& self.negative().0 <= self.negative().1 <= 0
        &&& (self.cached() matches Some(v) ==> v as int == self.total())
    }

    /// The same slots and cache, over another ability.
    pub open spec fn same_state(self, other: AbilityModifier) -> bool {
        &&& self.ability() == other.ability()
        &&& self.positive() == other.positive()
        &&& self.negative() == other.negative()
        &&& self.cached() == other.cached()
    }

    /// `next` is this modifier after a bonus of `m`: the bonus slots keep the two
    /// largest values, and the cache is cleared when a slot is written.
    pub open spec fn positive_step(self, next: AbilityModifier, m: int) -> bool {
        &&& next.ability() == self.ability()
        &&& next.positive() == raise_slots(self.positive(), m)
        &&& next.negative() == self.negative()
        &&& next.cached() == (if m >= self.positive().1 {
            None
        } else {
            self.cached()
        })
    }

    /// `next` is this modifier after a penalty of `m`, given with either sign: the
    /// penalty slots keep the two most negative values, and the cache is cleared
    /// when a slot is written.
    pub open spec fn negative_step(self, next: AbilityModifier, m: int) -> bool {
        &&& next.ability() == self.ability()
        &&& next.positive() == self.positive()
        &&& next.negative() == lower_slots(self.negative(), as_penalty(m))
        &&& next.cached() == (if as_penalty(m) <= self.negative().1 {
            None
        } else {
            self.cached()
        })
    }

    /// `next` is this modifier after a read that returned `r`: only the cache
    /// changes, and it now holds `r`.
    pub open spec fn read_step(self, next: AbilityModifier, r: i32) -> bool {
        &&& next.ability() == self.ability()
        &&& next.positive() == self.positive()
        &&& next.negative() == self.negative()
        &&& next.cached() == Some(r)
    }

    /// The text of the modifier: the ability's text, the four slots, and the
    /// cached total or `<Lazy>` when there is none.
    pub open spec fn text(self) -> Seq<char> {
        "["@ + self.ability().text() + ", modifiers: "@ + decimal(self.positive().0) + ","@
            + decimal(self.positive().1) + ","@ + decimal(self.negative().0) + ","@ + decimal(
            self.negative().1,
        ) + "] -> "@ + match self.cached() {
            Some(v) => decimal(v as int),
            None => "<Lazy>"@,
        }
    }

    pub fn to_string(&self) -> (r: String)
        ensures
            r@ == self.text(),
    {
        let ability = self.ability.to_string();
        let p0 = decimal_text(self.modifier_positive[0]);
        let p1 = decimal_text(self.modifier_positive[1]);
        let n0 = decimal_text(self.modifier_negative[0]);
        let n1 = decimal_text(self.modifier_negative[1]);
        let cache = match self.current {
            Some(v) => decimal_text(v),
            None => String::from_str("<Lazy>"),
        };
        let mut r = String::from_str("[");
        r.append(ability.as_str());
        r.append(", modifiers: ");
        r.append(p0.as_str());
        r.append(",");
        r.append(p1.as_str());
        r.append(",");
        r.append(n0.as_str());
        r.append(",");
        r.append(n1.as_str());
        r.append("] -> ");
        r.append(cache.as_str());
        proof {
            reveal_strlit("[");
            reveal_strlit(", modifiers: ");
            reveal_strlit(",");
            reveal_strlit("] -> ");
            reveal_strlit("<Lazy>");
        }
        r
    }

    /// Whether the total can be returned as an `i32`.
    pub fn total_in_range(&self) -> (r: bool)
        ensures
            r == self.total_fits(),
    {
        let sum: i64 = self.ability.value() as i64 + self.modifier_positive[0] as i64
            + self.modifier_positive[1] as i64 + self.modifier_negative[0] as i64
            + self.modifier_negative[1] as i64;
        i32::MIN as i64 <= sum && sum <= i32::MAX as i64
    }

    pub fn apply_positive(&mut self, modifier: i32)
        requires
            old(self).wf(),
        ensures
            final(self).wf(),
            old(self).positive_step(*final(self), modifier as int),
    {
        if modifier >= self.modifier_positive[0] {
            self.modifier_positive = [modifier, self.modifier_positive[0]];
            self.current = None;
        } else if modifier >= self.modifier_positive[1] {
            self.modifier_positive = [self.modifier_positive[0], modifier];
            self.current = None;
        }
    }

    pub fn apply_negative(&mut self, modifier: i32)
        requires
            old(self).wf(),
        ensures
            final(self).wf(),
            old(self).negative_step(*final(self), modifier as int),
    {
        let mut modifier: i32 = modifier;
        if modifier > 0 {
            modifier = -modifier;
        }
        if modifier <= self.modifier_negative[0] {
            self.modifier_negative = [modifier, self.modifier_negative[0]];
            self.current = None;
        } else if modifier <= self.modifier_negative[1] {
            self.modifier_negative = [self.modifier_negative[0], modifier];
            self.current = None;
        }
    }

    pub fn value(&mut self) -> (r: i32)
        requires
            old(self).wf(),
            old(self).total_fits(),
        ensures
            r as int == old(self).total(),
            final(self).wf(),
            old(self).read_step(*final(self), r),
    {
        if let Some(v) = self.current {
            return v;
        }
        let sum: i64 = self.ability.value() as i64 + self.modifier_positive[0] as i64
            + self.modifier_positive[1] as i64 + self.modifier_negative[0] as i64
            + self.modifier_negative[1] as i64;
        let v: i32 = sum as i32;
        self.current = Some(v);
        v
    }
}

/// Reading a modifier twice with no change in between gives the same value twice,
/// and the second read leaves the modifier as the first one did.
pub proof fn lemma_read_twice(
    m0: AbilityModifier,
    m1: AbilityModifier,
    r1: i32,
    m2: AbilityModifier,
    r2: i32,
)
    requires
        m0.wf(),
        m0.total_fits(),
        r1 as int == m0.total(),
        m1.wf(),
        m0.read_step(m1, r1),
        r2 as int == m1.total(),
        m1.read_step(m2, r2),
    ensures
        m1.total_fits(),
        r2 == r1,
        m2.same_state(m1),
{
}

/// A bonus that writes a slot clears the cache, so the next read gives the new
/// total; a bonus that writes none leaves the modifier as it was.
pub proof fn lemma_bonus_invalidates(m0: AbilityModifier, m1: AbilityModifier, m: int)
    requires
        m0.wf(),
        m0.positive_step(m1, m),
    ensures
        m1.wf(),
        m1.positive() != m0.positive() ==> m1.cached() is None,
        m1.positive() == m0.positive() ==> m1.total() == m0.total(),
        m1.cached() is None || m1.same_state(m0),
{
}

/// A penalty that writes a slot clears the cache, so the next read gives the new
/// total; a penalty that writes none leaves the modifier as it was.
pub proof fn lemma_penalty_invalidates(m0: AbilityModifier, m1: AbilityModifier, m: int)
    requires
        m0.wf(),
        m0.negative_step(m1, m),
    ensures
        m1.wf(),
        m1.negative() != m0.negative() ==> m1.cached() is None,
        m1.negative() == m0.negative() ==> m1.total() == m0.total(),
        m1.cached() is None || m1.same_state(m0),
{
}

/// A bonus equal to the largest one takes the first slot and moves the old
/// largest one to the second slot.
pub proof fn lemma_bonus_tie_takes_top(m0: AbilityModifier, m1: AbilityModifier, m: int)
    requires
        m0.wf(),
        m0.positive_step(m1, m),
        m == m0.positive().0,
    ensures
        m1.positive() == (m, m0.positive().0),
        m1.cached() is None,
{
}

/// A penalty has the same effect whichever sign it is given with.
pub proof fn lemma_penalty_sign(
    m0: AbilityModifier,
    m1: AbilityModifier,
    m2: AbilityModifier,
    m: int,
)
    requires
        m0.wf(),
        m0.negative_step(m1, m),
        m0.negative_step(m2, -m),
    ensures
        m1.same_state(m2),
{
}

impl From<Ability> for AbilityModifier {
    fn from(ability: Ability) -> (r: AbilityModifier)
        ensures
            r.wf(),
            r.ability() == ability,
            r.positive() == (0int, 0int),
            r.negative() == (0int, 0int),
            r.cached() == None::<i32>,
    {
        AbilityModifier {
            ability,
            modifier_positive: [0i32, 0i32],
            modifier_negative: [0i32, 0i32],
            current: None,
        }
    }
}

impl vstd::std_specs::convert::FromSpecImpl<Ability> for AbilityModifier {
    open spec fn obeys_from_spec() -> bool {
        true
    }

    closed spec fn from_spec(ability: Ability) -> AbilityModifier {
        AbilityModifier {
            ability,
            modifier_positive: [0i32, 0i32],
            modifier_negative: [0i32, 0i32],
            current: None,
        }
    }
}

} // verus!
