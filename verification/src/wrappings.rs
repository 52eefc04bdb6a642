use vstd::prelude::*;

verus! {

use crate::errors::Error;

/// A positional numeric argument of a system template. The content layer
/// resolves every random range before the engine sees it, so an argument is
/// always a concrete number here.
#[derive(Clone, Copy, Debug, PartialEq, Eq, Structural)]
pub struct Value(pub u16);

/// Target rule of a system template, resolved against the casting view.
#[derive(Clone, Copy, Debug, PartialEq, Eq, Structural)]
pub enum RequireTarget {
    Owner,
    Opponent,
    RandomOpponent,
    AllOpponents,
    AllCharactors,
}

impl RequireTarget {
    /// Decodes the wire code of a target rule; code 2 is unassigned.
    pub fn from_code(value: u8) -> (r: Result<RequireTarget, Error>)
        ensures
            r == match value {
                0u8 => Result::<RequireTarget, Error>::Ok(RequireTarget::Owner),
                1u8 => Result::<RequireTarget, Error>::Ok(RequireTarget::Opponent),
                3u8 => Result::<RequireTarget, Error>::Ok(RequireTarget::RandomOpponent),
                4u8 => Result::<RequireTarget, Error>::Ok(RequireTarget::AllOpponents),
                5u8 => Result::<RequireTarget, Error>::Ok(RequireTarget::AllCharactors),
                _ => Result::<RequireTarget, Error>::Err(Error::ResourceBrokenTargetPosition),
            },
    {
        match value {
            0 => Ok(RequireTarget::Owner),
            1 => Ok(RequireTarget::Opponent),
            3 => Ok(RequireTarget::RandomOpponent),
            4 => Ok(RequireTarget::AllOpponents),
            5 => Ok(RequireTarget::AllCharactors),
            _ => Err(Error::ResourceBrokenTargetPosition),
        }
    }
}

/// Identifier of one instruction of the closed effect set. `Instant*` effects
/// resolve at once; `Trigger*` effects arm on first resolution and then react
/// to matching log events until their duration counter runs out.
#[derive(Clone, Copy, Debug, PartialEq, Eq, Structural)]
pub enum SystemId {
    InstantDamage,
    InstantMultipleDamage,
    InstantArmorUp,
    InstantArmorDown,
    InstantShieldUp,
    InstantShieldDown,
    InstantHealing,
    InstantDrawCountUp,
    InstantDrawCountDown,
    InstantAttackUp,
    InstantAttackDown,
    InstantAttackWeakUp,
    InstantAttackWeakDown,
    InstantDefenseUp,
    InstantDefenseDown,
    InstantDefenseWeakUp,
    InstantDefenseWeakDown,
    InstantMaxHpUp,
    InstantMaxHpDown,
    InstantDrawCards,
    InstantDrawSelectCards,
    InstantDiscardCards,
    InstantDiscardSelectCards,
    InstantPowerCostDown,
    InstantChangePowerCost,
    TriggerRecoverHp,
    TriggerRecoverHpAttack,
    TriggerAttackUp,
    TriggerAttackDown,
}

/// Wire code of each system id.
pub open spec fn system_id_code(s: SystemId) -> u16 {
    match s {
        SystemId::InstantDamage => 0,
        SystemId::InstantMultipleDamage => 1,
        SystemId::InstantArmorUp => 2,
        SystemId::InstantArmorDown => 3,
        SystemId::InstantShieldUp => 4,
        SystemId::InstantShieldDown => 5,
        SystemId::InstantHealing => 6,
        SystemId::InstantDrawCountUp => 7,
        SystemId::InstantDrawCountDown => 8,
        SystemId::InstantAttackUp => 9,
        SystemId::InstantAttackDown => 10,
        SystemId::InstantAttackWeakUp => 11,
        SystemId::InstantAttackWeakDown => 12,
        SystemId::InstantDefenseUp => 13,
        SystemId::InstantDefenseDown => 14,
        SystemId::InstantDefenseWeakUp => 15,
        SystemId::InstantDefenseWeakDown => 16,
        SystemId::InstantMaxHpUp => 17,
        SystemId::InstantMaxHpDown => 18,
        SystemId::InstantDrawCards => 19,
        SystemId::InstantDrawSelectCards => 20,
        SystemId::InstantDiscardCards => 21,
        SystemId::InstantDiscardSelectCards => 22,
        SystemId::InstantPowerCostDown => 23,
        SystemId::InstantChangePowerCost => 24,
        SystemId::TriggerRecoverHp => 25,
        SystemId::TriggerRecoverHpAttack => 26,
        SystemId::TriggerAttackUp => 27,
        SystemId::TriggerAttackDown => 28,
    }
}

impl SystemId {
    /// Decodes a wire code; every code above 28 is broken content.
    pub fn from_code(value: u16) -> (r: Result<SystemId, Error>)
        ensures
            value <= 28 ==> r is Ok && system_id_code(r->Ok_0) == value,
            value > 28 ==> r == Result::<SystemId, Error>::Err(Error::ResourceBrokenSystemId),
    {
        match value {
            0 => Ok(SystemId::InstantDamage),
            1 => Ok(SystemId::InstantMultipleDamage),
            2 => Ok(SystemId::InstantArmorUp),
            3 => Ok(SystemId::InstantArmorDown),
            4 => Ok(SystemId::InstantShieldUp),
            5 => Ok(SystemId::InstantShieldDown),
            6 => Ok(SystemId::InstantHealing),
            7 => Ok(SystemId::InstantDrawCountUp),
            8 => Ok(SystemId::InstantDrawCountDown),
            9 => Ok(SystemId::InstantAttackUp),
            10 => Ok(SystemId::InstantAttackDown),
            11 => Ok(SystemId::InstantAttackWeakUp),
            12 => Ok(SystemId::InstantAttackWeakDown),
            13 => Ok(SystemId::InstantDefenseUp),
            14 => Ok(SystemId::InstantDefenseDown),
            15 => Ok(SystemId::InstantDefenseWeakUp),
            16 => Ok(SystemId::InstantDefenseWeakDown),
            17 => Ok(SystemId::InstantMaxHpUp),
            18 => Ok(SystemId::InstantMaxHpDown),
            19 => Ok(SystemId::InstantDrawCards),
            20 => Ok(SystemId::InstantDrawSelectCards),
            21 => Ok(SystemId::InstantDiscardCards),
            22 => Ok(SystemId::InstantDiscardSelectCards),
            23 => Ok(SystemId::InstantPowerCostDown),
            24 => Ok(SystemId::InstantChangePowerCost),
            25 => Ok(SystemId::TriggerRecoverHp),
            26 => Ok(SystemId::TriggerRecoverHpAttack),
            27 => Ok(SystemId::TriggerAttackUp),
            28 => Ok(SystemId::TriggerAttackDown),
            _ => Err(Error::ResourceBrokenSystemId),
        }
    }

    /// Encodes a system id back to its wire code.
    pub fn code(&self) -> (r: u16)
        ensures
            r == system_id_code(*self),
    {
        match self {
            SystemId::InstantDamage => 0,
            SystemId::InstantMultipleDamage => 1,
            SystemId::InstantArmorUp => 2,
            SystemId::InstantArmorDown => 3,
            SystemId::InstantShieldUp => 4,
            SystemId::InstantShieldDown => 5,
            SystemId::InstantHealing => 6,
            SystemId::InstantDrawCountUp => 7,
            SystemId::InstantDrawCountDown => 8,
            SystemId::InstantAttackUp => 9,
            SystemId::InstantAttackDown => 10,
            SystemId::InstantAttackWeakUp => 11,
            SystemId::InstantAttackWeakDown => 12,
            SystemId::InstantDefenseUp => 13,
            SystemId::InstantDefenseDown => 14,
            SystemId::InstantDefenseWeakUp => 15,
            SystemId::InstantDefenseWeakDown => 16,
            SystemId::InstantMaxHpUp => 17,
            SystemId::InstantMaxHpDown => 18,
            SystemId::InstantDrawCards => 19,
            SystemId::InstantDrawSelectCards => 20,
            SystemId::InstantDiscardCards => 21,
            SystemId::InstantDiscardSelectCards => 22,
            SystemId::InstantPowerCostDown => 23,
            SystemId::InstantChangePowerCost => 24,
            SystemId::TriggerRecoverHp => 25,
            SystemId::TriggerRecoverHpAttack => 26,
            SystemId::TriggerAttackUp => 27,
            SystemId::TriggerAttackDown => 28,
        }
    }
}

/// Duration rule of a durable system: the log-event tag it reacts to and how
/// many matching events it survives.
#[derive(Clone, Copy, Debug, PartialEq, Eq, Structural)]
pub struct Duration {
    pub trigger: u16,
    pub count: u16,
}

/// An immutable effect template: what to do (`system_id`), with which numeric
/// arguments, against whom, and — when durable — for how long.
#[derive(Debug)]
pub struct System {
    pub id: u16,
    pub system_id: SystemId,
    pub args: Vec<Value>,
    pub duration: Option<Duration>,
    pub target_type: RequireTarget,
}

/// Field-for-field equality of two system templates.
pub open spec fn sys_identical(a: System, b: System) -> bool {
    &&& a.id == b.id
    &&& a.system_id == b.system_id
    &&& a.args@ == b.args@
    &&& a.duration == b.duration
    &&& a.target_type == b.target_type
}

/// Element-wise equality of two system pools.
pub open spec fn pool_identical(a: Seq<System>, b: Seq<System>) -> bool {
    a.len() == b.len() && (forall|i: int| 0 <= i < a.len() ==> sys_identical(a[i], b[i]))
}

/// Copies a list of numeric arguments.
pub fn clone_values(v: &Vec<Value>) -> (r: Vec<Value>)
    ensures
        r@ == v@,
{
    let mut r: Vec<Value> = Vec::new();
    let mut i: usize = 0;
    while i < v.len()
        invariant
            i <= v.len(),
            r@ == v@.subrange(0, i as int),
        decreases v.len() - i,
    {
        r.push(v[i]);
        i += 1;
    }
    proof {
        assert(r@ =~= v@);
    }
    r
}

impl Clone for System {
    fn clone(&self) -> (r: Self)
        ensures
            sys_identical(r, *self),
    {
        System {
            id: self.id,
            system_id: self.system_id,
            args: clone_values(&self.args),
            duration: self.duration,
            target_type: self.target_type,
        }
    }
}

/// Copies a system pool.
pub fn clone_systems(v: &Vec<System>) -> (r: Vec<System>)
    ensures
        pool_identical(r@, v@),
{
    let mut r: Vec<System> = Vec::new();
    let mut i: usize = 0;
    while i < v.len()
        invariant
            i <= v.len(),
            r@.len() == i,
            forall|j: int| 0 <= j < i ==> sys_identical(r@[j], v@[j]),
        decreases v.len() - i,
    {
        r.push(v[i].clone());
        i += 1;
    }
    r
}

/// Class of an owned item: equipment fires its systems at battle onset, props
/// are consumed by an explicit player action.
#[derive(Clone, Copy, Debug, PartialEq, Eq, Structural)]
pub enum ItemClass {
    Equipment,
    Props,
}

impl ItemClass {
    /// Decodes the wire code of an item class.
    pub fn from_code(value: u8) -> (r: Result<ItemClass, Error>)
        ensures
            r == match value {
                0u8 => Result::<ItemClass, Error>::Ok(ItemClass::Equipment),
                1u8 => Result::<ItemClass, Error>::Ok(ItemClass::Props),
                _ => Result::<ItemClass, Error>::Err(Error::ResourceBrokenItemClass),
            },
    {
        if value == 0 {
            Ok(ItemClass::Equipment)
        } else if value == 1 {
            Ok(ItemClass::Props)
        } else {
            Err(Error::ResourceBrokenItemClass)
        }
    }
}

/// An owned item: a class, trade metadata, and the systems it casts.
#[derive(Debug)]
pub struct Item {
    pub id: u16,
    pub class: ItemClass,
    pub quality: u8,
    pub weight: u8,
    pub price: u16,
    pub system_pool: Vec<System>,
}

/// Field-for-field equality of two items.
pub open spec fn item_identical(a: Item, b: Item) -> bool {
    &&& a.id == b.id
    &&& a.class == b.class
    &&& a.quality == b.quality
    &&& a.weight == b.weight
    &&& a.price == b.price
    &&& pool_identical(a.system_pool@, b.system_pool@)
}

impl Clone for Item {
    fn clone(&self) -> (r: Self)
        ensures
            item_identical(r, *self),
    {
        Item {
            id: self.id,
            class: self.class,
            quality: self.quality,
            weight: self.weight,
            price: self.price,
            system_pool: clone_systems(&self.system_pool),
        }
    }
}

/// A concrete card: its battle-scoped identity (`offset`), static metadata,
/// and the systems played with it.
#[derive(Debug)]
pub struct Card {
    pub offset: usize,
    pub id: u16,
    pub class: u8,
    pub power_cost: u8,
    pub price: u16,
    pub system_pool: Vec<System>,
}

/// Field-for-field equality of two cards.
pub open spec fn card_identical(a: Card, b: Card) -> bool {
    &&& a.offset == b.offset
    &&& a.id == b.id
    &&& a.class == b.class
    &&& a.power_cost == b.power_cost
    &&& a.price == b.price
    &&& pool_identical(a.system_pool@, b.system_pool@)
}

impl Clone for Card {
    fn clone(&self) -> (r: Self)
        ensures
            card_identical(r, *self),
    {
        Card {
            offset: self.offset,
            id: self.id,
            class: self.class,
            power_cost: self.power_cost,
            price: self.price,
            system_pool: clone_systems(&self.system_pool),
        }
    }
}

/// One enemy action: an ordered system list, optionally shuffled when drawn.
#[derive(Debug)]
pub struct Action {
    pub random_select: bool,
    pub system_pool: Vec<System>,
}

impl Clone for Action {
    fn clone(&self) -> (r: Self)
        ensures
            r.random_select == self.random_select,
            pool_identical(r.system_pool@, self.system_pool@),
    {
        Action {
            random_select: self.random_select,
            system_pool: clone_systems(&self.system_pool),
        }
    }
}

/// The precomputed strategy of an enemy: ordered action lists, optionally
/// shuffled each time the strategy is rebuilt.
#[derive(Debug)]
pub struct ActionStrategy {
    pub random_select: bool,
    pub actions: Vec<Action>,
}

/// A concrete enemy template: combat stats and its action strategy.
#[derive(Debug)]
pub struct Enemy {
    pub id: u16,
    pub rank: u8,
    pub hp: u16,
    pub armor: u8,
    pub shield: u8,
    pub attack: u8,
    pub attack_weak: u8,
    pub defense: u8,
    pub defense_weak: u8,
    pub strategy: ActionStrategy,
}

/// A concrete warrior template: combat stats, resources, the signature card,
/// the permanent deck and the owned items.
#[derive(Debug)]
pub struct Warrior {
    pub id: u16,
    pub charactor_card: Card,
    pub hp: u16,
    pub gold: u16,
    pub power: u8,
    pub motion: u8,
    pub view_range: u8,
    pub armor: u8,
    pub shield: u8,
    pub attack: u8,
    pub attack_weak: u8,
    pub defense: u8,
    pub defense_weak: u8,
    pub physique: u8,
    pub draw_count: u8,
    pub deck_status: Vec<Card>,
    pub package_status: Vec<Item>,
}

/// A consumable bundle of stat boosts, extra cards and extra items applied to
/// a warrior when a session begins.
#[derive(Debug)]
pub struct Potion {
    pub count: u8,
    pub hp: u8,
    pub gold: u8,
    pub power: u8,
    pub motion: u8,
    pub view_range: u8,
    pub armor: u8,
    pub shield: u8,
    pub attack: u8,
    pub defense: u8,
    pub physique: u8,
    pub draw_count: u8,
    pub deck_status: Vec<Card>,
    pub package_status: Vec<Item>,
}

/// A coordinate on the overworld grid.
#[derive(Clone, Copy, Debug, PartialEq, Eq, Structural)]
pub struct Point {
    pub x: u8,
    pub y: u8,
}

impl Point {
    /// Builds a point from its two coordinates.
    pub fn from_xy(x: u8, y: u8) -> (r: Self)
        ensures
            r.x == x && r.y == y,
    {
        Point { x, y }
    }
}

/// A point with a rectangular halo around it, used for hit-testing nodes that
/// span more than one grid cell.
#[derive(Clone, Copy, Debug, PartialEq, Eq, Structural)]
pub struct SizedPoint {
    pub point: Point,
    pub x_size: u8,
    pub y_size: u8,
}

impl SizedPoint {
    /// Builds a sized point from its center and halo extents.
    pub fn new(point: Point, x_size: u8, y_size: u8) -> (r: Self)
        ensures
            r.point == point && r.x_size == x_size && r.y_size == y_size,
    {
        SizedPoint { point, x_size, y_size }
    }

    /// Column of the center.
    pub fn x(&self) -> (r: u8)
        ensures
            r == self.point.x,
    {
        self.point.x
    }

    /// Row of the center.
    pub fn y(&self) -> (r: u8)
        ensures
            r == self.point.y,
    {
        self.point.y
    }

    /// Moves the center by the given amounts, keeping the halo.
    pub fn shift(&self, x: u8, y: u8) -> (r: Self)
        requires
            self.point.x + x <= u8::MAX,
            self.point.y + y <= u8::MAX,
        ensures
            r.point.x == self.point.x + x,
            r.point.y == self.point.y + y,
            r.x_size == self.x_size,
            r.y_size == self.y_size,
    {
        SizedPoint {
            point: Point::from_xy(self.point.x + x, self.point.y + y),
            x_size: self.x_size,
            y_size: self.y_size,
        }
    }

    /// Whether `point` lies in the halo: some shift within the extents,
    /// clamped at the grid border on the low side, lands exactly on it.
    pub open spec fn covers(&self, point: Point) -> bool {
        exists|dx: int, dy: int|
            -(self.x_size as int) <= dx <= self.x_size as int
                && -(self.y_size as int) <= dy <= self.y_size as int
                && point.x == (#[trigger] vstd::math::max(self.point.x + dx, 0))
                && point.y == (#[trigger] vstd::math::max(self.point.y + dy, 0))
    }

    /// Hit-test of `point` against the halo.
    pub fn contains(&self, point: &Point) -> (r: bool)
        ensures
            r == self.covers(*point),
    {
        let x = self.point.x as i16;
        let y = self.point.y as i16;
        let x_size = self.x_size as i16;
        let y_size = self.y_size as i16;
        let mut dy: i16 = -y_size;
        while dy <= y_size
            invariant
                -(y_size as int) <= dy <= y_size + 1,
                x == self.point.x as int,
                y == self.point.y as int,
                x_size == self.x_size as int,
                y_size == self.y_size as int,
                forall|ey: int, ex: int|
                    -(y_size as int) <= ey < dy && -(x_size as int) <= ex <= x_size as int
                        ==> !(point.x == (#[trigger] vstd::math::max(x + ex, 0)) && point.y
                        == (#[trigger] vstd::math::max(y + ey, 0))),
            decreases y_size + 1 - dy,
        {
            let new_y = if y + dy > 0 {
                y + dy
            } else {
                0
            };
            let mut dx: i16 = -x_size;
            while dx <= x_size
                invariant
                    -(x_size as int) <= dx <= x_size + 1,
                    x == self.point.x as int,
                    y == self.point.y as int,
                    x_size == self.x_size as int,
                    y_size == self.y_size as int,
                    -(y_size as int) <= dy <= y_size as int,
                    new_y == vstd::math::max(y + dy, 0),
                    0 <= new_y <= 510,
                    forall|ex: int|
                        -(x_size as int) <= ex < dx
                            ==> !(point.x == (#[trigger] vstd::math::max(x + ex, 0))
                            && point.y == new_y as int),
                decreases x_size + 1 - dx,
            {
                let new_x = if x + dx > 0 {
                    x + dx
                } else {
                    0
                };
                if point.x as i16 == new_x && point.y as i16 == new_y {
                    proof {
                        assert(-(self.x_size as int) <= dx as int <= self.x_size as int);
                        assert(-(self.y_size as int) <= dy as int <= self.y_size as int);
                        assert(point.x == vstd::math::max(self.point.x + dx as int, 0));
                        assert(point.y == vstd::math::max(self.point.y + dy as int, 0));
                        assert(self.covers(*point));
                    }
                    return true;
                }
                dx += 1;
            }
            dy += 1;
        }
        proof {
            assert(!self.covers(*point));
        }
        false
    }
}

} // verus!
