//! Mineable resources: per-ore state (value, lock, count, automation) and
//! the two mutations the engine performs on an ore — mining and applying a
//! purchased upgrade's effect.

use vstd::prelude::*;
use vstd::string::StringExecFns;

use crate::arith::{sat_mul, saturating_mul};
use crate::shop::UpgradeType;

verus! {

/// Stable identity of a mineable resource; upgrades target an ore by this
/// identity rather than by reference.
#[derive(Clone, Copy, PartialEq, Eq, Structural, Debug)]
pub enum OreType {
    Coal,
    Iron,
    Platinum,
    Emerald,
    Ruby,
    Sapphire,
    Gold,
    Diamond,
}

/// One mineable resource and its mutable state.
pub struct Ore {
    /// Display name, fixed at creation.
    pub name: String,
    /// Identity by which upgrades target this ore.
    pub ore_type: OreType,
    /// Currency earned per unit mined; only changed by the double-value
    /// upgrade effect.
    pub value: u32,
    /// While true, mining this ore is a silent no-op.
    pub locked: bool,
    /// Total units mined; only increased by successful mining.
    pub count: u32,
    /// Key that triggers mining this ore.
    pub trigger: char,
    /// Number of automation upgrades applied; 0 means fully manual.
    pub auto_miners: u32,
}

/// Mathematical state of an `Ore`.
pub ghost struct OreModel {
    pub name: Seq<char>,
    pub ore_type: OreType,
    pub value: u32,
    pub locked: bool,
    pub count: u32,
    pub trigger: char,
    pub auto_miners: u32,
}

impl View for Ore {
    type V = OreModel;

    open spec fn view(&self) -> OreModel {
        OreModel {
            name: self.name@,
            ore_type: self.ore_type,
            value: self.value,
            locked: self.locked,
            count: self.count,
            trigger: self.trigger,
            auto_miners: self.auto_miners,
        }
    }
}

impl OreModel {
    /// The ore after one mining tick: one more unit mined, unless locked,
    /// in which case nothing changes. The count saturates at `u32::MAX`.
    pub open spec fn mined(self) -> OreModel {
        if self.locked {
            self
        } else {
            OreModel { count: self.count.saturating_add(1), ..self }
        }
    }

    /// Currency earned by one manual mining tick: the ore's value, or
    /// nothing while locked.
    pub open spec fn mine_payout(self) -> u32 {
        if self.locked {
            0
        } else {
            self.value
        }
    }

    /// Currency earned by one automated mining tick: the ore's value scaled
    /// by its automation level, or nothing while locked.
    pub open spec fn auto_payout(self) -> u32 {
        if self.locked {
            0
        } else {
            sat_mul(self.value, self.auto_miners)
        }
    }

    /// The ore after one upgrade effect is applied: exactly one field
    /// changes, chosen by the effect kind.
    pub open spec fn upgraded(self, kind: UpgradeType) -> OreModel {
        match kind {
            UpgradeType::AutoMine => OreModel {
                auto_miners: self.auto_miners.saturating_add(1),
                ..self
            },
            UpgradeType::DoubleValue => OreModel { value: sat_mul(self.value, 2), ..self },
            UpgradeType::UnlockOre => OreModel { locked: false, ..self },
        }
    }
}

impl Ore {
    /// A fresh ore with nothing mined yet and no automation.
    pub fn new(name: &str, value: u32, trigger: char, locked: bool, ore_type: OreType) -> (r: Ore)
        ensures
            r@ == (OreModel {
                name: name@,
                ore_type,
                value,
                locked,
                count: 0,
                trigger,
                auto_miners: 0,
            }),
    {
        Ore {
            name: String::from_str(name),
            ore_type,
            value,
            locked,
            count: 0,
            trigger,
            auto_miners: 0,
        }
    }

    /// One manual mining tick: while locked, a silent no-op; otherwise one
    /// more unit is mined and the ore's value is credited to `money`.
    /// Count and balance saturate at `u32::MAX` instead of wrapping.
    pub fn mine(&mut self, money: &mut u32)
        ensures
            final(self)@ == old(self)@.mined(),
            *final(money) == old(money).saturating_add(old(self)@.mine_payout()),
    {
        if self.locked {
            return;
        }
        self.count = self.count.saturating_add(1);
        *money = money.saturating_add(self.value);
    }

    /// One automated mining tick: as `mine`, but the payout is the ore's
    /// value times its automation level (so zero without any automation).
    pub fn automine(&mut self, money: &mut u32)
        ensures
            final(self)@ == old(self)@.mined(),
            *final(money) == old(money).saturating_add(old(self)@.auto_payout()),
    {
        if self.locked {
            return;
        }
        self.count = self.count.saturating_add(1);
        let payout = saturating_mul(self.value, self.auto_miners);
        *money = money.saturating_add(payout);
    }

    /// Applies one upgrade effect: raise the automation level by one,
    /// double the per-unit value, or unlock the ore. No other field is
    /// touched.
    pub fn upgrade(&mut self, upgrade_type: &UpgradeType)
        ensures
            final(self)@ == old(self)@.upgraded(*upgrade_type),
    {
        match upgrade_type {
            UpgradeType::AutoMine => {
                self.auto_miners = self.auto_miners.saturating_add(1);
            },
            UpgradeType::DoubleValue => {
                self.value = saturating_mul(self.value, 2);
            },
            UpgradeType::UnlockOre => {
                self.locked = false;
            },
        }
    }
}

/// The models of the ores in the starting catalog, in display order: coal
/// starts unlocked, everything else locked.
pub open spec fn starting_ores_model() -> Seq<OreModel> {
    seq![
        OreModel {
            name: "Coal"@,
            ore_type: OreType::Coal,
            value: 1,
            locked: false,
            count: 0,
            trigger: 'c',
            auto_miners: 0,
        },
        OreModel {
            name: "Iron"@,
            ore_type: OreType::Iron,
            value: 5,
            locked: true,
            count: 0,
            trigger: 'i',
            auto_miners: 0,
        },
        OreModel {
            name: "Platinum"@,
            ore_type: OreType::Platinum,
            value: 10,
            locked: true,
            count: 0,
            trigger: 'p',
            auto_miners: 0,
        },
        OreModel {
            name: "Emerald"@,
            ore_type: OreType::Emerald,
            value: 20,
            locked: true,
            count: 0,
            trigger: 'e',
            auto_miners: 0,
        },
        OreModel {
            name: "Ruby"@,
            ore_type: OreType::Ruby,
            value: 35,
            locked: true,
            count: 0,
            trigger: 'r',
            auto_miners: 0,
        },
        OreModel {
            name: "Sapphire"@,
            ore_type: OreType::Sapphire,
            value: 50,
            locked: true,
            count: 0,
            trigger: 's',
            auto_miners: 0,
        },
        OreModel {
            name: "Gold"@,
            ore_type: OreType::Gold,
            value: 70,
            locked: true,
            count: 0,
            trigger: 'g',
            auto_miners: 0,
        },
        OreModel {
            name: "Diamond"@,
            ore_type: OreType::Diamond,
            value: 100,
            locked: true,
            count: 0,
            trigger: 'd',
            auto_miners: 0,
        },
    ]
}

/// The starting resource catalog, in display order.
pub fn starting_ores() -> (v: Vec<Ore>)
    ensures
        v@.len() == starting_ores_model().len(),
        forall|i: int| 0 <= i < v@.len() ==> #[trigger] v@[i]@ == starting_ores_model()[i],
{
    let mut v: Vec<Ore> = Vec::new();
    v.push(Ore::new("Coal", 1, 'c', false, OreType::Coal));
    v.push(Ore::new("Iron", 5, 'i', true, OreType::Iron));
    v.push(Ore::new("Platinum", 10, 'p', true, OreType::Platinum));
    v.push(Ore::new("Emerald", 20, 'e', true, OreType::Emerald));
    v.push(Ore::new("Ruby", 35, 'r', true, OreType::Ruby));
    v.push(Ore::new("Sapphire", 50, 's', true, OreType::Sapphire));
    v.push(Ore::new("Gold", 70, 'g', true, OreType::Gold));
    v.push(Ore::new("Diamond", 100, 'd', true, OreType::Diamond));
    v
}

} // verus!
