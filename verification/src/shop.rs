//! Purchasable upgrades: each targets one ore with one effect, has a fixed
//! price, and can be bought exactly once. Visibility uses a wider threshold
//! than purchase, so upcoming upgrades are shown before they are affordable.

use vstd::prelude::*;
use vstd::string::StringExecFns;

use crate::ore::OreType;

verus! {

/// The effect a purchased upgrade applies to its target ore.
#[derive(Clone, Copy, PartialEq, Eq, Structural, Debug)]
pub enum UpgradeType {
    /// Raise the target ore's automation level by one.
    AutoMine,
    /// Double the target ore's per-unit value.
    DoubleValue,
    /// Unlock the target ore for mining.
    UnlockOre,
}

/// One purchasable upgrade and its mutable state.
pub struct Upgrade {
    /// Display label, fixed at creation.
    pub desc: String,
    /// Identity of the ore this upgrade targets.
    pub ore_type: OreType,
    /// Price in currency, fixed at creation.
    pub cost: u32,
    /// Becomes true exactly once, on a successful purchase.
    pub bought: bool,
    /// The effect applied to the target ore on purchase.
    pub upgrade_type: UpgradeType,
}

/// Mathematical state of an `Upgrade`.
pub ghost struct UpgradeModel {
    pub desc: Seq<char>,
    pub ore_type: OreType,
    pub cost: u32,
    pub bought: bool,
    pub upgrade_type: UpgradeType,
}

impl View for Upgrade {
    type V = UpgradeModel;

    open spec fn view(&self) -> UpgradeModel {
        UpgradeModel {
            desc: self.desc@,
            ore_type: self.ore_type,
            cost: self.cost,
            bought: self.bought,
            upgrade_type: self.upgrade_type,
        }
    }
}

impl UpgradeModel {
    /// Shop visibility: not yet bought, and the cost is under twice the
    /// player's balance — the affordability horizon that shows an upgrade
    /// before it can actually be bought.
    pub open spec fn is_visible(self, money: u32) -> bool {
        !self.bought && self.cost < 2 * money
    }

    /// This upgrade after a successful purchase.
    pub open spec fn purchased(self) -> UpgradeModel {
        UpgradeModel { bought: true, ..self }
    }
}

impl Upgrade {
    /// A fresh, unpurchased upgrade.
    pub fn new(desc: &str, ore_type: OreType, cost: u32, upgrade_type: UpgradeType) -> (r: Upgrade)
        ensures
            r@ == (UpgradeModel { desc: desc@, ore_type, cost, bought: false, upgrade_type }),
    {
        Upgrade { desc: String::from_str(desc), ore_type, cost, bought: false, upgrade_type }
    }

    /// Whether the shop offers this upgrade at the given balance.
    pub fn visible(&self, money: u32) -> (r: bool)
        ensures
            r == self@.is_visible(money),
    {
        !self.bought && (self.cost as u64) < 2 * (money as u64)
    }

    /// Attempts the purchase: succeeds — marking the upgrade bought and
    /// deducting its cost — exactly when the cost is strictly under the
    /// balance; otherwise fails and changes nothing.
    pub fn buy(&mut self, money: &mut u32) -> (r: Result<(), ()>)
        ensures
            r is Ok <==> old(self).cost < *old(money),
            r is Ok ==> final(self)@ == old(self)@.purchased() && *final(money) == *old(money)
                - old(self).cost,
            r is Err ==> final(self)@ == old(self)@ && *final(money) == *old(money),
    {
        if self.cost < *money {
            self.bought = true;
            *money -= self.cost;
            return Ok(());
        }
        Err(())
    }
}

/// The models of the upgrades in the starting catalog, in display order;
/// costs rise with game progression.
pub open spec fn starting_upgrades_model() -> Seq<UpgradeModel> {
    seq![
        UpgradeModel {
            desc: "coal double value"@,
            ore_type: OreType::Coal,
            cost: 110,
            bought: false,
            upgrade_type: UpgradeType::DoubleValue,
        },
        UpgradeModel {
            desc: "unlock iron"@,
            ore_type: OreType::Iron,
            cost: 450,
            bought: false,
            upgrade_type: UpgradeType::UnlockOre,
        },
        UpgradeModel {
            desc: "iron double value"@,
            ore_type: OreType::Iron,
            cost: 1200,
            bought: false,
            upgrade_type: UpgradeType::DoubleValue,
        },
        UpgradeModel {
            desc: "unlock platinum"@,
            ore_type: OreType::Platinum,
            cost: 2600,
            bought: false,
            upgrade_type: UpgradeType::UnlockOre,
        },
        UpgradeModel {
            desc: "platinum double value"@,
            ore_type: OreType::Platinum,
            cost: 5500,
            bought: false,
            upgrade_type: UpgradeType::DoubleValue,
        },
        UpgradeModel {
            desc: "unlock emerald"@,
            ore_type: OreType::Emerald,
            cost: 10800,
            bought: false,
            upgrade_type: UpgradeType::UnlockOre,
        },
        UpgradeModel {
            desc: "emerald double value"@,
            ore_type: OreType::Emerald,
            cost: 14700,
            bought: false,
            upgrade_type: UpgradeType::DoubleValue,
        },
        UpgradeModel {
            desc: "unlock ruby"@,
            ore_type: OreType::Ruby,
            cost: 30400,
            bought: false,
            upgrade_type: UpgradeType::UnlockOre,
        },
        UpgradeModel {
            desc: "ruby double value"@,
            ore_type: OreType::Ruby,
            cost: 35600,
            bought: false,
            upgrade_type: UpgradeType::DoubleValue,
        },
        UpgradeModel {
            desc: "unlock sapphire"@,
            ore_type: OreType::Sapphire,
            cost: 50900,
            bought: false,
            upgrade_type: UpgradeType::UnlockOre,
        },
        UpgradeModel {
            desc: "sapphire double value"@,
            ore_type: OreType::Sapphire,
            cost: 75500,
            bought: false,
            upgrade_type: UpgradeType::DoubleValue,
        },
        UpgradeModel {
            desc: "unlock gold"@,
            ore_type: OreType::Gold,
            cost: 102000,
            bought: false,
            upgrade_type: UpgradeType::UnlockOre,
        },
        UpgradeModel {
            desc: "gold double value"@,
            ore_type: OreType::Gold,
            cost: 140400,
            bought: false,
            upgrade_type: UpgradeType::DoubleValue,
        },
        UpgradeModel {
            desc: "unlock diamond"@,
            ore_type: OreType::Diamond,
            cost: 200000,
            bought: false,
            upgrade_type: UpgradeType::UnlockOre,
        },
        UpgradeModel {
            desc: "diamond double value"@,
            ore_type: OreType::Diamond,
            cost: 220000,
            bought: false,
            upgrade_type: UpgradeType::DoubleValue,
        },
    ]
}

/// The starting upgrade catalog, in display order.
pub fn starting_upgrades() -> (v: Vec<Upgrade>)
    ensures
        v@.len() == starting_upgrades_model().len(),
        forall|i: int| 0 <= i < v@.len() ==> #[trigger] v@[i]@ == starting_upgrades_model()[i],
{
    let mut v: Vec<Upgrade> = Vec::new();
    v.push(Upgrade::new("coal double value", OreType::Coal, 110, UpgradeType::DoubleValue));
    v.push(Upgrade::new("unlock iron", OreType::Iron, 450, UpgradeType::UnlockOre));
    v.push(Upgrade::new("iron double value", OreType::Iron, 1200, UpgradeType::DoubleValue));
    v.push(Upgrade::new("unlock platinum", OreType::Platinum, 2600, UpgradeType::UnlockOre));
    v.push(Upgrade::new("platinum double value", OreType::Platinum, 5500, UpgradeType::DoubleValue));
    v.push(Upgrade::new("unlock emerald", OreType::Emerald, 10800, UpgradeType::UnlockOre));
    v.push(Upgrade::new("emerald double value", OreType::Emerald, 14700, UpgradeType::DoubleValue));
    v.push(Upgrade::new("unlock ruby", OreType::Ruby, 30400, UpgradeType::UnlockOre));
    v.push(Upgrade::new("ruby double value", OreType::Ruby, 35600, UpgradeType::DoubleValue));
    v.push(Upgrade::new("unlock sapphire", OreType::Sapphire, 50900, UpgradeType::UnlockOre));
    v.push(Upgrade::new("sapphire double value", OreType::Sapphire, 75500, UpgradeType::DoubleValue));
    v.push(Upgrade::new("unlock gold", OreType::Gold, 102000, UpgradeType::UnlockOre));
    v.push(Upgrade::new("gold double value", OreType::Gold, 140400, UpgradeType::DoubleValue));
    v.push(Upgrade::new("unlock diamond", OreType::Diamond, 200000, UpgradeType::UnlockOre));
    v.push(Upgrade::new("diamond double value", OreType::Diamond, 220000, UpgradeType::DoubleValue));
    v
}

} // verus!
