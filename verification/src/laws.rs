//! Laws of the economy, stated over the ghost model and proved once and for
//! all: monotonicity of progress, lock gating, the asymmetry between the
//! visibility and purchase thresholds, irreversibility of purchases, and
//! isolation of upgrade effects.

use vstd::prelude::*;

use crate::arith::sat_mul;
use crate::engine::{
    apply_upgrade_to, mine_step, nth_visible, ore_by_trigger, ore_by_type, purchase_step,
    run_spec, step_spec, visible_at, Action, AppModel,
};
use crate::ore::{OreModel, OreType};
use crate::shop::{UpgradeModel, UpgradeType};

verus! {

/// A found trigger index is in range and names the first matching ore.
proof fn lemma_ore_by_trigger_props(ores: Seq<OreModel>, key: char, i: int)
    ensures
        ore_by_trigger(ores, key, i) matches Some(j) ==> i <= j < ores.len() && ores[j].trigger
            == key,
    decreases ores.len() - i,
{
    if 0 <= i < ores.len() && ores[i].trigger != key {
        lemma_ore_by_trigger_props(ores, key, i + 1);
    }
}

/// A found identity index is in range and names a matching ore.
proof fn lemma_ore_by_type_props(ores: Seq<OreModel>, target: OreType, i: int)
    ensures
        ore_by_type(ores, target, i) matches Some(j) ==> i <= j < ores.len() && ores[j].ore_type
            == target,
    decreases ores.len() - i,
{
    if 0 <= i < ores.len() && ores[i].ore_type != target {
        lemma_ore_by_type_props(ores, target, i + 1);
    }
}

/// A found visible index is in range and names a visible upgrade.
proof fn lemma_nth_visible_props(ups: Seq<UpgradeModel>, money: u32, n: int, i: int)
    ensures
        nth_visible(ups, money, n, i) matches Some(j) ==> i <= j < ups.len()
            && ups[j].is_visible(money),
    decreases ups.len() - i,
{
    if 0 <= i < ups.len() {
        if ups[i].is_visible(money) {
            if n != 0 {
                lemma_nth_visible_props(ups, money, n - 1, i + 1);
            }
        } else {
            lemma_nth_visible_props(ups, money, n, i + 1);
        }
    }
}

/// Progress order on game states: the second state has mined at least as
/// much of every ore, at at least the same per-unit value.
pub open spec fn progress_le(m1: AppModel, m2: AppModel) -> bool {
    &&& m1.ores.len() == m2.ores.len()
    &&& forall|i: int|
        0 <= i < m1.ores.len() ==> (#[trigger] m2.ores[i]).count >= m1.ores[i].count
            && m2.ores[i].value >= m1.ores[i].value
}

/// Law (monotonicity, one step): no action decreases any ore's mined count
/// or per-unit value, and only a purchase can lower the balance.
pub proof fn lemma_step_monotone(m: AppModel, a: Action)
    ensures
        progress_le(m, step_spec(m, a)),
        !(a is PurchaseAtOfferedIndex) ==> step_spec(m, a).money >= m.money,
{
    match a {
        Action::MineByKey(key) => {
            lemma_ore_by_trigger_props(m.ores, key, 0);
        },
        Action::PurchaseAtOfferedIndex(n) => {
            match visible_at(m.upgrades, m.money, n as int) {
                Some(j) => {
                    lemma_ore_by_type_props(m.ores, m.upgrades[j].ore_type, 0);
                },
                None => {},
            }
        },
        Action::NavigateTab(_) => {},
        Action::Quit => {},
    }
}

/// Whether a sequence of actions contains no purchase attempt.
pub open spec fn no_purchase(actions: Seq<Action>) -> bool {
    forall|i: int| 0 <= i < actions.len() ==> !((#[trigger] actions[i]) is PurchaseAtOfferedIndex)
}

/// Law (monotonicity): over any action sequence, every ore's mined count
/// and per-unit value are non-decreasing; the balance too is non-decreasing
/// as long as the sequence holds no purchase — a successful purchase, which
/// deducts its cost, is the one way the balance falls.
pub proof fn lemma_run_monotone(m: AppModel, actions: Seq<Action>)
    ensures
        progress_le(m, run_spec(m, actions)),
        no_purchase(actions) ==> run_spec(m, actions).money >= m.money,
    decreases actions.len(),
{
    if actions.len() == 0 {
    } else {
        let m1 = step_spec(m, actions[0]);
        let rest = actions.drop_first();
        let r = run_spec(m, actions);
        lemma_step_monotone(m, actions[0]);
        lemma_run_monotone(m1, rest);
        assert(r == run_spec(m1, rest));
        assert forall|j: int|
            0 <= j < m.ores.len() implies (#[trigger] r.ores[j]).count >= m.ores[j].count
            && r.ores[j].value >= m.ores[j].value by {
            assert(m1.ores[j].count >= m.ores[j].count && m1.ores[j].value >= m.ores[j].value);
        }
        if no_purchase(actions) {
            assert forall|j: int|
                0 <= j < rest.len() implies !((#[trigger] rest[j]) is PurchaseAtOfferedIndex) by {
                assert(rest[j] == actions[j + 1]);
            }
        }
    }
}

/// Law (lock gating): when the trigger key selects a locked ore, mining
/// changes nothing at all — neither its count nor the balance.
pub proof fn lemma_lock_gating(m: AppModel, key: char, i: int)
    requires
        ore_by_trigger(m.ores, key, 0) == Some(i),
        m.ores[i].locked,
    ensures
        mine_step(m, key) == m,
{
    lemma_ore_by_trigger_props(m.ores, key, 0);
    assert(m.ores.update(i, m.ores[i].mined()) =~= m.ores);
}

/// Law (threshold asymmetry): an unpurchased upgrade costing exactly the
/// balance is already visible — the horizon is twice the balance — yet its
/// purchase fails, which needs the cost strictly below the balance. (A zero
/// balance is left out: at zero, a free upgrade is not even visible.)
pub proof fn lemma_threshold_asymmetry(u: UpgradeModel, money: u32)
    requires
        !u.bought,
        u.cost == money,
        money > 0,
    ensures
        u.is_visible(money),
        !(u.cost < money),
{
}

/// Law (threshold asymmetry, at the engine): a purchase whose selected
/// upgrade is visible but not affordable leaves the state unchanged.
pub proof fn lemma_unaffordable_purchase(m: AppModel, index: int, j: int)
    requires
        visible_at(m.upgrades, m.money, index) == Some(j),
        !(m.upgrades[j].cost < m.money),
    ensures
        purchase_step(m, index) == m,
{
    lemma_nth_visible_props(m.upgrades, m.money, index, 0);
}

/// Law (no repurchase): a purchased upgrade is never visible again, at any
/// balance.
pub proof fn lemma_purchased_not_visible(u: UpgradeModel, money: u32)
    requires
        u.bought,
    ensures
        !u.is_visible(money),
{
}

/// Law (no repurchase): the upgrade a purchase selects is always drawn from
/// the visible list, so it is never one already purchased.
pub proof fn lemma_selected_unbought(ups: Seq<UpgradeModel>, money: u32, n: int, j: int)
    requires
        visible_at(ups, money, n) == Some(j),
    ensures
        0 <= j < ups.len(),
        ups[j].is_visible(money),
        !ups[j].bought,
{
    lemma_nth_visible_props(ups, money, n, 0);
}

/// Law (no repurchase): once bought, always bought — no action resets a
/// purchased flag.
pub proof fn lemma_purchased_stays(m: AppModel, a: Action, j: int)
    requires
        0 <= j < m.upgrades.len(),
        m.upgrades[j].bought,
    ensures
        step_spec(m, a).upgrades.len() == m.upgrades.len(),
        step_spec(m, a).upgrades[j].bought,
{
    match a {
        Action::PurchaseAtOfferedIndex(n) => {
            lemma_nth_visible_props(m.upgrades, m.money, n as int, 0);
        },
        _ => {},
    }
}

/// Law (static catalogs): no action adds, removes, or reorders ores or
/// upgrades, changes an ore's identity (name, type, trigger key), or
/// changes an upgrade's label, target, cost, or effect kind.
pub proof fn lemma_catalogs_static(m: AppModel, a: Action)
    ensures
        step_spec(m, a).ores.len() == m.ores.len(),
        step_spec(m, a).upgrades.len() == m.upgrades.len(),
        forall|i: int|
            0 <= i < m.ores.len() ==> (#[trigger] step_spec(m, a).ores[i]).name == m.ores[i].name
                && step_spec(m, a).ores[i].ore_type == m.ores[i].ore_type && step_spec(
                m,
                a,
            ).ores[i].trigger == m.ores[i].trigger,
        forall|j: int|
            0 <= j < m.upgrades.len() ==> (#[trigger] step_spec(m, a).upgrades[j]).desc
                == m.upgrades[j].desc && step_spec(m, a).upgrades[j].ore_type
                == m.upgrades[j].ore_type && step_spec(m, a).upgrades[j].cost
                == m.upgrades[j].cost && step_spec(m, a).upgrades[j].upgrade_type
                == m.upgrades[j].upgrade_type,
{
    match a {
        Action::MineByKey(key) => {
            lemma_ore_by_trigger_props(m.ores, key, 0);
        },
        Action::PurchaseAtOfferedIndex(n) => {
            lemma_nth_visible_props(m.upgrades, m.money, n as int, 0);
            match visible_at(m.upgrades, m.money, n as int) {
                Some(j) => {
                    lemma_ore_by_type_props(m.ores, m.upgrades[j].ore_type, 0);
                },
                None => {},
            }
        },
        Action::NavigateTab(_) => {},
        Action::Quit => {},
    }
}

/// Law (purchase integrity): the one way an upgrade's purchased flag turns
/// on is a purchase that selected it while its cost was strictly under the
/// balance — and that purchase deducts exactly the cost.
pub proof fn lemma_purchase_sets_flag(m: AppModel, index: int, j: int)
    requires
        0 <= j < m.upgrades.len(),
        !m.upgrades[j].bought,
        purchase_step(m, index).upgrades[j].bought,
    ensures
        visible_at(m.upgrades, m.money, index) == Some(j),
        m.upgrades[j].cost < m.money,
        purchase_step(m, index).money == m.money - m.upgrades[j].cost,
{
    lemma_nth_visible_props(m.upgrades, m.money, index, 0);
}

/// Law (effect isolation, per ore): an upgrade effect changes exactly the
/// field its kind names — automation level, per-unit value, or lock flag —
/// and nothing else about the ore.
pub proof fn lemma_effect_isolation(o: OreModel, kind: UpgradeType)
    ensures
        o.upgraded(kind).name == o.name,
        o.upgraded(kind).ore_type == o.ore_type,
        o.upgraded(kind).trigger == o.trigger,
        o.upgraded(kind).count == o.count,
        kind is AutoMine ==> o.upgraded(kind).value == o.value && o.upgraded(kind).locked
            == o.locked && o.upgraded(kind).auto_miners == o.auto_miners.saturating_add(1),
        kind is DoubleValue ==> o.upgraded(kind).locked == o.locked && o.upgraded(
            kind,
        ).auto_miners == o.auto_miners && o.upgraded(kind).value == sat_mul(o.value, 2),
        kind is UnlockOre ==> o.upgraded(kind).value == o.value && o.upgraded(kind).auto_miners
            == o.auto_miners && !o.upgraded(kind).locked,
{
}

/// Law (effect isolation, across ores): applying an upgrade effect touches
/// no ore but the first with the target identity.
pub proof fn lemma_apply_isolation(
    ores: Seq<OreModel>,
    target: OreType,
    kind: UpgradeType,
    j: int,
)
    requires
        0 <= j < ores.len(),
        ore_by_type(ores, target, 0) != Some(j),
    ensures
        apply_upgrade_to(ores, target, kind).len() == ores.len(),
        apply_upgrade_to(ores, target, kind)[j] == ores[j],
{
    lemma_ore_by_type_props(ores, target, 0);
}

} // verus!
