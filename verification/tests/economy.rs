//! End-to-end tests of the economy engine: the scenarios the design calls
//! out, the catalog contents, and the edges of the thresholds and the
//! saturating arithmetic.

use oremine::engine::{Action, App, AppState, SelectedTab, TabDirection};
use oremine::ore::{Ore, OreType};
use oremine::shop::{Upgrade, UpgradeType};

fn one_ore_app(money: u32, ore: Ore, upgrades: Vec<Upgrade>) -> App {
    App {
        money,
        ores: vec![ore],
        upgrades,
        state: AppState::Running,
        selected_tab: SelectedTab::Shop,
    }
}

#[test]
fn mine_seed_resource_once() {
    let mut app = App::default();
    assert_eq!(app.money, 0);
    app.mine_ore('c');
    assert_eq!(app.money, 1);
    assert_eq!(app.ores[0].count, 1);
    assert_eq!(app.ores[1].count, 0);
}

#[test]
fn visible_but_not_affordable() {
    let mut u = Upgrade::new("coal double value", OreType::Coal, 110, UpgradeType::DoubleValue);
    assert!(u.visible(100));
    let mut money: u32 = 100;
    let res = u.buy(&mut money);
    assert_eq!(res, Err(()));
    assert_eq!(money, 100);
    assert!(!u.bought);
}

#[test]
fn purchase_applies_double_value() {
    let ore = Ore::new("Coal", 5, 'c', false, OreType::Coal);
    let upgrades = vec![Upgrade::new(
        "coal double value",
        OreType::Coal,
        110,
        UpgradeType::DoubleValue,
    )];
    let mut app = one_ore_app(111, ore, upgrades);
    app.buy_upgrade(0);
    assert_eq!(app.money, 1);
    assert_eq!(app.ores[0].value, 10);
    assert!(app.upgrades[0].bought);
}

#[test]
fn unknown_trigger_changes_nothing() {
    let mut app = App::default();
    app.mine_ore('z');
    assert_eq!(app.money, 0);
    for ore in &app.ores {
        assert_eq!(ore.count, 0);
    }
    assert_eq!(app.state, AppState::Running);
}

#[test]
fn two_automation_purchases_stack() {
    let ore = Ore::new("Coal", 1, 'c', false, OreType::Coal);
    let upgrades = vec![
        Upgrade::new("coal automation", OreType::Coal, 10, UpgradeType::AutoMine),
        Upgrade::new("more coal automation", OreType::Coal, 20, UpgradeType::AutoMine),
    ];
    let mut app = one_ore_app(1000, ore, upgrades);
    app.buy_upgrade(0);
    assert_eq!(app.ores[0].auto_miners, 1);
    assert_eq!(app.money, 990);
    // the first upgrade is now bought, so the second sits at offered index 0
    app.buy_upgrade(0);
    assert_eq!(app.ores[0].auto_miners, 2);
    assert_eq!(app.money, 970);
}

#[test]
fn starting_ores_catalog() {
    let ores = oremine::ore::starting_ores();
    assert_eq!(ores.len(), 8);
    let names: Vec<&str> = ores.iter().map(|o| o.name.as_str()).collect();
    assert_eq!(
        names,
        vec!["Coal", "Iron", "Platinum", "Emerald", "Ruby", "Sapphire", "Gold", "Diamond"]
    );
    let values: Vec<u32> = ores.iter().map(|o| o.value).collect();
    assert_eq!(values, vec![1, 5, 10, 20, 35, 50, 70, 100]);
    let triggers: Vec<char> = ores.iter().map(|o| o.trigger).collect();
    assert_eq!(triggers, vec!['c', 'i', 'p', 'e', 'r', 's', 'g', 'd']);
    // exactly the seed resource starts unlocked
    assert!(!ores[0].locked);
    for ore in &ores[1..] {
        assert!(ore.locked);
    }
    for ore in &ores {
        assert_eq!(ore.count, 0);
        assert_eq!(ore.auto_miners, 0);
    }
}

#[test]
fn starting_upgrades_catalog() {
    let ups = oremine::shop::starting_upgrades();
    assert_eq!(ups.len(), 15);
    let costs: Vec<u32> = ups.iter().map(|u| u.cost).collect();
    assert_eq!(
        costs,
        vec![
            110, 450, 1200, 2600, 5500, 10800, 14700, 30400, 35600, 50900, 75500, 102000, 140400,
            200000, 220000
        ]
    );
    // costs strictly increase with progression tier
    for w in costs.windows(2) {
        assert!(w[0] < w[1]);
    }
    assert_eq!(ups[0].desc, "coal double value");
    assert_eq!(ups[1].desc, "unlock iron");
    assert!(matches!(ups[0].upgrade_type, UpgradeType::DoubleValue));
    assert!(matches!(ups[1].upgrade_type, UpgradeType::UnlockOre));
    assert_eq!(ups[1].ore_type, OreType::Iron);
    for u in &ups {
        assert!(!u.bought);
    }
}

#[test]
fn visibility_horizon_boundary() {
    let u = Upgrade::new("x", OreType::Coal, 200, UpgradeType::UnlockOre);
    // the horizon is strict: cost < 2 * money
    assert!(!u.visible(100));
    let v = Upgrade::new("y", OreType::Coal, 199, UpgradeType::UnlockOre);
    assert!(v.visible(100));
    // at a zero balance nothing is visible, not even a free upgrade
    let w = Upgrade::new("z", OreType::Coal, 0, UpgradeType::UnlockOre);
    assert!(!w.visible(0));
    assert!(w.visible(1));
}

#[test]
fn purchase_threshold_is_strict() {
    let mut u = Upgrade::new("x", OreType::Coal, 100, UpgradeType::UnlockOre);
    let mut money: u32 = 100;
    assert_eq!(u.buy(&mut money), Err(()));
    assert_eq!(money, 100);
    assert!(!u.bought);
    let mut money2: u32 = 101;
    assert_eq!(u.buy(&mut money2), Ok(()));
    assert_eq!(money2, 1);
    assert!(u.bought);
}

#[test]
fn purchased_upgrade_no_longer_visible() {
    let ore = Ore::new("Coal", 5, 'c', false, OreType::Coal);
    let upgrades = vec![Upgrade::new("only", OreType::Coal, 10, UpgradeType::DoubleValue)];
    let mut app = one_ore_app(100, ore, upgrades);
    app.buy_upgrade(0);
    assert!(app.upgrades[0].bought);
    assert!(!app.upgrades[0].visible(1_000_000));
    let money_after = app.money;
    let value_after = app.ores[0].value;
    // buying at the same index again selects nothing and changes nothing
    app.buy_upgrade(0);
    assert_eq!(app.money, money_after);
    assert_eq!(app.ores[0].value, value_after);
    assert!(app.upgrades[0].bought);
}

#[test]
fn offered_index_out_of_range_is_noop() {
    let ore = Ore::new("Coal", 5, 'c', false, OreType::Coal);
    let upgrades = vec![Upgrade::new("only", OreType::Coal, 10, UpgradeType::DoubleValue)];
    let mut app = one_ore_app(100, ore, upgrades);
    app.buy_upgrade(5);
    assert_eq!(app.money, 100);
    assert_eq!(app.ores[0].value, 5);
    assert!(!app.upgrades[0].bought);
}

#[test]
fn mining_locked_ore_is_noop() {
    let ore = Ore::new("Iron", 5, 'i', true, OreType::Iron);
    let mut app = one_ore_app(50, ore, vec![]);
    app.mine_ore('i');
    assert_eq!(app.money, 50);
    assert_eq!(app.ores[0].count, 0);
}

#[test]
fn unlock_effect_touches_only_lock_flag() {
    let mut ore = Ore::new("Iron", 5, 'i', true, OreType::Iron);
    ore.upgrade(&UpgradeType::UnlockOre);
    assert!(!ore.locked);
    assert_eq!(ore.value, 5);
    assert_eq!(ore.count, 0);
    assert_eq!(ore.auto_miners, 0);
    assert_eq!(ore.name, "Iron");
}

#[test]
fn automation_effect_touches_only_level() {
    let mut ore = Ore::new("Coal", 5, 'c', false, OreType::Coal);
    ore.upgrade(&UpgradeType::AutoMine);
    assert_eq!(ore.auto_miners, 1);
    assert_eq!(ore.value, 5);
    assert!(!ore.locked);
    assert_eq!(ore.count, 0);
}

#[test]
fn automine_pays_value_times_level() {
    let mut ore = Ore::new("Coal", 5, 'c', false, OreType::Coal);
    ore.upgrade(&UpgradeType::AutoMine);
    ore.upgrade(&UpgradeType::AutoMine);
    ore.upgrade(&UpgradeType::AutoMine);
    let mut money: u32 = 0;
    ore.automine(&mut money);
    assert_eq!(money, 15);
    assert_eq!(ore.count, 1);
}

#[test]
fn automine_without_automation_pays_nothing() {
    let mut ore = Ore::new("Coal", 5, 'c', false, OreType::Coal);
    let mut money: u32 = 7;
    ore.automine(&mut money);
    assert_eq!(money, 7);
    assert_eq!(ore.count, 1);
}

#[test]
fn automine_locked_is_noop() {
    let mut ore = Ore::new("Iron", 5, 'i', true, OreType::Iron);
    ore.auto_miners = 3;
    let mut money: u32 = 7;
    ore.automine(&mut money);
    assert_eq!(money, 7);
    assert_eq!(ore.count, 0);
}

#[test]
fn mining_saturates_instead_of_wrapping() {
    let mut ore = Ore {
        name: "Coal".to_string(),
        ore_type: OreType::Coal,
        value: 10,
        locked: false,
        count: u32::MAX,
        trigger: 'c',
        auto_miners: 0,
    };
    let mut money: u32 = u32::MAX - 3;
    ore.mine(&mut money);
    assert_eq!(ore.count, u32::MAX);
    assert_eq!(money, u32::MAX);
}

#[test]
fn double_value_saturates() {
    let mut ore = Ore::new("Coal", u32::MAX - 1, 'c', false, OreType::Coal);
    ore.upgrade(&UpgradeType::DoubleValue);
    assert_eq!(ore.value, u32::MAX);
    let mut small = Ore::new("Coal", 3, 'c', false, OreType::Coal);
    small.upgrade(&UpgradeType::DoubleValue);
    assert_eq!(small.value, 6);
}

#[test]
fn tabs_saturate_at_both_ends() {
    assert_eq!(SelectedTab::Cave.next(), SelectedTab::Shop);
    assert_eq!(SelectedTab::Shop.next(), SelectedTab::Shop);
    assert_eq!(SelectedTab::Shop.previous(), SelectedTab::Cave);
    assert_eq!(SelectedTab::Cave.previous(), SelectedTab::Cave);
}

#[test]
fn step_dispatches_all_actions() {
    let mut app = App::default();
    app.step(Action::MineByKey('c'));
    assert_eq!(app.money, 1);
    app.step(Action::NavigateTab(TabDirection::Next));
    assert_eq!(app.selected_tab, SelectedTab::Shop);
    app.step(Action::NavigateTab(TabDirection::Previous));
    assert_eq!(app.selected_tab, SelectedTab::Cave);
    app.step(Action::PurchaseAtOfferedIndex(0));
    // nothing is visible at one unit of money, so nothing changed
    assert_eq!(app.money, 1);
    app.step(Action::Quit);
    assert_eq!(app.state, AppState::Quitting);
}

#[test]
fn unlock_purchase_enables_mining() {
    let mut app = App::default();
    app.money = 500;
    // "unlock iron" sits at offered index 1 (after "coal double value")
    app.buy_upgrade(1);
    assert!(app.upgrades[1].bought);
    assert_eq!(app.money, 50);
    assert!(!app.ores[1].locked);
    app.mine_ore('i');
    assert_eq!(app.money, 55);
    assert_eq!(app.ores[1].count, 1);
}

#[test]
fn do_upgrade_reports_whether_target_exists() {
    let ore = Ore::new("Coal", 5, 'c', false, OreType::Coal);
    let mut app = one_ore_app(0, ore, vec![]);
    assert_eq!(app.do_upgrade(&UpgradeType::DoubleValue, &OreType::Coal), Some(()));
    assert_eq!(app.ores[0].value, 10);
    assert_eq!(app.do_upgrade(&UpgradeType::DoubleValue, &OreType::Iron), None);
    assert_eq!(app.ores[0].value, 10);
}

#[test]
fn counts_and_values_never_decrease_over_a_session() {
    let mut app = App::default();
    let actions = [
        Action::MineByKey('c'),
        Action::MineByKey('c'),
        Action::MineByKey('i'),
        Action::NavigateTab(TabDirection::Next),
        Action::PurchaseAtOfferedIndex(0),
        Action::MineByKey('c'),
        Action::PurchaseAtOfferedIndex(9),
    ];
    let mut prev_counts: Vec<u32> = app.ores.iter().map(|o| o.count).collect();
    let mut prev_values: Vec<u32> = app.ores.iter().map(|o| o.value).collect();
    for action in actions {
        app.step(action);
        let counts: Vec<u32> = app.ores.iter().map(|o| o.count).collect();
        let values: Vec<u32> = app.ores.iter().map(|o| o.value).collect();
        for (before, after) in prev_counts.iter().zip(&counts) {
            assert!(after >= before);
        }
        for (before, after) in prev_values.iter().zip(&values) {
            assert!(after >= before);
        }
        prev_counts = counts;
        prev_values = values;
    }
}

#[test]
fn balance_never_decreases_without_a_purchase() {
    let mut app = App::default();
    let actions = [
        Action::MineByKey('c'),
        Action::MineByKey('z'),
        Action::MineByKey('i'),
        Action::NavigateTab(TabDirection::Next),
        Action::MineByKey('c'),
    ];
    let mut prev_money: u32 = app.money;
    for action in actions {
        app.step(action);
        assert!(app.money >= prev_money);
        prev_money = app.money;
    }
}

#[test]
fn upgrade_leaves_other_ores_untouched() {
    let coal = Ore::new("Coal", 1, 'c', false, OreType::Coal);
    let iron = Ore::new("Iron", 5, 'i', true, OreType::Iron);
    let upgrades = vec![Upgrade::new(
        "iron double value",
        OreType::Iron,
        10,
        UpgradeType::DoubleValue,
    )];
    let mut app = App {
        money: 100,
        ores: vec![coal, iron],
        upgrades,
        state: AppState::Running,
        selected_tab: SelectedTab::Shop,
    };
    app.buy_upgrade(0);
    assert_eq!(app.ores[1].value, 10);
    // the coal ore is exactly as it was
    assert_eq!(app.ores[0].value, 1);
    assert_eq!(app.ores[0].count, 0);
    assert_eq!(app.ores[0].auto_miners, 0);
    assert!(!app.ores[0].locked);
    assert_eq!(app.ores[0].name, "Coal");
}

#[test]
fn horizon_is_mathematical_not_wrapping() {
    // at a balance past half the integer range, twice the balance exceeds
    // any possible cost, so every unpurchased upgrade is visible
    let u = Upgrade::new("x", OreType::Coal, u32::MAX, UpgradeType::UnlockOre);
    assert!(u.visible(u32::MAX / 2 + 1));
    assert!(!u.visible(u32::MAX / 2));
}

#[test]
fn default_game_state() {
    let app = App::default();
    assert_eq!(app.money, 0);
    assert_eq!(app.ores.len(), 8);
    assert_eq!(app.upgrades.len(), 15);
    assert_eq!(app.state, AppState::Running);
    assert_eq!(app.selected_tab, SelectedTab::Cave);
}
