//! The economy engine: the single owner of the player's balance, the ore
//! list, and the upgrade list. Every action — mining by trigger key,
//! purchasing the n-th visible upgrade, tab navigation, quitting — is one
//! synchronous step, specified by `step_spec` over the ghost `AppModel`.

use vstd::prelude::*;
use vstd::seq_lib::lemma_update_is_remove_insert;

use crate::ore::{starting_ores, starting_ores_model, Ore, OreModel, OreType};
use crate::shop::{starting_upgrades, starting_upgrades_model, Upgrade, UpgradeModel, UpgradeType};

verus! {

broadcast use lemma_update_is_remove_insert;

/// Whether the session is still running.
#[derive(Clone, Copy, PartialEq, Eq, Structural, Debug)]
pub enum AppState {
    Running,
    Quitting,
}

/// Which tab the view shows; purely display state, read but never written
/// by the economy rules.
#[derive(Clone, Copy, PartialEq, Eq, Structural, Debug)]
pub enum SelectedTab {
    Cave,
    Shop,
}

/// Direction of a tab navigation action.
#[derive(Clone, Copy, PartialEq, Eq, Structural, Debug)]
pub enum TabDirection {
    Next,
    Previous,
}

/// One abstract player action, as handed in by the input layer.
#[derive(Clone, Copy, PartialEq, Eq, Structural, Debug)]
pub enum Action {
    /// Mine the ore whose trigger key matches, if any.
    MineByKey(char),
    /// Move the selected tab.
    NavigateTab(TabDirection),
    /// Buy the n-th currently visible upgrade, if any.
    PurchaseAtOfferedIndex(u8),
    /// End the session.
    Quit,
}

impl SelectedTab {
    /// The tab to the right; the last tab stays put.
    pub open spec fn next_spec(self) -> SelectedTab {
        match self {
            SelectedTab::Cave => SelectedTab::Shop,
            SelectedTab::Shop => SelectedTab::Shop,
        }
    }

    /// The tab to the left; the first tab stays put.
    pub open spec fn previous_spec(self) -> SelectedTab {
        match self {
            SelectedTab::Cave => SelectedTab::Cave,
            SelectedTab::Shop => SelectedTab::Cave,
        }
    }

    /// Get the next tab, if there is no next tab return the current tab.
    pub fn next(self) -> (r: SelectedTab)
        ensures
            r == self.next_spec(),
    {
        match self {
            SelectedTab::Cave => SelectedTab::Shop,
            SelectedTab::Shop => SelectedTab::Shop,
        }
    }

    /// Get the previous tab, if there is no previous tab return the current tab.
    pub fn previous(self) -> (r: SelectedTab)
        ensures
            r == self.previous_spec(),
    {
        match self {
            SelectedTab::Cave => SelectedTab::Cave,
            SelectedTab::Shop => SelectedTab::Cave,
        }
    }

    /// One navigation step in the given direction.
    pub open spec fn navigated(self, d: TabDirection) -> SelectedTab {
        match d {
            TabDirection::Next => self.next_spec(),
            TabDirection::Previous => self.previous_spec(),
        }
    }
}

/// Mathematical state of the whole game.
pub ghost struct AppModel {
    pub money: u32,
    pub ores: Seq<OreModel>,
    pub upgrades: Seq<UpgradeModel>,
    pub state: AppState,
    pub selected_tab: SelectedTab,
}

/// Index of the first ore at or after `i` whose trigger key is `key`.
pub open spec fn ore_by_trigger(ores: Seq<OreModel>, key: char, i: int) -> Option<int>
    decreases ores.len() - i,
{
    if i < 0 || i >= ores.len() {
        None
    } else if ores[i].trigger == key {
        Some(i)
    } else {
        ore_by_trigger(ores, key, i + 1)
    }
}

/// Index of the first ore at or after `i` with the given identity.
pub open spec fn ore_by_type(ores: Seq<OreModel>, target: OreType, i: int) -> Option<int>
    decreases ores.len() - i,
{
    if i < 0 || i >= ores.len() {
        None
    } else if ores[i].ore_type == target {
        Some(i)
    } else {
        ore_by_type(ores, target, i + 1)
    }
}

/// Index of the `n`-th upgrade (0-based) at or after `i` that is visible at
/// the given balance.
pub open spec fn nth_visible(
    upgrades: Seq<UpgradeModel>,
    money: u32,
    n: int,
    i: int,
) -> Option<int>
    decreases upgrades.len() - i,
{
    if i < 0 || i >= upgrades.len() {
        None
    } else if upgrades[i].is_visible(money) {
        if n == 0 {
            Some(i)
        } else {
            nth_visible(upgrades, money, n - 1, i + 1)
        }
    } else {
        nth_visible(upgrades, money, n, i + 1)
    }
}

/// Index, in catalog order, of the `n`-th upgrade visible at the given
/// balance — the upgrade a purchase at offered index `n` selects.
pub open spec fn visible_at(upgrades: Seq<UpgradeModel>, money: u32, n: int) -> Option<int> {
    nth_visible(upgrades, money, n, 0)
}

/// The state after a mine action with trigger key `key`: the first matching
/// ore takes one mining tick (a no-op while locked) and its payout is added
/// to the balance; an unrecognized key changes nothing.
pub open spec fn mine_step(m: AppModel, key: char) -> AppModel {
    match ore_by_trigger(m.ores, key, 0) {
        Some(i) => AppModel {
            money: m.money.saturating_add(m.ores[i].mine_payout()),
            ores: m.ores.update(i, m.ores[i].mined()),
            ..m
        },
        None => m,
    }
}

/// The ores after an upgrade effect lands: only the first ore with the
/// target identity changes, and only in the field the effect names.
pub open spec fn apply_upgrade_to(
    ores: Seq<OreModel>,
    target: OreType,
    kind: UpgradeType,
) -> Seq<OreModel> {
    match ore_by_type(ores, target, 0) {
        Some(i) => ores.update(i, ores[i].upgraded(kind)),
        None => ores,
    }
}

/// The state after a purchase attempt at offered index `index`: the `index`-th
/// currently visible upgrade is selected (out of range: no-op); the purchase
/// succeeds only when its cost is strictly under the balance, marking it
/// bought, deducting the cost, and applying its effect to the target ore;
/// otherwise nothing changes.
pub open spec fn purchase_step(m: AppModel, index: int) -> AppModel {
    match visible_at(m.upgrades, m.money, index) {
        Some(j) => {
            let u = m.upgrades[j];
            if u.cost < m.money {
                AppModel {
                    money: (m.money - u.cost) as u32,
                    upgrades: m.upgrades.update(j, u.purchased()),
                    ores: apply_upgrade_to(m.ores, u.ore_type, u.upgrade_type),
                    ..m
                }
            } else {
                m
            }
        },
        None => m,
    }
}

/// The state after one action.
pub open spec fn step_spec(m: AppModel, a: Action) -> AppModel {
    match a {
        Action::MineByKey(key) => mine_step(m, key),
        Action::NavigateTab(d) => AppModel { selected_tab: m.selected_tab.navigated(d), ..m },
        Action::PurchaseAtOfferedIndex(n) => purchase_step(m, n as int),
        Action::Quit => AppModel { state: AppState::Quitting, ..m },
    }
}

/// The state after a whole action sequence, applied left to right.
pub open spec fn run_spec(m: AppModel, actions: Seq<Action>) -> AppModel
    decreases actions.len(),
{
    if actions.len() == 0 {
        m
    } else {
        run_spec(step_spec(m, actions[0]), actions.drop_first())
    }
}

/// The state a fresh game starts in: no money, the starting catalogs, the
/// cave tab selected.
pub open spec fn initial_model() -> AppModel {
    AppModel {
        money: 0,
        ores: starting_ores_model(),
        upgrades: starting_upgrades_model(),
        state: AppState::Running,
        selected_tab: SelectedTab::Cave,
    }
}

/// The whole game state: balance, catalogs, and display state. All
/// mutation goes through the action methods below, one discrete step at a
/// time.
pub struct App {
    /// The player's spendable balance.
    pub money: u32,
    /// All ores, in catalog order; never added to or removed from after
    /// startup.
    pub ores: Vec<Ore>,
    /// All upgrades, in catalog order; never added to or removed from after
    /// startup.
    pub upgrades: Vec<Upgrade>,
    /// Whether the session is still running.
    pub state: AppState,
    /// The tab the view shows.
    pub selected_tab: SelectedTab,
}

impl View for App {
    type V = AppModel;

    open spec fn view(&self) -> AppModel {
        AppModel {
            money: self.money,
            ores: self.ores@.map_values(|o: Ore| o@),
            upgrades: self.upgrades@.map_values(|u: Upgrade| u@),
            state: self.state,
            selected_tab: self.selected_tab,
        }
    }
}

impl Default for App {
    /// A fresh game.
    fn default() -> (r: App)
        ensures
            r@ == initial_model(),
    {
        let r = App {
            money: 0,
            ores: starting_ores(),
            upgrades: starting_upgrades(),
            state: AppState::Running,
            selected_tab: SelectedTab::Cave,
        };
        proof {
            assert(r@.ores =~= starting_ores_model());
            assert(r@.upgrades =~= starting_upgrades_model());
        }
        r
    }
}

impl App {
    /// Mines the first ore whose trigger key is `key`; an unrecognized key
    /// is a silent no-op.
    pub fn mine_ore(&mut self, key: char)
        ensures
            final(self)@ == mine_step(old(self)@, key),
    {
        let ghost m0 = self@;
        let mut i: usize = 0;
        while i < self.ores.len()
            invariant
                m0 == old(self)@,
                self@ == m0,
                i <= self.ores.len(),
                ore_by_trigger(m0.ores, key, 0) == ore_by_trigger(m0.ores, key, i as int),
            decreases self.ores.len() - i,
        {
            if self.ores[i].trigger == key {
                let ghost oseq0 = self.ores@;
                proof {
                    assert(m0.ores[i as int] == oseq0[i as int]@);
                    assert(ore_by_trigger(m0.ores, key, i as int) == Some(i as int));
                }
                let mut o = self.ores.remove(i);
                o.mine(&mut self.money);
                self.ores.insert(i, o);
                proof {
                    assert(self.ores@ == oseq0.update(i as int, o));
                    assert(self@.ores =~= m0.ores.update(
                        i as int,
                        m0.ores[i as int].mined(),
                    ));
                    assert(self@ == mine_step(m0, key));
                }
                return;
            }
            i += 1;
        }
        proof {
            assert(ore_by_trigger(m0.ores, key, i as int) is None);
        }
    }

    /// Applies an upgrade effect to the first ore with the target identity;
    /// returns whether such an ore exists.
    pub fn do_upgrade(&mut self, upgrade_type: &UpgradeType, ore_type: &OreType) -> (r: Option<()>)
        ensures
            final(self)@ == (AppModel {
                ores: apply_upgrade_to(old(self)@.ores, *ore_type, *upgrade_type),
                ..old(self)@
            }),
            r is Some <==> ore_by_type(old(self)@.ores, *ore_type, 0) is Some,
    {
        let ghost m0 = self@;
        let mut i: usize = 0;
        while i < self.ores.len()
            invariant
                m0 == old(self)@,
                self@ == m0,
                i <= self.ores.len(),
                ore_by_type(m0.ores, *ore_type, 0) == ore_by_type(m0.ores, *ore_type, i as int),
            decreases self.ores.len() - i,
        {
            if self.ores[i].ore_type == *ore_type {
                let ghost oseq0 = self.ores@;
                proof {
                    assert(m0.ores[i as int] == oseq0[i as int]@);
                    assert(ore_by_type(m0.ores, *ore_type, i as int) == Some(i as int));
                }
                let mut o = self.ores.remove(i);
                o.upgrade(upgrade_type);
                self.ores.insert(i, o);
                proof {
                    assert(self.ores@ == oseq0.update(i as int, o));
                    assert(self@.ores =~= m0.ores.update(
                        i as int,
                        m0.ores[i as int].upgraded(*upgrade_type),
                    ));
                }
                return Some(());
            }
            i += 1;
        }
        proof {
            assert(ore_by_type(m0.ores, *ore_type, i as int) is None);
        }
        None
    }

    /// Attempts to buy the `index`-th currently visible upgrade: recomputes
    /// the visible list against the present balance, selects within it (out
    /// of range: no-op), and on a successful purchase applies the upgrade's
    /// effect to its target ore. An unaffordable selection changes nothing.
    pub fn buy_upgrade(&mut self, index: u8)
        ensures
            final(self)@ == purchase_step(old(self)@, index as int),
    {
        let ghost m0 = self@;
        let mut i: usize = 0;
        let mut cont: u8 = 0;
        while i < self.upgrades.len()
            invariant
                m0 == old(self)@,
                self@ == m0,
                i <= self.upgrades.len(),
                cont <= index,
                visible_at(m0.upgrades, m0.money, index as int) == nth_visible(
                    m0.upgrades,
                    m0.money,
                    index as int - cont as int,
                    i as int,
                ),
            decreases self.upgrades.len() - i,
        {
            if self.upgrades[i].visible(self.money) {
                if cont == index {
                    let ghost useq0 = self.upgrades@;
                    proof {
                        assert(m0.upgrades[i as int] == useq0[i as int]@);
                        assert(nth_visible(m0.upgrades, m0.money, 0, i as int) == Some(i as int));
                    }
                    let mut u = self.upgrades.remove(i);
                    let res = u.buy(&mut self.money);
                    let bought_now = res.is_ok();
                    let target = u.ore_type;
                    let kind = u.upgrade_type;
                    self.upgrades.insert(i, u);
                    proof {
                        assert(self.upgrades@ == useq0.update(i as int, u));
                    }
                    if bought_now {
                        let ghost m1 = self@;
                        proof {
                            assert(m1.upgrades =~= m0.upgrades.update(
                                i as int,
                                m0.upgrades[i as int].purchased(),
                            ));
                            assert(m1.ores == m0.ores);
                        }
                        self.do_upgrade(&kind, &target);
                        proof {
                            assert(self@ == purchase_step(m0, index as int));
                        }
                    } else {
                        proof {
                            assert(self@.upgrades =~= m0.upgrades);
                            assert(self@ == purchase_step(m0, index as int));
                        }
                    }
                    return;
                }
                cont += 1;
            }
            i += 1;
        }
        proof {
            assert(nth_visible(m0.upgrades, m0.money, index as int - cont as int, i as int)
                is None);
        }
    }

    /// Selects the tab to the right.
    pub fn next_tab(&mut self)
        ensures
            final(self)@ == (AppModel {
                selected_tab: old(self)@.selected_tab.next_spec(),
                ..old(self)@
            }),
    {
        self.selected_tab = self.selected_tab.next();
    }

    /// Selects the tab to the left.
    pub fn previous_tab(&mut self)
        ensures
            final(self)@ == (AppModel {
                selected_tab: old(self)@.selected_tab.previous_spec(),
                ..old(self)@
            }),
    {
        self.selected_tab = self.selected_tab.previous();
    }

    /// Ends the session.
    pub fn quit(&mut self)
        ensures
            final(self)@ == (AppModel { state: AppState::Quitting, ..old(self)@ }),
    {
        self.state = AppState::Quitting;
    }

    /// Performs one action: the single entry point the event loop drives.
    pub fn step(&mut self, action: Action)
        ensures
            final(self)@ == step_spec(old(self)@, action),
    {
        match action {
            Action::MineByKey(key) => self.mine_ore(key),
            Action::NavigateTab(TabDirection::Next) => self.next_tab(),
            Action::NavigateTab(TabDirection::Previous) => self.previous_tab(),
            Action::PurchaseAtOfferedIndex(n) => self.buy_upgrade(n),
            Action::Quit => self.quit(),
        }
    }
}

} // verus!
