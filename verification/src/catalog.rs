//! The buildings and upgrades a new game starts with.

use vstd::prelude::*;

verus! {

/// A building type: its name, the cost of the first unit in cookies, and the
/// cookies per second one unit bakes, in tenths of a cookie.
pub struct BuildingDef {
    pub name: String,
    pub base_cost: u64,
    pub cps_tenths: u64,
}

/// A one-time upgrade: its name and description, its cost in cookies, the
/// building it boosts, and the factor it multiplies that building's CPS by.
pub struct UpgradeDef {
    pub name: String,
    pub description: String,
    pub cost: u64,
    pub building_index: usize,
    pub multiplier: u32,
}

/// Number of building types.
pub const NUM_BUILDINGS: usize = 8;

/// Number of upgrades.
pub const NUM_UPGRADES: usize = 16;

/// Name of building `i`.
pub open spec fn building_name(i: int) -> Seq<char> {
    if i == 0 {
        "Cursor"@
    } else if i == 1 {
        "Grandma"@
    } else if i == 2 {
        "Farm"@
    } else if i == 3 {
        "Mine"@
    } else if i == 4 {
        "Factory"@
    } else if i == 5 {
        "Bank"@
    } else if i == 6 {
        "Temple"@
    } else {
        "Wizard Tower"@
    }
}

/// Cost in cookies of the first unit of building `i`.
pub open spec fn building_base_cost(i: int) -> u64 {
    if i == 0 {
        15
    } else if i == 1 {
        100
    } else if i == 2 {
        1100
    } else if i == 3 {
        12000
    } else if i == 4 {
        130000
    } else if i == 5 {
        1400000
    } else if i == 6 {
        20000000
    } else {
        330000000
    }
}

/// Tenths of a cookie per second baked by one unit of building `i`.
pub open spec fn building_cps_tenths(i: int) -> u64 {
    if i == 0 {
        1
    } else if i == 1 {
        10
    } else if i == 2 {
        80
    } else if i == 3 {
        470
    } else if i == 4 {
        2600
    } else if i == 5 {
        14000
    } else if i == 6 {
        78000
    } else {
        440000
    }
}

/// Name of upgrade `i`.
pub open spec fn upgrade_name(i: int) -> Seq<char> {
    if i == 0 {
        "Nimble Fingers"@
    } else if i == 1 {
        "Cursor Overdrive"@
    } else if i == 2 {
        "Loving Grandmas"@
    } else if i == 3 {
        "Senior Discount"@
    } else if i == 4 {
        "Irrigation System"@
    } else if i == 5 {
        "Hydroponics"@
    } else if i == 6 {
        "Deep Excavation"@
    } else if i == 7 {
        "Quantum Drilling"@
    } else if i == 8 {
        "Assembly Line"@
    } else if i == 9 {
        "Mass Production"@
    } else if i == 10 {
        "Investment Portfolio"@
    } else if i == 11 {
        "Compound Interest"@
    } else if i == 12 {
        "Divine Blessing"@
    } else if i == 13 {
        "Sacred Ritual"@
    } else if i == 14 {
        "Arcane Enchant"@
    } else {
        "Conjure Cookies"@
    }
}

/// Description of upgrade `i`.
pub open spec fn upgrade_description(i: int) -> Seq<char> {
    if i == 0 {
        "Cursors are 2x more effective."@
    } else if i == 1 {
        "Cursors are 2x more effective (stacks)."@
    } else if i == 2 {
        "Grandmas bake 2x more cookies."@
    } else if i == 3 {
        "Grandmas bake 2x more cookies (stacks)."@
    } else if i == 4 {
        "Farms produce 2x more cookies."@
    } else if i == 5 {
        "Farms produce 2x more cookies (stacks)."@
    } else if i == 6 {
        "Mines yield 2x more cookies."@
    } else if i == 7 {
        "Mines yield 2x more cookies (stacks)."@
    } else if i == 8 {
        "Factories produce 2x more cookies."@
    } else if i == 9 {
        "Factories produce 2x more cookies (stacks)."@
    } else if i == 10 {
        "Banks generate 2x more cookies."@
    } else if i == 11 {
        "Banks generate 2x more cookies (stacks)."@
    } else if i == 12 {
        "Temples produce 2x more cookies."@
    } else if i == 13 {
        "Temples produce 2x more cookies (stacks)."@
    } else if i == 14 {
        "Wizard Towers produce 2x more cookies."@
    } else {
        "Wizard Towers produce 2x more cookies (stacks)."@
    }
}

/// Cost in cookies of upgrade `i`.
pub open spec fn upgrade_cost(i: int) -> u64 {
    if i == 0 {
        100
    } else if i == 1 {
        2000
    } else if i == 2 {
        1000
    } else if i == 3 {
        20000
    } else if i == 4 {
        11000
    } else if i == 5 {
        110000
    } else if i == 6 {
        130000
    } else if i == 7 {
        1300000
    } else if i == 8 {
        1300000
    } else if i == 9 {
        13000000
    } else if i == 10 {
        14000000
    } else if i == 11 {
        140000000
    } else if i == 12 {
        200000000
    } else if i == 13 {
        2000000000
    } else if i == 14 {
        3300000000
    } else {
        33000000000
    }
}

/// Building boosted by upgrade `i`.
pub open spec fn upgrade_building(i: int) -> usize {
    if i == 0 {
        0
    } else if i == 1 {
        0
    } else if i == 2 {
        1
    } else if i == 3 {
        1
    } else if i == 4 {
        2
    } else if i == 5 {
        2
    } else if i == 6 {
        3
    } else if i == 7 {
        3
    } else if i == 8 {
        4
    } else if i == 9 {
        4
    } else if i == 10 {
        5
    } else if i == 11 {
        5
    } else if i == 12 {
        6
    } else if i == 13 {
        6
    } else if i == 14 {
        7
    } else {
        7
    }
}

/// CPS factor of upgrade `i`.
pub open spec fn upgrade_multiplier(i: int) -> u32 {
    if i == 0 {
        2
    } else if i == 1 {
        2
    } else if i == 2 {
        2
    } else if i == 3 {
        2
    } else if i == 4 {
        2
    } else if i == 5 {
        2
    } else if i == 6 {
        2
    } else if i == 7 {
        2
    } else if i == 8 {
        2
    } else if i == 9 {
        2
    } else if i == 10 {
        2
    } else if i == 11 {
        2
    } else if i == 12 {
        2
    } else if i == 13 {
        2
    } else if i == 14 {
        2
    } else {
        2
    }
}

/// The buildings of a new game, cheapest first.
pub fn default_buildings() -> (v: Vec<BuildingDef>)
    ensures
        v@.len() == NUM_BUILDINGS,
        forall|i: int|
            0 <= i < NUM_BUILDINGS ==> {
                &&& (#[trigger] v@[i]).name@ == building_name(i)
                &&& v@[i].base_cost == building_base_cost(i)
                &&& v@[i].cps_tenths == building_cps_tenths(i)
            },
{
    let mut v: Vec<BuildingDef> = Vec::new();
    v.push(BuildingDef { name: "Cursor".to_string(), base_cost: 15, cps_tenths: 1 });
    v.push(BuildingDef { name: "Grandma".to_string(), base_cost: 100, cps_tenths: 10 });
    v.push(BuildingDef { name: "Farm".to_string(), base_cost: 1100, cps_tenths: 80 });
    v.push(BuildingDef { name: "Mine".to_string(), base_cost: 12000, cps_tenths: 470 });
    v.push(BuildingDef { name: "Factory".to_string(), base_cost: 130000, cps_tenths: 2600 });
    v.push(BuildingDef { name: "Bank".to_string(), base_cost: 1400000, cps_tenths: 14000 });
    v.push(BuildingDef { name: "Temple".to_string(), base_cost: 20000000, cps_tenths: 78000 });
    v.push(BuildingDef { name: "Wizard Tower".to_string(), base_cost: 330000000, cps_tenths: 440000 });
    v
}

/// The upgrades of a new game, two per building, none purchased.
pub fn default_upgrades() -> (v: Vec<UpgradeDef>)
    ensures
        v@.len() == NUM_UPGRADES,
        forall|i: int|
            0 <= i < NUM_UPGRADES ==> {
                &&& (#[trigger] v@[i]).name@ == upgrade_name(i)
                &&& v@[i].description@ == upgrade_description(i)
                &&& v@[i].cost == upgrade_cost(i)
                &&& v@[i].building_index == upgrade_building(i)
                &&& v@[i].multiplier == upgrade_multiplier(i)
            },
{
    let mut v: Vec<UpgradeDef> = Vec::new();
    v.push(
        UpgradeDef {
            name: "Nimble Fingers".to_string(),
            description: "Cursors are 2x more effective.".to_string(),
            cost: 100,
            building_index: 0,
            multiplier: 2,
        },
    );
    v.push(
        UpgradeDef {
            name: "Cursor Overdrive".to_string(),
            description: "Cursors are 2x more effective (stacks).".to_string(),
            cost: 2000,
            building_index: 0,
            multiplier: 2,
        },
    );
    v.push(
        UpgradeDef {
            name: "Loving Grandmas".to_string(),
            description: "Grandmas bake 2x more cookies.".to_string(),
            cost: 1000,
            building_index: 1,
            multiplier: 2,
        },
    );
    v.push(
        UpgradeDef {
            name: "Senior Discount".to_string(),
            description: "Grandmas bake 2x more cookies (stacks).".to_string(),
            cost: 20000,
            building_index: 1,
            multiplier: 2,
        },
    );
    v.push(
        UpgradeDef {
            name: "Irrigation System".to_string(),
            description: "Farms produce 2x more cookies.".to_string(),
            cost: 11000,
            building_index: 2,
            multiplier: 2,
        },
    );
    v.push(
        UpgradeDef {
            name: "Hydroponics".to_string(),
            description: "Farms produce 2x more cookies (stacks).".to_string(),
            cost: 110000,
            building_index: 2,
            multiplier: 2,
        },
    );
    v.push(
        UpgradeDef {
            name: "Deep Excavation".to_string(),
            description: "Mines yield 2x more cookies.".to_string(),
            cost: 130000,
            building_index: 3,
            multiplier: 2,
        },
    );
    v.push(
        UpgradeDef {
            name: "Quantum Drilling".to_string(),
            description: "Mines yield 2x more cookies (stacks).".to_string(),
            cost: 1300000,
            building_index: 3,
            multiplier: 2,
        },
    );
    v.push(
        UpgradeDef {
            name: "Assembly Line".to_string(),
            description: "Factories produce 2x more cookies.".to_string(),
            cost: 1300000,
            building_index: 4,
            multiplier: 2,
        },
    );
    v.push(
        UpgradeDef {
            name: "Mass Production".to_string(),
            description: "Factories produce 2x more cookies (stacks).".to_string(),
            cost: 13000000,
            building_index: 4,
            multiplier: 2,
        },
    );
    v.push(
        UpgradeDef {
            name: "Investment Portfolio".to_string(),
            description: "Banks generate 2x more cookies.".to_string(),
            cost: 14000000,
            building_index: 5,
            multiplier: 2,
        },
    );
    v.push(
        UpgradeDef {
            name: "Compound Interest".to_string(),
            description: "Banks generate 2x more cookies (stacks).".to_string(),
            cost: 140000000,
            building_index: 5,
            multiplier: 2,
        },
    );
    v.push(
        UpgradeDef {
            name: "Divine Blessing".to_string(),
            description: "Temples produce 2x more cookies.".to_string(),
            cost: 200000000,
            building_index: 6,
            multiplier: 2,
        },
    );
    v.push(
        UpgradeDef {
            name: "Sacred Ritual".to_string(),
            description: "Temples produce 2x more cookies (stacks).".to_string(),
            cost: 2000000000,
            building_index: 6,
            multiplier: 2,
        },
    );
    v.push(
        UpgradeDef {
            name: "Arcane Enchant".to_string(),
            description: "Wizard Towers produce 2x more cookies.".to_string(),
            cost: 3300000000,
            building_index: 7,
            multiplier: 2,
        },
    );
    v.push(
        UpgradeDef {
            name: "Conjure Cookies".to_string(),
            description: "Wizard Towers produce 2x more cookies (stacks).".to_string(),
            cost: 33000000000,
            building_index: 7,
            multiplier: 2,
        },
    );
    v
}

/// Every upgrade boosts one of the buildings, two upgrades per building, each
/// doubling its CPS.
pub proof fn lemma_upgrades_cover_buildings()
    ensures
        forall|i: int|
            0 <= i < NUM_UPGRADES ==> #[trigger] upgrade_building(i) < NUM_BUILDINGS
                && upgrade_building(i) == i / 2 && upgrade_multiplier(i) == 2,
{
}

/// What a purchase comes to before its price is compared with the cookies in
/// the jar.
#[derive(Debug, Clone, Copy, PartialEq, Eq, Structural)]
pub enum PurchaseStep {
    /// There is no item at that index.
    NoSuchItem,
    /// The upgrade has already been bought.
    AlreadyOwned,
    /// The item can be bought if the player can pay for it.
    CheckPrice,
}

/// Buying building `index` out of `count`: only an existing building can be bought.
pub fn building_purchase_step(index: usize, count: usize) -> (step: PurchaseStep)
    ensures
        step == if index < count {
            PurchaseStep::CheckPrice
        } else {
            PurchaseStep::NoSuchItem
        },
{
    if index < count {
        PurchaseStep::CheckPrice
    } else {
        PurchaseStep::NoSuchItem
    }
}

/// Buying an upgrade whose purchased flag is `purchased` (`None` when there is
/// no upgrade at that index): an upgrade is bought once.
pub fn upgrade_purchase_step(purchased: Option<bool>) -> (step: PurchaseStep)
    ensures
        step == match purchased {
            None => PurchaseStep::NoSuchItem,
            Some(true) => PurchaseStep::AlreadyOwned,
            Some(false) => PurchaseStep::CheckPrice,
        },
{
    match purchased {
        None => PurchaseStep::NoSuchItem,
        Some(true) => PurchaseStep::AlreadyOwned,
        Some(false) => PurchaseStep::CheckPrice,
    }
}

/// The catalogue as the game documents it: the Cursor, Grandma, Farm, Mine,
/// Factory, Bank, Temple and Wizard Tower cost 15, 100, 1,100, 12,000,
/// 130,000, 1.4 million, 20 million and 330 million cookies and bake 0.1, 1,
/// 8, 47, 260, 1,400, 7,800 and 44,000 cookies a second; each costs and bakes
/// more than the one before.
pub proof fn lemma_building_table()
    ensures
        building_name(0) == "Cursor"@ && building_base_cost(0) == 15 && building_cps_tenths(0) == 1,
        building_name(1) == "Grandma"@ && building_base_cost(1) == 100 && building_cps_tenths(1)
            == 10,
        building_name(2) == "Farm"@ && building_base_cost(2) == 1100 && building_cps_tenths(2)
            == 80,
        building_name(3) == "Mine"@ && building_base_cost(3) == 12000 && building_cps_tenths(3)
            == 470,
        building_name(4) == "Factory"@ && building_base_cost(4) == 130000 && building_cps_tenths(4)
            == 2600,
        building_name(5) == "Bank"@ && building_base_cost(5) == 1400000 && building_cps_tenths(5)
            == 14000,
        building_name(6) == "Temple"@ && building_base_cost(6) == 20000000 && building_cps_tenths(
            6,
        ) == 78000,
        building_name(7) == "Wizard Tower"@ && building_base_cost(7) == 330000000
            && building_cps_tenths(7) == 440000,
        forall|i: int|
            0 <= i < NUM_BUILDINGS - 1 ==> #[trigger] building_base_cost(i) < building_base_cost(i + 1)
                && building_cps_tenths(i) < building_cps_tenths(i + 1),
{
}

/// The upgrade prices: two per building, the second dearer than the first,
/// at 100 and 2,000 (Cursor), 1,000 and 20,000 (Grandma), 11,000 and 110,000
/// (Farm), 130,000 and 1.3 million (Mine), 1.3 and 13 million (Factory), 14
/// and 140 million (Bank), 200 million and 2 billion (Temple), 3.3 and 33
/// billion (Wizard Tower) cookies.
pub proof fn lemma_upgrade_prices()
    ensures
        upgrade_cost(0) == 100 && upgrade_cost(1) == 2000,
        upgrade_cost(2) == 1000 && upgrade_cost(3) == 20000,
        upgrade_cost(4) == 11000 && upgrade_cost(5) == 110000,
        upgrade_cost(6) == 130000 && upgrade_cost(7) == 1300000,
        upgrade_cost(8) == 1300000 && upgrade_cost(9) == 13000000,
        upgrade_cost(10) == 14000000 && upgrade_cost(11) == 140000000,
        upgrade_cost(12) == 200000000 && upgrade_cost(13) == 2000000000,
        upgrade_cost(14) == 3300000000 && upgrade_cost(15) == 33000000000,
        forall|b: int| 0 <= b < NUM_BUILDINGS ==> #[trigger] upgrade_cost(2 * b) < upgrade_cost(2 * b + 1),
{
}

} // verus!
