//! The static technology graph: research node definitions with costs and
//! prerequisites. This core only serves the definitions; tracking what a
//! player has researched belongs to a collaborator outside it.

use vstd::prelude::*;

verus! {

/// The closed set of research nodes.
#[derive(Clone, Copy, Debug, PartialEq, Eq, Structural)]
pub enum TechnologyType {
    Agriculture,
    Mining,
    Forestry,
    Trade,
    Banking,
    BasicConstruction,
    AdvancedConstruction,
    StoneWorks,
    BasicMilitary,
    AdvancedMilitary,
    Fortification,
    Education,
    Culture,
    Administration,
}

/// One research node definition.
#[derive(Debug)]
pub struct Technology {
    pub tech_type: TechnologyType,
    pub name: String,
    pub description: String,
    pub cost: u32,
    pub prerequisites: Vec<TechnologyType>,
    pub unlock_effects: Vec<String>,
}

/// What the tree promises of the node stored for each defined type.
pub open spec fn tech_ok(tech: Technology) -> bool {
    match tech.tech_type {
        TechnologyType::Agriculture => tech.name@ == "Agriculture"@ && tech.cost == 100
            && tech.prerequisites@ =~= Seq::<TechnologyType>::empty()
            && tech.unlock_effects@.len() == 2,
        TechnologyType::Mining => tech.name@ == "Mining"@ && tech.cost == 100
            && tech.prerequisites@ =~= Seq::<TechnologyType>::empty()
            && tech.unlock_effects@.len() == 2,
        TechnologyType::Forestry => tech.name@ == "Forestry"@ && tech.cost == 100
            && tech.prerequisites@ =~= Seq::<TechnologyType>::empty()
            && tech.unlock_effects@.len() == 2,
        TechnologyType::BasicConstruction => tech.name@ == "Basic Construction"@ && tech.cost
            == 100 && tech.prerequisites@ =~= Seq::<TechnologyType>::empty()
            && tech.unlock_effects@.len() == 2,
        TechnologyType::Trade => tech.name@ == "Trade"@ && tech.cost == 200 && tech.prerequisites@
            =~= seq![TechnologyType::Agriculture] && tech.unlock_effects@.len() == 2,
        TechnologyType::AdvancedConstruction => tech.name@ == "Advanced Construction"@ && tech.cost
            == 200 && tech.prerequisites@ =~= seq![
            TechnologyType::BasicConstruction,
            TechnologyType::Mining,
        ] && tech.unlock_effects@.len() == 2,
        _ => false,
    }
}

/// Index of the first node of the given type, or -1.
pub open spec fn find_tech(techs: Seq<Technology>, t: TechnologyType) -> int
    decreases techs.len(),
{
    if techs.len() == 0 {
        -1
    } else if techs.first().tech_type == t {
        0
    } else {
        let r = find_tech(techs.drop_first(), t);
        if r < 0 {
            -1
        } else {
            r + 1
        }
    }
}

pub proof fn lemma_find_tech(techs: Seq<Technology>, t: TechnologyType)
    ensures
        find_tech(techs, t) == -1 || find_tech(techs, t) >= 0,
        find_tech(techs, t) >= 0 ==> find_tech(techs, t) < techs.len()
            && techs[find_tech(techs, t)].tech_type == t && forall|j: int|
            0 <= j < find_tech(techs, t) ==> techs[j].tech_type != t,
        find_tech(techs, t) == -1 ==> forall|j: int|
            0 <= j < techs.len() ==> techs[j].tech_type != t,
    decreases techs.len(),
{
    if techs.len() > 0 {
        let rest = techs.drop_first();
        lemma_find_tech(rest, t);
        assert(forall|j: int| 0 <= j < rest.len() ==> rest[j] == techs[j + 1]);
        if techs.first().tech_type == t {
        } else {
            let r = find_tech(rest, t);
            let f = find_tech(techs, t);
            if r >= 0 {
                assert(techs[f] == rest[r]);
                assert forall|j: int| 0 <= j < f implies techs[j].tech_type != t by {
                    if j > 0 {
                        assert(techs[j] == rest[j - 1]);
                    }
                }
            } else {
                assert forall|j: int| 0 <= j < techs.len() implies techs[j].tech_type != t by {
                    if j > 0 {
                        assert(techs[j] == rest[j - 1]);
                    }
                }
            }
        }
    }
}

/// The static prerequisite graph.
#[derive(Debug)]
pub struct TechnologyTree {
    technologies: Vec<Technology>,
}

impl TechnologyTree {
    /// The nodes the tree serves, in their fixed order.
    pub closed spec fn techs(self) -> Seq<Technology> {
        self.technologies@
    }

    /// Builds the six defined nodes: agriculture, mining, forestry, and
    /// basic construction as roots, then trade and advanced construction
    /// with their prerequisites.
    pub fn new() -> (t: TechnologyTree)
        ensures
            t.techs().len() == 6,
            t.techs()[0].tech_type == TechnologyType::Agriculture,
            t.techs()[1].tech_type == TechnologyType::Mining,
            t.techs()[2].tech_type == TechnologyType::Forestry,
            t.techs()[3].tech_type == TechnologyType::BasicConstruction,
            t.techs()[4].tech_type == TechnologyType::Trade,
            t.techs()[5].tech_type == TechnologyType::AdvancedConstruction,
            forall|i: int| 0 <= i < 6 ==> tech_ok(#[trigger] t.techs()[i]),
    {
        let mut technologies: Vec<Technology> = Vec::new();

        let mut effects: Vec<String> = Vec::new();
        effects.push("Raises food production by a fifth".to_owned());
        effects.push("Allows farms to be built".to_owned());
        technologies.push(
            Technology {
                tech_type: TechnologyType::Agriculture,
                name: "Agriculture".to_owned(),
                description: "Improves food production for the population".to_owned(),
                cost: 100,
                prerequisites: Vec::new(),
                unlock_effects: effects,
            },
        );

        let mut effects: Vec<String> = Vec::new();
        effects.push("Raises stone yield by a fifth".to_owned());
        effects.push("Allows mines to be built".to_owned());
        technologies.push(
            Technology {
                tech_type: TechnologyType::Mining,
                name: "Mining".to_owned(),
                description: "Improves the extraction of stone and minerals".to_owned(),
                cost: 100,
                prerequisites: Vec::new(),
                unlock_effects: effects,
            },
        );

        let mut effects: Vec<String> = Vec::new();
        effects.push("Raises wood production by a fifth".to_owned());
        effects.push("Allows lumber mills to be built".to_owned());
        technologies.push(
            Technology {
                tech_type: TechnologyType::Forestry,
                name: "Forestry".to_owned(),
                description: "Improves timber harvesting".to_owned(),
                cost: 100,
                prerequisites: Vec::new(),
                unlock_effects: effects,
            },
        );

        let mut effects: Vec<String> = Vec::new();
        effects.push("Allows basic buildings".to_owned());
        effects.push("Lowers construction costs by a tenth".to_owned());
        technologies.push(
            Technology {
                tech_type: TechnologyType::BasicConstruction,
                name: "Basic Construction".to_owned(),
                description: "Basic principles of building".to_owned(),
                cost: 100,
                prerequisites: Vec::new(),
                unlock_effects: effects,
            },
        );

        let mut effects: Vec<String> = Vec::new();
        effects.push("Allows markets to be built".to_owned());
        effects.push("Allows trade routes to be established".to_owned());
        let mut prereqs: Vec<TechnologyType> = Vec::new();
        prereqs.push(TechnologyType::Agriculture);
        technologies.push(
            Technology {
                tech_type: TechnologyType::Trade,
                name: "Trade".to_owned(),
                description: "Opens trade relations with other settlements".to_owned(),
                cost: 200,
                prerequisites: prereqs,
                unlock_effects: effects,
            },
        );

        let mut effects: Vec<String> = Vec::new();
        effects.push("Allows advanced buildings".to_owned());
        effects.push("Lowers construction costs by a further sixth".to_owned());
        let mut prereqs: Vec<TechnologyType> = Vec::new();
        prereqs.push(TechnologyType::BasicConstruction);
        prereqs.push(TechnologyType::Mining);
        technologies.push(
            Technology {
                tech_type: TechnologyType::AdvancedConstruction,
                name: "Advanced Construction".to_owned(),
                description: "Refined construction methods".to_owned(),
                cost: 200,
                prerequisites: prereqs,
                unlock_effects: effects,
            },
        );

        TechnologyTree { technologies }
    }

    pub fn get_all_technologies(&self) -> (r: &Vec<Technology>)
        ensures
            r@ == self.techs(),
    {
        &self.technologies
    }

    /// The first stored node of the given type, if any.
    pub fn get_technology(&self, tech_type: &TechnologyType) -> (r: Option<&Technology>)
        ensures
            ({
                let f = find_tech(self.techs(), *tech_type);
                match r {
                    Some(t) => f >= 0 && *t == self.techs()[f],
                    None => f == -1,
                }
            }),
    {
        let n = self.technologies.len();
        let mut i: usize = 0;
        while i < n && !(self.technologies[i].tech_type == *tech_type)
            invariant
                0 <= i <= n == self.technologies@.len(),
                forall|j: int| 0 <= j < i ==> self.technologies@[j].tech_type != *tech_type,
            decreases n - i,
        {
            i = i + 1;
        }
        proof {
            lemma_find_tech(self.technologies@, *tech_type);
        }
        if i >= n {
            None
        } else {
            Some(&self.technologies[i])
        }
    }
}

} // verus!
