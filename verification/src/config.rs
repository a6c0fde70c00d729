use vstd::prelude::*;
use vstd::string::StringExecFns;

use crate::filters::{
    any_matches, passes_dimension, AttributeFilter, ExclusivityFilter, Factions, Tier,
};
use crate::mission_type::MissionType;
use crate::models::{pointees, Fissure};
use crate::text::{decimal, decimal_string, joined, Label};
use crate::util::comma_separated_string;

verus! {

pub struct Config {
    pub mission_filter: Vec<MissionType>,
    pub tier_filter: Vec<Tier>,
    pub faction_filter: Vec<Factions>,
    /// Whether to include, exclude or exclusively filter for void storms
    pub void_storm_filter: ExclusivityFilter,
    /// How often to refresh the fissure list in seconds
    pub refresh_rate: u64,
    /// How long before the fissure expires to send a notification in seconds
    pub time_before_expiry_notification: u64,
}

impl Config {
    /// Whether the settings can be run with: the refresh period is not zero.
    pub open spec fn wf(&self) -> bool {
        self.refresh_rate > 0
    }

    /// Whether `wf` holds.
    pub fn is_valid(&self) -> (valid: bool)
        ensures
            valid == self.wf(),
    {
        self.refresh_rate > 0
    }

    /// A fissure passes iff each of the four dimensions admits it: its mission
    /// type, tier and faction each occur in the configured list, and the void
    /// storm selector admits its storm flag.
    pub open spec fn admits(&self, fissure: &Fissure) -> bool {
        &&& self.mission_filter@.contains(fissure.mission_type)
        &&& self.tier_filter@.contains(fissure.tier)
        &&& self.faction_filter@.contains(fissure.enemy)
        &&& self.void_storm_filter.admits(fissure.is_storm)
    }

    /// `admits` as a predicate on fissures.
    pub open spec fn admits_pred(&self) -> spec_fn(Fissure) -> bool {
        |fissure: Fissure| self.admits(&fissure)
    }

    /// The fissures of `fissures` that pass, in their order.
    pub open spec fn filtered(&self, fissures: Seq<Fissure>) -> Seq<Fissure> {
        fissures.filter(self.admits_pred())
    }

    /// The settings as text, one to a line.
    pub open spec fn display(&self) -> Seq<char> {
        "Refresh Rate: "@ + decimal(self.refresh_rate as nat) + "s\n"@
            + "Time Before Expiry Notification: "@ + decimal(
            self.time_before_expiry_notification as nat,
        ) + "s\n"@ + "Tier Filter: "@ + joined(
            self.tier_filter@.map_values(|tier: Tier| tier.label()),
            ", "@,
        ) + "\n"@ + "Mission Filter: "@ + joined(
            self.mission_filter@.map_values(|mission: MissionType| mission.label()),
            ", "@,
        ) + "\n"@ + "Faction Filter: "@ + joined(
            self.faction_filter@.map_values(|faction: Factions| faction.label()),
            ", "@,
        ) + "\n"@ + "Void Storm Filter: "@ + self.void_storm_filter.name()
    }

    /// Where one of the three listed dimensions is empty, no fissure passes:
    /// an empty list admits nothing.
    pub proof fn lemma_empty_dimension_rejects(&self, fissure: &Fissure)
        requires
            self.mission_filter@.len() == 0 || self.tier_filter@.len() == 0
                || self.faction_filter@.len() == 0,
        ensures
            !self.admits(fissure),
    {
    }

    /// Where one of the three listed dimensions is empty, filtering leaves
    /// nothing.
    pub proof fn lemma_empty_dimension_filters_all(&self, fissures: Seq<Fissure>)
        requires
            self.mission_filter@.len() == 0 || self.tier_filter@.len() == 0
                || self.faction_filter@.len() == 0,
        ensures
            self.filtered(fissures) == Seq::<Fissure>::empty(),
        decreases fissures.len(),
    {
        reveal(Seq::filter);
        if fissures.len() > 0 {
            self.lemma_empty_dimension_filters_all(fissures.drop_last());
            self.lemma_empty_dimension_rejects(&fissures.last());
        }
    }

    /// What passes the batch filter is what passes the filter one by one:
    /// a fissure is in the filtered collection iff it is in the collection
    /// and passes.
    pub proof fn lemma_filtered_contains(&self, fissures: Seq<Fissure>, fissure: Fissure)
        ensures
            self.filtered(fissures).contains(fissure) <==> fissures.contains(fissure)
                && self.admits(&fissure),
        decreases fissures.len(),
    {
        reveal(Seq::filter);
        if fissures.len() > 0 {
            let earlier = fissures.drop_last();
            self.lemma_filtered_contains(earlier, fissure);
            assert(fissures =~= earlier.push(fissures.last()));
            vstd::seq_lib::lemma_seq_contains_after_push(earlier, fissures.last(), fissure);
            vstd::seq_lib::lemma_seq_contains_after_push(
                self.filtered(earlier),
                fissures.last(),
                fissure,
            );
        }
    }

    pub fn to_string(&self) -> (text: String)
        ensures
            text@ == self.display(),
    {
        let mut text = String::from_str("Refresh Rate: ");
        text.append(decimal_string(self.refresh_rate).as_str());
        text.append("s\n");
        text.append("Time Before Expiry Notification: ");
        text.append(decimal_string(self.time_before_expiry_notification).as_str());
        text.append("s\n");
        text.append("Tier Filter: ");
        text.append(comma_separated_string(&self.tier_filter).as_str());
        text.append("\n");
        text.append("Mission Filter: ");
        text.append(comma_separated_string(&self.mission_filter).as_str());
        text.append("\n");
        text.append("Faction Filter: ");
        text.append(comma_separated_string(&self.faction_filter).as_str());
        text.append("\n");
        text.append("Void Storm Filter: ");
        text.append(self.void_storm_filter.as_str());
        text
    }

    pub fn passes(&self, fissure: &Fissure) -> (passes: bool)
        ensures
            passes == self.admits(fissure),
    {
        proof {
            assert(self.mission_filter@.contains(fissure.mission_type) == any_matches(
                self.mission_filter@,
                fissure,
            )) by {
                if self.mission_filter@.contains(fissure.mission_type) {
                    let i = choose|i: int|
                        0 <= i < self.mission_filter@.len() && self.mission_filter@[i]
                            == fissure.mission_type;
                    assert(self.mission_filter@[i].matches(fissure));
                }
            }
            assert(self.tier_filter@.contains(fissure.tier) == any_matches(
                self.tier_filter@,
                fissure,
            )) by {
                if self.tier_filter@.contains(fissure.tier) {
                    let i = choose|i: int|
                        0 <= i < self.tier_filter@.len() && self.tier_filter@[i] == fissure.tier;
                    assert(self.tier_filter@[i].matches(fissure));
                }
            }
            assert(self.faction_filter@.contains(fissure.enemy) == any_matches(
                self.faction_filter@,
                fissure,
            )) by {
                if self.faction_filter@.contains(fissure.enemy) {
                    let i = choose|i: int|
                        0 <= i < self.faction_filter@.len() && self.faction_filter@[i]
                            == fissure.enemy;
                    assert(self.faction_filter@[i].matches(fissure));
                }
            }
        }
        passes_dimension(&self.mission_filter, fissure) && passes_dimension(
            &self.tier_filter,
            fissure,
        ) && passes_dimension(&self.faction_filter, fissure) && self.void_storm_filter.apply_filter(
            fissure.is_storm,
        )
    }

    /// The passing subset of `fissures`, as copies, in input order.
    pub fn apply_filters_cloned(&self, fissures: &Vec<Fissure>) -> (passing: Vec<Fissure>)
        ensures
            passing@ == self.filtered(fissures@),
    {
        let mut passing: Vec<Fissure> = Vec::new();
        let mut i: usize = 0;
        proof {
            assert(fissures@.take(0) =~= Seq::<Fissure>::empty());
            reveal(Seq::filter);
        }
        while i < fissures.len()
            invariant
                i <= fissures.len(),
                passing@ == self.filtered(fissures@.take(i as int)),
            decreases fissures.len() - i,
        {
            proof {
                assert(fissures@.take(i + 1) =~= fissures@.take(i as int).push(fissures@[i as int]));
                fissures@.take(i as int).lemma_filter_push(fissures@[i as int], self.admits_pred());
            }
            if self.passes(&fissures[i]) {
                passing.push(fissures[i].clone());
            }
            i += 1;
        }
        proof {
            assert(fissures@.take(fissures.len() as int) =~= fissures@);
        }
        passing
    }

    /// The passing subset of `fissures`, borrowed, in input order.
    pub fn apply_filters<'a>(&self, fissures: &'a Vec<Fissure>) -> (passing: Vec<&'a Fissure>)
        ensures
            pointees(passing@) == self.filtered(fissures@),
    {
        let mut passing: Vec<&'a Fissure> = Vec::new();
        let mut i: usize = 0;
        proof {
            assert(fissures@.take(0) =~= Seq::<Fissure>::empty());
            assert(pointees(passing@) =~= Seq::<Fissure>::empty());
            reveal(Seq::filter);
        }
        while i < fissures.len()
            invariant
                i <= fissures.len(),
                pointees(passing@) == self.filtered(fissures@.take(i as int)),
            decreases fissures.len() - i,
        {
            let ghost before = passing@;
            proof {
                assert(fissures@.take(i + 1) =~= fissures@.take(i as int).push(fissures@[i as int]));
                fissures@.take(i as int).lemma_filter_push(fissures@[i as int], self.admits_pred());
            }
            if self.passes(&fissures[i]) {
                passing.push(&fissures[i]);
                proof {
                    assert(pointees(passing@) =~= pointees(before).push(fissures@[i as int]));
                }
            }
            i += 1;
        }
        proof {
            assert(fissures@.take(fissures.len() as int) =~= fissures@);
        }
        passing
    }
}

} // verus!
