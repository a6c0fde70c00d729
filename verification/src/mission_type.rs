use vstd::prelude::*;

use vstd::string::StringExecFns;

use crate::filters::AttributeFilter;
use crate::models::Fissure;
use crate::text::{str_eq, Label};

verus! {

#[derive(Debug, Clone, Copy, PartialEq, Eq, Hash, Structural)]
pub enum MissionType {
    Capture,
    Defense,
    Excavation,
    Extermination,
    Interception,
    MobileDefense,
    Rescue,
    Sabotage,
    Survival,
    Spy,
    Hijack,
    Assault,
    Defection,
    InfestedSalvage,
    Disruption,
    SanctuaryOnslaught,
    FreeRoam,
    Arena,
    Skirmish,
    Orphix,
    Volatile,
    Hive,
    Assassination,
    Rush,
    Pursuit,
    Deception,
    Crossfire,
}

impl MissionType {
    pub fn apply_filter(&self, value: &Fissure) -> (passes: bool)
        ensures
            passes == (value.mission_type == *self),
    {
        value.mission_type == *self
    }
}

impl AttributeFilter for MissionType {
    open spec fn matches(&self, fissure: &Fissure) -> bool {
        fissure.mission_type == *self
    }

    fn accepts(&self, fissure: &Fissure) -> (accepted: bool) {
        self.apply_filter(fissure)
    }
}

impl MissionType {
    /// The name of the variant: what it is displayed as and parsed from.
    pub open spec fn name(self) -> Seq<char> {
        match self {
            MissionType::Capture => "Capture"@,
            MissionType::Defense => "Defense"@,
            MissionType::Excavation => "Excavation"@,
            MissionType::Extermination => "Extermination"@,
            MissionType::Interception => "Interception"@,
            MissionType::MobileDefense => "MobileDefense"@,
            MissionType::Rescue => "Rescue"@,
            MissionType::Sabotage => "Sabotage"@,
            MissionType::Survival => "Survival"@,
            MissionType::Spy => "Spy"@,
            MissionType::Hijack => "Hijack"@,
            MissionType::Assault => "Assault"@,
            MissionType::Defection => "Defection"@,
            MissionType::InfestedSalvage => "InfestedSalvage"@,
            MissionType::Disruption => "Disruption"@,
            MissionType::SanctuaryOnslaught => "SanctuaryOnslaught"@,
            MissionType::FreeRoam => "FreeRoam"@,
            MissionType::Arena => "Arena"@,
            MissionType::Skirmish => "Skirmish"@,
            MissionType::Orphix => "Orphix"@,
            MissionType::Volatile => "Volatile"@,
            MissionType::Hive => "Hive"@,
            MissionType::Assassination => "Assassination"@,
            MissionType::Rush => "Rush"@,
            MissionType::Pursuit => "Pursuit"@,
            MissionType::Deception => "Deception"@,
            MissionType::Crossfire => "Crossfire"@,
        }
    }

    /// The variant that the text names, if it names one.
    pub open spec fn named(text: Seq<char>) -> Option<MissionType> {
        if text == "Capture"@ {
            Some(MissionType::Capture)
        } else if text == "Defense"@ {
            Some(MissionType::Defense)
        } else if text == "Excavation"@ {
            Some(MissionType::Excavation)
        } else if text == "Extermination"@ {
            Some(MissionType::Extermination)
        } else if text == "Interception"@ {
            Some(MissionType::Interception)
        } else if text == "MobileDefense"@ {
            Some(MissionType::MobileDefense)
        } else if text == "Rescue"@ {
            Some(MissionType::Rescue)
        } else if text == "Sabotage"@ {
            Some(MissionType::Sabotage)
        } else if text == "Survival"@ {
            Some(MissionType::Survival)
        } else if text == "Spy"@ {
            Some(MissionType::Spy)
        } else if text == "Hijack"@ {
            Some(MissionType::Hijack)
        } else if text == "Assault"@ {
            Some(MissionType::Assault)
        } else if text == "Defection"@ {
            Some(MissionType::Defection)
        } else if text == "InfestedSalvage"@ {
            Some(MissionType::InfestedSalvage)
        } else if text == "Disruption"@ {
            Some(MissionType::Disruption)
        } else if text == "SanctuaryOnslaught"@ {
            Some(MissionType::SanctuaryOnslaught)
        } else if text == "FreeRoam"@ {
            Some(MissionType::FreeRoam)
        } else if text == "Arena"@ {
            Some(MissionType::Arena)
        } else if text == "Skirmish"@ {
            Some(MissionType::Skirmish)
        } else if text == "Orphix"@ {
            Some(MissionType::Orphix)
        } else if text == "Volatile"@ {
            Some(MissionType::Volatile)
        } else if text == "Hive"@ {
            Some(MissionType::Hive)
        } else if text == "Assassination"@ {
            Some(MissionType::Assassination)
        } else if text == "Rush"@ {
            Some(MissionType::Rush)
        } else if text == "Pursuit"@ {
            Some(MissionType::Pursuit)
        } else if text == "Deception"@ {
            Some(MissionType::Deception)
        } else if text == "Crossfire"@ {
            Some(MissionType::Crossfire)
        } else {
            None
        }
    }

    pub fn as_str(&self) -> (text: &'static str)
        ensures
            text@ == self.name(),
    {
        match self {
            MissionType::Capture => "Capture",
            MissionType::Defense => "Defense",
            MissionType::Excavation => "Excavation",
            MissionType::Extermination => "Extermination",
            MissionType::Interception => "Interception",
            MissionType::MobileDefense => "MobileDefense",
            MissionType::Rescue => "Rescue",
            MissionType::Sabotage => "Sabotage",
            MissionType::Survival => "Survival",
            MissionType::Spy => "Spy",
            MissionType::Hijack => "Hijack",
            MissionType::Assault => "Assault",
            MissionType::Defection => "Defection",
            MissionType::InfestedSalvage => "InfestedSalvage",
            MissionType::Disruption => "Disruption",
            MissionType::SanctuaryOnslaught => "SanctuaryOnslaught",
            MissionType::FreeRoam => "FreeRoam",
            MissionType::Arena => "Arena",
            MissionType::Skirmish => "Skirmish",
            MissionType::Orphix => "Orphix",
            MissionType::Volatile => "Volatile",
            MissionType::Hive => "Hive",
            MissionType::Assassination => "Assassination",
            MissionType::Rush => "Rush",
            MissionType::Pursuit => "Pursuit",
            MissionType::Deception => "Deception",
            MissionType::Crossfire => "Crossfire",
        }
    }

    pub fn to_string(&self) -> (text: String)
        ensures
            text@ == self.name(),
    {
        String::from_str(self.as_str())
    }

    /// Parses the name of a variant; any other text is refused with a
    /// message that quotes it.
    pub fn from_str(s: &str) -> (parsed: Result<MissionType, String>)
        ensures
            match parsed {
                Ok(value) => MissionType::named(s@) == Some(value),
                Err(message) => MissionType::named(s@) is None && message@ == s@
                    + " is not a valid MissionType"@,
            },
    {
        if str_eq(s, "Capture") {
            Ok(MissionType::Capture)
        } else if str_eq(s, "Defense") {
            Ok(MissionType::Defense)
        } else if str_eq(s, "Excavation") {
            Ok(MissionType::Excavation)
        } else if str_eq(s, "Extermination") {
            Ok(MissionType::Extermination)
        } else if str_eq(s, "Interception") {
            Ok(MissionType::Interception)
        } else if str_eq(s, "MobileDefense") {
            Ok(MissionType::MobileDefense)
        } else if str_eq(s, "Rescue") {
            Ok(MissionType::Rescue)
        } else if str_eq(s, "Sabotage") {
            Ok(MissionType::Sabotage)
        } else if str_eq(s, "Survival") {
            Ok(MissionType::Survival)
        } else if str_eq(s, "Spy") {
            Ok(MissionType::Spy)
        } else if str_eq(s, "Hijack") {
            Ok(MissionType::Hijack)
        } else if str_eq(s, "Assault") {
            Ok(MissionType::Assault)
        } else if str_eq(s, "Defection") {
            Ok(MissionType::Defection)
        } else if str_eq(s, "InfestedSalvage") {
            Ok(MissionType::InfestedSalvage)
        } else if str_eq(s, "Disruption") {
            Ok(MissionType::Disruption)
        } else if str_eq(s, "SanctuaryOnslaught") {
            Ok(MissionType::SanctuaryOnslaught)
        } else if str_eq(s, "FreeRoam") {
            Ok(MissionType::FreeRoam)
        } else if str_eq(s, "Arena") {
            Ok(MissionType::Arena)
        } else if str_eq(s, "Skirmish") {
            Ok(MissionType::Skirmish)
        } else if str_eq(s, "Orphix") {
            Ok(MissionType::Orphix)
        } else if str_eq(s, "Volatile") {
            Ok(MissionType::Volatile)
        } else if str_eq(s, "Hive") {
            Ok(MissionType::Hive)
        } else if str_eq(s, "Assassination") {
            Ok(MissionType::Assassination)
        } else if str_eq(s, "Rush") {
            Ok(MissionType::Rush)
        } else if str_eq(s, "Pursuit") {
            Ok(MissionType::Pursuit)
        } else if str_eq(s, "Deception") {
            Ok(MissionType::Deception)
        } else if str_eq(s, "Crossfire") {
            Ok(MissionType::Crossfire)
        } else {
            let mut message = String::from_str(s);
            message.append(" is not a valid MissionType");
            Err(message)
        }
    }

    /// Every variant is parsed back from its own name, so no two variants
    /// share a name.
    pub proof fn lemma_named_name(self)
        ensures
            MissionType::named(self.name()) == Some(self),
    {
        reveal_strlit("Capture");
        reveal_strlit("Defense");
        reveal_strlit("Excavation");
        reveal_strlit("Extermination");
        reveal_strlit("Interception");
        reveal_strlit("MobileDefense");
        reveal_strlit("Rescue");
        reveal_strlit("Sabotage");
        reveal_strlit("Survival");
        reveal_strlit("Spy");
        reveal_strlit("Hijack");
        reveal_strlit("Assault");
        reveal_strlit("Defection");
        reveal_strlit("InfestedSalvage");
        reveal_strlit("Disruption");
        reveal_strlit("SanctuaryOnslaught");
        reveal_strlit("FreeRoam");
        reveal_strlit("Arena");
        reveal_strlit("Skirmish");
        reveal_strlit("Orphix");
        reveal_strlit("Volatile");
        reveal_strlit("Hive");
        reveal_strlit("Assassination");
        reveal_strlit("Rush");
        reveal_strlit("Pursuit");
        reveal_strlit("Deception");
        reveal_strlit("Crossfire");
        // the length and the leading characters tell the names apart
        assert("Capture"@.len() == 7 && "Capture"@[0] == 'C' && "Capture"@[1] == 'a'
            && "Capture"@[2] == 'p');
        assert("Defense"@.len() == 7 && "Defense"@[0] == 'D' && "Defense"@[1] == 'e'
            && "Defense"@[2] == 'f');
        assert("Excavation"@.len() == 10 && "Excavation"@[0] == 'E' && "Excavation"@[1] == 'x'
            && "Excavation"@[2] == 'c');
        assert("Extermination"@.len() == 13 && "Extermination"@[0] == 'E'
            && "Extermination"@[1] == 'x' && "Extermination"@[2] == 't');
        assert("Interception"@.len() == 12 && "Interception"@[0] == 'I'
            && "Interception"@[1] == 'n' && "Interception"@[2] == 't');
        assert("MobileDefense"@.len() == 13 && "MobileDefense"@[0] == 'M'
            && "MobileDefense"@[1] == 'o' && "MobileDefense"@[2] == 'b');
        assert("Rescue"@.len() == 6 && "Rescue"@[0] == 'R' && "Rescue"@[1] == 'e'
            && "Rescue"@[2] == 's');
        assert("Sabotage"@.len() == 8 && "Sabotage"@[0] == 'S' && "Sabotage"@[1] == 'a'
            && "Sabotage"@[2] == 'b');
        assert("Survival"@.len() == 8 && "Survival"@[0] == 'S' && "Survival"@[1] == 'u'
            && "Survival"@[2] == 'r');
        assert("Spy"@.len() == 3 && "Spy"@[0] == 'S' && "Spy"@[1] == 'p' && "Spy"@[2] == 'y');
        assert("Hijack"@.len() == 6 && "Hijack"@[0] == 'H' && "Hijack"@[1] == 'i'
            && "Hijack"@[2] == 'j');
        assert("Assault"@.len() == 7 && "Assault"@[0] == 'A' && "Assault"@[1] == 's'
            && "Assault"@[2] == 's');
        assert("Defection"@.len() == 9 && "Defection"@[0] == 'D' && "Defection"@[1] == 'e'
            && "Defection"@[2] == 'f');
        assert("InfestedSalvage"@.len() == 15 && "InfestedSalvage"@[0] == 'I'
            && "InfestedSalvage"@[1] == 'n' && "InfestedSalvage"@[2] == 'f');
        assert("Disruption"@.len() == 10 && "Disruption"@[0] == 'D' && "Disruption"@[1] == 'i'
            && "Disruption"@[2] == 's');
        assert("SanctuaryOnslaught"@.len() == 18 && "SanctuaryOnslaught"@[0] == 'S'
            && "SanctuaryOnslaught"@[1] == 'a' && "SanctuaryOnslaught"@[2] == 'n');
        assert("FreeRoam"@.len() == 8 && "FreeRoam"@[0] == 'F' && "FreeRoam"@[1] == 'r'
            && "FreeRoam"@[2] == 'e');
        assert("Arena"@.len() == 5 && "Arena"@[0] == 'A' && "Arena"@[1] == 'r'
            && "Arena"@[2] == 'e');
        assert("Skirmish"@.len() == 8 && "Skirmish"@[0] == 'S' && "Skirmish"@[1] == 'k'
            && "Skirmish"@[2] == 'i');
        assert("Orphix"@.len() == 6 && "Orphix"@[0] == 'O' && "Orphix"@[1] == 'r'
            && "Orphix"@[2] == 'p');
        assert("Volatile"@.len() == 8 && "Volatile"@[0] == 'V' && "Volatile"@[1] == 'o'
            && "Volatile"@[2] == 'l');
        assert("Hive"@.len() == 4 && "Hive"@[0] == 'H' && "Hive"@[1] == 'i' && "Hive"@[2] == 'v');
        assert("Assassination"@.len() == 13 && "Assassination"@[0] == 'A'
            && "Assassination"@[1] == 's' && "Assassination"@[2] == 's');
        assert("Rush"@.len() == 4 && "Rush"@[0] == 'R' && "Rush"@[1] == 'u' && "Rush"@[2] == 's');
        assert("Pursuit"@.len() == 7 && "Pursuit"@[0] == 'P' && "Pursuit"@[1] == 'u'
            && "Pursuit"@[2] == 'r');
        assert("Deception"@.len() == 9 && "Deception"@[0] == 'D' && "Deception"@[1] == 'e'
            && "Deception"@[2] == 'c');
        assert("Crossfire"@.len() == 9 && "Crossfire"@[0] == 'C' && "Crossfire"@[1] == 'r'
            && "Crossfire"@[2] == 'o');
    }
}

impl Label for MissionType {
    open spec fn label(&self) -> Seq<char> {
        self.name()
    }

    fn to_label(&self) -> (text: String) {
        self.to_string()
    }
}

} // verus!
