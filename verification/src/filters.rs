use vstd::prelude::*;

use vstd::string::StringExecFns;

use crate::models::Fissure;
use crate::text::{str_eq, Label};

verus! {

/// A filter over one attribute of a fissure: a configured dimension is a list
/// of such filters, and a fissure passes the dimension when any of them
/// accepts it.
pub trait AttributeFilter {
    /// Whether this filter value accepts the fissure.
    spec fn matches(&self, fissure: &Fissure) -> bool;

    fn accepts(&self, fissure: &Fissure) -> (accepted: bool)
        ensures
            accepted == self.matches(fissure),
    ;
}

/// Whether any filter of the dimension accepts the fissure.
pub open spec fn any_matches<F: AttributeFilter>(filters: Seq<F>, fissure: &Fissure) -> bool {
    exists|i: int| 0 <= i < filters.len() && (#[trigger] filters[i]).matches(fissure)
}

/// Evaluates one dimension: true iff some configured value accepts the
/// fissure, so an empty dimension rejects everything.
pub fn passes_dimension<F: AttributeFilter>(filters: &Vec<F>, fissure: &Fissure) -> (passes: bool)
    ensures
        passes == any_matches(filters@, fissure),
{
    let mut i: usize = 0;
    while i < filters.len()
        invariant
            i <= filters.len(),
            forall|j: int| 0 <= j < i ==> !(#[trigger] filters@[j]).matches(fissure),
        decreases filters.len() - i,
    {
        if filters[i].accepts(fissure) {
            return true;
        }
        i += 1;
    }
    false
}

/// Whether to include, exclude or exclusively use the given value
#[derive(Debug, Clone, Copy, PartialEq, Eq, Hash, Structural)]
pub enum ExclusivityFilter {
    /// Exclude those with the given value
    Exclude,
    /// Include those with and without the given value
    Include,
    /// Exclude all but these values
    Exclusive,
}

impl ExclusivityFilter {
    /// The selector as a predicate on the flag it is applied to.
    pub open spec fn admits(self, value: bool) -> bool {
        match self {
            ExclusivityFilter::Exclude => !value,
            ExclusivityFilter::Include => true,
            ExclusivityFilter::Exclusive => value,
        }
    }

    pub fn apply_filter(&self, value: bool) -> (passes: bool)
        ensures
            passes == self.admits(value),
            *self == ExclusivityFilter::Exclude ==> passes == !value,
            *self == ExclusivityFilter::Include ==> passes,
            *self == ExclusivityFilter::Exclusive ==> passes == value,
    {
        match self {
            ExclusivityFilter::Exclude => !value,
            ExclusivityFilter::Include => true,
            ExclusivityFilter::Exclusive => value,
        }
    }
}

#[derive(Debug, Clone, Copy, PartialEq, Eq, Hash, Structural)]
pub enum Factions {
    Orokin,
    Grineer,
    Corpus,
    Infested,
    Narmer,
    Crossfire,
}

impl Factions {
    pub fn apply_filter(&self, value: &Fissure) -> (passes: bool)
        ensures
            passes == (value.enemy == *self),
    {
        value.enemy == *self
    }
}

impl AttributeFilter for Factions {
    open spec fn matches(&self, fissure: &Fissure) -> bool {
        fissure.enemy == *self
    }

    fn accepts(&self, fissure: &Fissure) -> (accepted: bool) {
        self.apply_filter(fissure)
    }
}

#[derive(Debug, Clone, Copy, PartialEq, Eq, Hash, Structural)]
pub enum Tier {
    Lith,
    Meso,
    Neo,
    Axi,
    Requiem,
}

impl Tier {
    pub fn apply_filter(&self, value: &Fissure) -> (passes: bool)
        ensures
            passes == (value.tier == *self),
    {
        value.tier == *self
    }
}

impl AttributeFilter for Tier {
    open spec fn matches(&self, fissure: &Fissure) -> bool {
        fissure.tier == *self
    }

    fn accepts(&self, fissure: &Fissure) -> (accepted: bool) {
        self.apply_filter(fissure)
    }
}

impl ExclusivityFilter {
    /// The name of the variant: what it is displayed as and parsed from.
    pub open spec fn name(self) -> Seq<char> {
        match self {
            ExclusivityFilter::Exclude => "Exclude"@,
            ExclusivityFilter::Include => "Include"@,
            ExclusivityFilter::Exclusive => "Exclusive"@,
        }
    }

    /// The variant that the text names, if it names one.
    pub open spec fn named(text: Seq<char>) -> Option<ExclusivityFilter> {
        if text == "Exclude"@ {
            Some(ExclusivityFilter::Exclude)
        } else if text == "Include"@ {
            Some(ExclusivityFilter::Include)
        } else if text == "Exclusive"@ {
            Some(ExclusivityFilter::Exclusive)
        } else {
            None
        }
    }

    pub fn as_str(&self) -> (text: &'static str)
        ensures
            text@ == self.name(),
    {
        match self {
            ExclusivityFilter::Exclude => "Exclude",
            ExclusivityFilter::Include => "Include",
            ExclusivityFilter::Exclusive => "Exclusive",
        }
    }

    pub fn to_string(&self) -> (text: String)
        ensures
            text@ == self.name(),
    {
        String::from_str(self.as_str())
    }

    /// Parses the name of a variant; any other text is refused with a
    /// message that quotes it.
    pub fn from_str(s: &str) -> (parsed: Result<ExclusivityFilter, String>)
        ensures
            match parsed {
                Ok(value) => ExclusivityFilter::named(s@) == Some(value),
                Err(message) => ExclusivityFilter::named(s@) is None && message@ == s@
                    + " is not a valid ExclusivityFilter"@,
            },
    {
        if str_eq(s, "Exclude") {
            Ok(ExclusivityFilter::Exclude)
        } else if str_eq(s, "Include") {
            Ok(ExclusivityFilter::Include)
        } else if str_eq(s, "Exclusive") {
            Ok(ExclusivityFilter::Exclusive)
        } else {
            let mut message = String::from_str(s);
            message.append(" is not a valid ExclusivityFilter");
            Err(message)
        }
    }

    /// Every variant is parsed back from its own name, so no two variants
    /// share a name.
    pub proof fn lemma_named_name(self)
        ensures
            ExclusivityFilter::named(self.name()) == Some(self),
    {
        reveal_strlit("Exclude");
        reveal_strlit("Include");
        reveal_strlit("Exclusive");
        // the length and the leading characters tell the names apart
        assert("Exclude"@.len() == 7 && "Exclude"@[0] == 'E');
        assert("Include"@.len() == 7 && "Include"@[0] == 'I');
        assert("Exclusive"@.len() == 9 && "Exclusive"@[0] == 'E');
    }
}

impl Label for ExclusivityFilter {
    open spec fn label(&self) -> Seq<char> {
        self.name()
    }

    fn to_label(&self) -> (text: String) {
        self.to_string()
    }
}

impl Factions {
    /// The name of the variant: what it is displayed as and parsed from.
    pub open spec fn name(self) -> Seq<char> {
        match self {
            Factions::Orokin => "Orokin"@,
            Factions::Grineer => "Grineer"@,
            Factions::Corpus => "Corpus"@,
            Factions::Infested => "Infested"@,
            Factions::Narmer => "Narmer"@,
            Factions::Crossfire => "Crossfire"@,
        }
    }

    /// The variant that the text names, if it names one.
    pub open spec fn named(text: Seq<char>) -> Option<Factions> {
        if text == "Orokin"@ {
            Some(Factions::Orokin)
        } else if text == "Grineer"@ {
            Some(Factions::Grineer)
        } else if text == "Corpus"@ {
            Some(Factions::Corpus)
        } else if text == "Infested"@ {
            Some(Factions::Infested)
        } else if text == "Narmer"@ {
            Some(Factions::Narmer)
        } else if text == "Crossfire"@ {
            Some(Factions::Crossfire)
        } else {
            None
        }
    }

    pub fn as_str(&self) -> (text: &'static str)
        ensures
            text@ == self.name(),
    {
        match self {
            Factions::Orokin => "Orokin",
            Factions::Grineer => "Grineer",
            Factions::Corpus => "Corpus",
            Factions::Infested => "Infested",
            Factions::Narmer => "Narmer",
            Factions::Crossfire => "Crossfire",
        }
    }

    pub fn to_string(&self) -> (text: String)
        ensures
            text@ == self.name(),
    {
        String::from_str(self.as_str())
    }

    /// Parses the name of a variant; any other text is refused with a
    /// message that quotes it.
    pub fn from_str(s: &str) -> (parsed: Result<Factions, String>)
        ensures
            match parsed {
                Ok(value) => Factions::named(s@) == Some(value),
                Err(message) => Factions::named(s@) is None && message@ == s@
                    + " is not a valid Factions"@,
            },
    {
        if str_eq(s, "Orokin") {
            Ok(Factions::Orokin)
        } else if str_eq(s, "Grineer") {
            Ok(Factions::Grineer)
        } else if str_eq(s, "Corpus") {
            Ok(Factions::Corpus)
        } else if str_eq(s, "Infested") {
            Ok(Factions::Infested)
        } else if str_eq(s, "Narmer") {
            Ok(Factions::Narmer)
        } else if str_eq(s, "Crossfire") {
            Ok(Factions::Crossfire)
        } else {
            let mut message = String::from_str(s);
            message.append(" is not a valid Factions");
            Err(message)
        }
    }

    /// Every variant is parsed back from its own name, so no two variants
    /// share a name.
    pub proof fn lemma_named_name(self)
        ensures
            Factions::named(self.name()) == Some(self),
    {
        reveal_strlit("Orokin");
        reveal_strlit("Grineer");
        reveal_strlit("Corpus");
        reveal_strlit("Infested");
        reveal_strlit("Narmer");
        reveal_strlit("Crossfire");
        // the length and the leading characters tell the names apart
        assert("Orokin"@.len() == 6 && "Orokin"@[0] == 'O');
        assert("Grineer"@.len() == 7 && "Grineer"@[0] == 'G');
        assert("Corpus"@.len() == 6 && "Corpus"@[0] == 'C');
        assert("Infested"@.len() == 8 && "Infested"@[0] == 'I');
        assert("Narmer"@.len() == 6 && "Narmer"@[0] == 'N');
        assert("Crossfire"@.len() == 9 && "Crossfire"@[0] == 'C');
    }
}

impl Label for Factions {
    open spec fn label(&self) -> Seq<char> {
        self.name()
    }

    fn to_label(&self) -> (text: String) {
        self.to_string()
    }
}

impl Tier {
    /// The name of the variant: what it is displayed as and parsed from.
    pub open spec fn name(self) -> Seq<char> {
        match self {
            Tier::Lith => "Lith"@,
            Tier::Meso => "Meso"@,
            Tier::Neo => "Neo"@,
            Tier::Axi => "Axi"@,
            Tier::Requiem => "Requiem"@,
        }
    }

    /// The variant that the text names, if it names one.
    pub open spec fn named(text: Seq<char>) -> Option<Tier> {
        if text == "Lith"@ {
            Some(Tier::Lith)
        } else if text == "Meso"@ {
            Some(Tier::Meso)
        } else if text == "Neo"@ {
            Some(Tier::Neo)
        } else if text == "Axi"@ {
            Some(Tier::Axi)
        } else if text == "Requiem"@ {
            Some(Tier::Requiem)
        } else {
            None
        }
    }

    pub fn as_str(&self) -> (text: &'static str)
        ensures
            text@ == self.name(),
    {
        match self {
            Tier::Lith => "Lith",
            Tier::Meso => "Meso",
            Tier::Neo => "Neo",
            Tier::Axi => "Axi",
            Tier::Requiem => "Requiem",
        }
    }

    pub fn to_string(&self) -> (text: String)
        ensures
            text@ == self.name(),
    {
        String::from_str(self.as_str())
    }

    /// Parses the name of a variant; any other text is refused with a
    /// message that quotes it.
    pub fn from_str(s: &str) -> (parsed: Result<Tier, String>)
        ensures
            match parsed {
                Ok(value) => Tier::named(s@) == Some(value),
                Err(message) => Tier::named(s@) is None && message@ == s@
                    + " is not a valid Tier"@,
            },
    {
        if str_eq(s, "Lith") {
            Ok(Tier::Lith)
        } else if str_eq(s, "Meso") {
            Ok(Tier::Meso)
        } else if str_eq(s, "Neo") {
            Ok(Tier::Neo)
        } else if str_eq(s, "Axi") {
            Ok(Tier::Axi)
        } else if str_eq(s, "Requiem") {
            Ok(Tier::Requiem)
        } else {
            let mut message = String::from_str(s);
            message.append(" is not a valid Tier");
            Err(message)
        }
    }

    /// Every variant is parsed back from its own name, so no two variants
    /// share a name.
    pub proof fn lemma_named_name(self)
        ensures
            Tier::named(self.name()) == Some(self),
    {
        reveal_strlit("Lith");
        reveal_strlit("Meso");
        reveal_strlit("Neo");
        reveal_strlit("Axi");
        reveal_strlit("Requiem");
        // the length and the leading characters tell the names apart
        assert("Lith"@.len() == 4 && "Lith"@[0] == 'L');
        assert("Meso"@.len() == 4 && "Meso"@[0] == 'M');
        assert("Neo"@.len() == 3 && "Neo"@[0] == 'N');
        assert("Axi"@.len() == 3 && "Axi"@[0] == 'A');
        assert("Requiem"@.len() == 7 && "Requiem"@[0] == 'R');
    }
}

impl Label for Tier {
    open spec fn label(&self) -> Seq<char> {
        self.name()
    }

    fn to_label(&self) -> (text: String) {
        self.to_string()
    }
}

} // verus!
