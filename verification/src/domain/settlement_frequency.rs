//! `SettlementFrequency`: its wire names (the text it is stored and displayed as), parsing and default.
use vstd::prelude::*;

use crate::text::ascii_lower;
use crate::text::str_eq;
use crate::text::to_lowercase;
use crate::text::unicode_lowercase;

verus! {

broadcast use vstd::string::group_string_axioms;

#[derive(Debug, Clone, Copy, PartialEq, Eq, Hash, Structural)]
pub enum SettlementFrequency {
    Daily,
    Weekly,
    Biweekly,
    Monthly,
}

impl SettlementFrequency {
    /// The variant's wire name.
    pub open spec fn spec_name(self) -> Seq<char> {
        match self {
            SettlementFrequency::Daily => seq!['d', 'a', 'i', 'l', 'y'],
            SettlementFrequency::Weekly => seq!['w', 'e', 'e', 'k', 'l', 'y'],
            SettlementFrequency::Biweekly => seq!['b', 'i', 'w', 'e', 'e', 'k', 'l', 'y'],
            SettlementFrequency::Monthly => seq!['m', 'o', 'n', 't', 'h', 'l', 'y'],
        }
    }

    /// The variant a (lowercase) wire name names.
    pub open spec fn spec_from_name(s: Seq<char>) -> Option<SettlementFrequency> {
        if s == seq!['d', 'a', 'i', 'l', 'y'] {
            Some(SettlementFrequency::Daily)
        } else if s == seq!['w', 'e', 'e', 'k', 'l', 'y'] {
            Some(SettlementFrequency::Weekly)
        } else if s == seq!['b', 'i', 'w', 'e', 'e', 'k', 'l', 'y'] {
            Some(SettlementFrequency::Biweekly)
        } else if s == seq!['m', 'o', 'n', 't', 'h', 'l', 'y'] {
            Some(SettlementFrequency::Monthly)
        } else {
            None
        }
    }

    /// The wire name (what `Display` writes).
    pub fn as_str(&self) -> (r: &'static str)
        ensures
            r@ == self.spec_name(),
    {
        match self {
            SettlementFrequency::Daily => {
                proof {
                    reveal_strlit("daily");
                    assert("daily"@ =~= seq!['d', 'a', 'i', 'l', 'y']);
                }
                "daily"
            },
            SettlementFrequency::Weekly => {
                proof {
                    reveal_strlit("weekly");
                    assert("weekly"@ =~= seq!['w', 'e', 'e', 'k', 'l', 'y']);
                }
                "weekly"
            },
            SettlementFrequency::Biweekly => {
                proof {
                    reveal_strlit("biweekly");
                    assert("biweekly"@ =~= seq!['b', 'i', 'w', 'e', 'e', 'k', 'l', 'y']);
                }
                "biweekly"
            },
            SettlementFrequency::Monthly => {
                proof {
                    reveal_strlit("monthly");
                    assert("monthly"@ =~= seq!['m', 'o', 'n', 't', 'h', 'l', 'y']);
                }
                "monthly"
            },
        }
    }

    /// The wire name as an owned string.
    pub fn to_string(&self) -> (r: String)
        ensures
            r@ == self.spec_name(),
    {
        self.as_str().to_string()
    }

    /// Parse a wire name, case-insensitively (the text is lowercased first).
    pub fn parse(s: &str) -> (r: Result<SettlementFrequency, String>)
        ensures
            match Self::spec_from_name(unicode_lowercase(s@)) {
                Some(v) => r == Ok::<SettlementFrequency, String>(v),
                None => r matches Err(m) && m@ == "Unknown SettlementFrequency variant: "@ + s@,
            },
            vstd::utf8::is_ascii_chars(s@) ==> unicode_lowercase(s@) == ascii_lower(s@),
    {
        let lower = to_lowercase(s);
        if str_eq(lower.as_str(), "daily") {
            proof {
                reveal_strlit("daily");
                assert("daily"@ =~= seq!['d', 'a', 'i', 'l', 'y']);
            }
            return Ok(SettlementFrequency::Daily);
        }
        if str_eq(lower.as_str(), "weekly") {
            proof {
                reveal_strlit("weekly");
                assert("weekly"@ =~= seq!['w', 'e', 'e', 'k', 'l', 'y']);
            }
            return Ok(SettlementFrequency::Weekly);
        }
        if str_eq(lower.as_str(), "biweekly") {
            proof {
                reveal_strlit("biweekly");
                assert("biweekly"@ =~= seq!['b', 'i', 'w', 'e', 'e', 'k', 'l', 'y']);
            }
            return Ok(SettlementFrequency::Biweekly);
        }
        if str_eq(lower.as_str(), "monthly") {
            proof {
                reveal_strlit("monthly");
                assert("monthly"@ =~= seq!['m', 'o', 'n', 't', 'h', 'l', 'y']);
            }
            return Ok(SettlementFrequency::Monthly);
        }
        proof {
            reveal_strlit("daily");
            assert("daily"@ =~= seq!['d', 'a', 'i', 'l', 'y']);
        }
        proof {
            reveal_strlit("weekly");
            assert("weekly"@ =~= seq!['w', 'e', 'e', 'k', 'l', 'y']);
        }
        proof {
            reveal_strlit("biweekly");
            assert("biweekly"@ =~= seq!['b', 'i', 'w', 'e', 'e', 'k', 'l', 'y']);
        }
        proof {
            reveal_strlit("monthly");
            assert("monthly"@ =~= seq!['m', 'o', 'n', 't', 'h', 'l', 'y']);
        }
        Err("Unknown SettlementFrequency variant: ".to_string().concat(s))
    }

    /// Every wire name is lowercase ASCII and names its own variant, so parsing what a variant
    /// displays as gives the variant back.
    pub proof fn lemma_name_round_trip(v: SettlementFrequency)
        ensures
            vstd::utf8::is_ascii_chars(v.spec_name()),
            ascii_lower(v.spec_name()) == v.spec_name(),
            Self::spec_from_name(v.spec_name()) == Some(v),
    {
        match v {
            SettlementFrequency::Daily => {
                assert(ascii_lower(seq!['d', 'a', 'i', 'l', 'y']) =~= seq!['d', 'a', 'i', 'l', 'y']);
            },
            SettlementFrequency::Weekly => {
                assert(ascii_lower(seq!['w', 'e', 'e', 'k', 'l', 'y']) =~= seq!['w', 'e', 'e', 'k', 'l', 'y']);
            },
            SettlementFrequency::Biweekly => {
                assert(ascii_lower(seq!['b', 'i', 'w', 'e', 'e', 'k', 'l', 'y']) =~= seq!['b', 'i', 'w', 'e', 'e', 'k', 'l', 'y']);
            },
            SettlementFrequency::Monthly => {
                assert(ascii_lower(seq!['m', 'o', 'n', 't', 'h', 'l', 'y']) =~= seq!['m', 'o', 'n', 't', 'h', 'l', 'y']);
            },
        }
    }
}

impl Default for SettlementFrequency {
    fn default() -> (r: Self)
        ensures
            r == SettlementFrequency::Daily,
    {
        SettlementFrequency::Daily
    }
}

impl std::str::FromStr for SettlementFrequency {
    type Err = String;

    fn from_str(s: &str) -> Result<Self, Self::Err> {
        Self::parse(s)
    }
}

} // verus!
