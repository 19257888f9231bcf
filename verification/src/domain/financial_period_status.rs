//! `FinancialPeriodStatus`: its wire names (the text it is stored and displayed as), parsing and default.
use vstd::prelude::*;

use crate::text::ascii_lower;
use crate::text::str_eq;
use crate::text::to_lowercase;
use crate::text::unicode_lowercase;

verus! {

broadcast use vstd::string::group_string_axioms;

#[derive(Debug, Clone, Copy, PartialEq, Eq, Hash, Structural)]
pub enum FinancialPeriodStatus {
    Open,
    Closing,
    Closed,
    Locked,
}

impl FinancialPeriodStatus {
    /// The variant's wire name.
    pub open spec fn spec_name(self) -> Seq<char> {
        match self {
            FinancialPeriodStatus::Open => seq!['o', 'p', 'e', 'n'],
            FinancialPeriodStatus::Closing => seq!['c', 'l', 'o', 's', 'i', 'n', 'g'],
            FinancialPeriodStatus::Closed => seq!['c', 'l', 'o', 's', 'e', 'd'],
            FinancialPeriodStatus::Locked => seq!['l', 'o', 'c', 'k', 'e', 'd'],
        }
    }

    /// The variant a (lowercase) wire name names.
    pub open spec fn spec_from_name(s: Seq<char>) -> Option<FinancialPeriodStatus> {
        if s == seq!['o', 'p', 'e', 'n'] {
            Some(FinancialPeriodStatus::Open)
        } else if s == seq!['c', 'l', 'o', 's', 'i', 'n', 'g'] {
            Some(FinancialPeriodStatus::Closing)
        } else if s == seq!['c', 'l', 'o', 's', 'e', 'd'] {
            Some(FinancialPeriodStatus::Closed)
        } else if s == seq!['l', 'o', 'c', 'k', 'e', 'd'] {
            Some(FinancialPeriodStatus::Locked)
        } else {
            None
        }
    }

    /// The wire name (what `Display` writes).
    pub fn as_str(&self) -> (r: &'static str)
        ensures
            r@ == self.spec_name(),
    {
        match self {
            FinancialPeriodStatus::Open => {
                proof {
                    reveal_strlit("open");
                    assert("open"@ =~= seq!['o', 'p', 'e', 'n']);
                }
                "open"
            },
            FinancialPeriodStatus::Closing => {
                proof {
                    reveal_strlit("closing");
                    assert("closing"@ =~= seq!['c', 'l', 'o', 's', 'i', 'n', 'g']);
                }
                "closing"
            },
            FinancialPeriodStatus::Closed => {
                proof {
                    reveal_strlit("closed");
                    assert("closed"@ =~= seq!['c', 'l', 'o', 's', 'e', 'd']);
                }
                "closed"
            },
            FinancialPeriodStatus::Locked => {
                proof {
                    reveal_strlit("locked");
                    assert("locked"@ =~= seq!['l', 'o', 'c', 'k', 'e', 'd']);
                }
                "locked"
            },
        }
    }

    /// The wire name as an owned string.
    pub fn to_string(&self) -> (r: String)
        ensures
            r@ == self.spec_name(),
    {
        self.as_str().to_string()
    }

    /// Parse a wire name, case-insensitively (the text is lowercased first).
    pub fn parse(s: &str) -> (r: Result<FinancialPeriodStatus, String>)
        ensures
            match Self::spec_from_name(unicode_lowercase(s@)) {
                Some(v) => r == Ok::<FinancialPeriodStatus, String>(v),
                None => r matches Err(m) && m@ == "Unknown FinancialPeriodStatus variant: "@ + s@,
            },
            vstd::utf8::is_ascii_chars(s@) ==> unicode_lowercase(s@) == ascii_lower(s@),
    {
        let lower = to_lowercase(s);
        if str_eq(lower.as_str(), "open") {
            proof {
                reveal_strlit("open");
                assert("open"@ =~= seq!['o', 'p', 'e', 'n']);
            }
            return Ok(FinancialPeriodStatus::Open);
        }
        if str_eq(lower.as_str(), "closing") {
            proof {
                reveal_strlit("closing");
                assert("closing"@ =~= seq!['c', 'l', 'o', 's', 'i', 'n', 'g']);
            }
            return Ok(FinancialPeriodStatus::Closing);
        }
        if str_eq(lower.as_str(), "closed") {
            proof {
                reveal_strlit("closed");
                assert("closed"@ =~= seq!['c', 'l', 'o', 's', 'e', 'd']);
            }
            return Ok(FinancialPeriodStatus::Closed);
        }
        if str_eq(lower.as_str(), "locked") {
            proof {
                reveal_strlit("locked");
                assert("locked"@ =~= seq!['l', 'o', 'c', 'k', 'e', 'd']);
            }
            return Ok(FinancialPeriodStatus::Locked);
        }
        proof {
            reveal_strlit("open");
            assert("open"@ =~= seq!['o', 'p', 'e', 'n']);
        }
        proof {
            reveal_strlit("closing");
            assert("closing"@ =~= seq!['c', 'l', 'o', 's', 'i', 'n', 'g']);
        }
        proof {
            reveal_strlit("closed");
            assert("closed"@ =~= seq!['c', 'l', 'o', 's', 'e', 'd']);
        }
        proof {
            reveal_strlit("locked");
            assert("locked"@ =~= seq!['l', 'o', 'c', 'k', 'e', 'd']);
        }
        Err("Unknown FinancialPeriodStatus variant: ".to_string().concat(s))
    }

    /// Every wire name is lowercase ASCII and names its own variant, so parsing what a variant
    /// displays as gives the variant back.
    pub proof fn lemma_name_round_trip(v: FinancialPeriodStatus)
        ensures
            vstd::utf8::is_ascii_chars(v.spec_name()),
            ascii_lower(v.spec_name()) == v.spec_name(),
            Self::spec_from_name(v.spec_name()) == Some(v),
    {
        match v {
            FinancialPeriodStatus::Open => {
                assert(ascii_lower(seq!['o', 'p', 'e', 'n']) =~= seq!['o', 'p', 'e', 'n']);
            },
            FinancialPeriodStatus::Closing => {
                assert(ascii_lower(seq!['c', 'l', 'o', 's', 'i', 'n', 'g']) =~= seq!['c', 'l', 'o', 's', 'i', 'n', 'g']);
            },
            FinancialPeriodStatus::Closed => {
                assert(ascii_lower(seq!['c', 'l', 'o', 's', 'e', 'd']) =~= seq!['c', 'l', 'o', 's', 'e', 'd']);
            },
            FinancialPeriodStatus::Locked => {
                assert(ascii_lower(seq!['l', 'o', 'c', 'k', 'e', 'd']) =~= seq!['l', 'o', 'c', 'k', 'e', 'd']);
            },
        }
    }
}

impl Default for FinancialPeriodStatus {
    fn default() -> (r: Self)
        ensures
            r == FinancialPeriodStatus::Open,
    {
        FinancialPeriodStatus::Open
    }
}

impl std::str::FromStr for FinancialPeriodStatus {
    type Err = String;

    fn from_str(s: &str) -> Result<Self, Self::Err> {
        Self::parse(s)
    }
}

} // verus!
