//! `BankAccountType`: its wire names (the text it is stored and displayed as), parsing and default.
use vstd::prelude::*;

use crate::text::ascii_lower;
use crate::text::str_eq;
use crate::text::to_lowercase;
use crate::text::unicode_lowercase;

verus! {

broadcast use vstd::string::group_string_axioms;

#[derive(Debug, Clone, Copy, PartialEq, Eq, Hash, Structural)]
pub enum BankAccountType {
    Checking,
    Savings,
    Business,
}

impl BankAccountType {
    /// The variant's wire name.
    pub open spec fn spec_name(self) -> Seq<char> {
        match self {
            BankAccountType::Checking => seq!['c', 'h', 'e', 'c', 'k', 'i', 'n', 'g'],
            BankAccountType::Savings => seq!['s', 'a', 'v', 'i', 'n', 'g', 's'],
            BankAccountType::Business => seq!['b', 'u', 's', 'i', 'n', 'e', 's', 's'],
        }
    }

    /// The variant a (lowercase) wire name names.
    pub open spec fn spec_from_name(s: Seq<char>) -> Option<BankAccountType> {
        if s == seq!['c', 'h', 'e', 'c', 'k', 'i', 'n', 'g'] {
            Some(BankAccountType::Checking)
        } else if s == seq!['s', 'a', 'v', 'i', 'n', 'g', 's'] {
            Some(BankAccountType::Savings)
        } else if s == seq!['b', 'u', 's', 'i', 'n', 'e', 's', 's'] {
            Some(BankAccountType::Business)
        } else {
            None
        }
    }

    /// The wire name (what `Display` writes).
    pub fn as_str(&self) -> (r: &'static str)
        ensures
            r@ == self.spec_name(),
    {
        match self {
            BankAccountType::Checking => {
                proof {
                    reveal_strlit("checking");
                    assert("checking"@ =~= seq!['c', 'h', 'e', 'c', 'k', 'i', 'n', 'g']);
                }
                "checking"
            },
            BankAccountType::Savings => {
                proof {
                    reveal_strlit("savings");
                    assert("savings"@ =~= seq!['s', 'a', 'v', 'i', 'n', 'g', 's']);
                }
                "savings"
            },
            BankAccountType::Business => {
                proof {
                    reveal_strlit("business");
                    assert("business"@ =~= seq!['b', 'u', 's', 'i', 'n', 'e', 's', 's']);
                }
                "business"
            },
        }
    }

    /// The wire name as an owned string.
    pub fn to_string(&self) -> (r: String)
        ensures
            r@ == self.spec_name(),
    {
        self.as_str().to_string()
    }

    /// Parse a wire name, case-insensitively (the text is lowercased first).
    pub fn parse(s: &str) -> (r: Result<BankAccountType, String>)
        ensures
            match Self::spec_from_name(unicode_lowercase(s@)) {
                Some(v) => r == Ok::<BankAccountType, String>(v),
                None => r matches Err(m) && m@ == "Unknown BankAccountType variant: "@ + s@,
            },
            vstd::utf8::is_ascii_chars(s@) ==> unicode_lowercase(s@) == ascii_lower(s@),
    {
        let lower = to_lowercase(s);
        if str_eq(lower.as_str(), "checking") {
            proof {
                reveal_strlit("checking");
                assert("checking"@ =~= seq!['c', 'h', 'e', 'c', 'k', 'i', 'n', 'g']);
            }
            return Ok(BankAccountType::Checking);
        }
        if str_eq(lower.as_str(), "savings") {
            proof {
                reveal_strlit("savings");
                assert("savings"@ =~= seq!['s', 'a', 'v', 'i', 'n', 'g', 's']);
            }
            return Ok(BankAccountType::Savings);
        }
        if str_eq(lower.as_str(), "business") {
            proof {
                reveal_strlit("business");
                assert("business"@ =~= seq!['b', 'u', 's', 'i', 'n', 'e', 's', 's']);
            }
            return Ok(BankAccountType::Business);
        }
        proof {
            reveal_strlit("checking");
            assert("checking"@ =~= seq!['c', 'h', 'e', 'c', 'k', 'i', 'n', 'g']);
        }
        proof {
            reveal_strlit("savings");
            assert("savings"@ =~= seq!['s', 'a', 'v', 'i', 'n', 'g', 's']);
        }
        proof {
            reveal_strlit("business");
            assert("business"@ =~= seq!['b', 'u', 's', 'i', 'n', 'e', 's', 's']);
        }
        Err("Unknown BankAccountType variant: ".to_string().concat(s))
    }

    /// Every wire name is lowercase ASCII and names its own variant, so parsing what a variant
    /// displays as gives the variant back.
    pub proof fn lemma_name_round_trip(v: BankAccountType)
        ensures
            vstd::utf8::is_ascii_chars(v.spec_name()),
            ascii_lower(v.spec_name()) == v.spec_name(),
            Self::spec_from_name(v.spec_name()) == Some(v),
    {
        match v {
            BankAccountType::Checking => {
                assert(ascii_lower(seq!['c', 'h', 'e', 'c', 'k', 'i', 'n', 'g']) =~= seq!['c', 'h', 'e', 'c', 'k', 'i', 'n', 'g']);
            },
            BankAccountType::Savings => {
                assert(ascii_lower(seq!['s', 'a', 'v', 'i', 'n', 'g', 's']) =~= seq!['s', 'a', 'v', 'i', 'n', 'g', 's']);
            },
            BankAccountType::Business => {
                assert(ascii_lower(seq!['b', 'u', 's', 'i', 'n', 'e', 's', 's']) =~= seq!['b', 'u', 's', 'i', 'n', 'e', 's', 's']);
            },
        }
    }
}

impl Default for BankAccountType {
    fn default() -> (r: Self)
        ensures
            r == BankAccountType::Checking,
    {
        BankAccountType::Checking
    }
}

impl std::str::FromStr for BankAccountType {
    type Err = String;

    fn from_str(s: &str) -> Result<Self, Self::Err> {
        Self::parse(s)
    }
}

} // verus!
