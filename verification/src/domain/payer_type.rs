//! `PayerType`: its wire names (the text it is stored and displayed as), parsing and default.
use vstd::prelude::*;

use crate::text::ascii_lower;
use crate::text::str_eq;
use crate::text::to_lowercase;
use crate::text::unicode_lowercase;

verus! {

broadcast use vstd::string::group_string_axioms;

#[derive(Debug, Clone, Copy, PartialEq, Eq, Hash, Structural)]
pub enum PayerType {
    Customer,
    Corporate,
    Provider,
}

impl PayerType {
    /// The variant's wire name.
    pub open spec fn spec_name(self) -> Seq<char> {
        match self {
            PayerType::Customer => seq!['c', 'u', 's', 't', 'o', 'm', 'e', 'r'],
            PayerType::Corporate => seq!['c', 'o', 'r', 'p', 'o', 'r', 'a', 't', 'e'],
            PayerType::Provider => seq!['p', 'r', 'o', 'v', 'i', 'd', 'e', 'r'],
        }
    }

    /// The variant a (lowercase) wire name names.
    pub open spec fn spec_from_name(s: Seq<char>) -> Option<PayerType> {
        if s == seq!['c', 'u', 's', 't', 'o', 'm', 'e', 'r'] {
            Some(PayerType::Customer)
        } else if s == seq!['c', 'o', 'r', 'p', 'o', 'r', 'a', 't', 'e'] {
            Some(PayerType::Corporate)
        } else if s == seq!['p', 'r', 'o', 'v', 'i', 'd', 'e', 'r'] {
            Some(PayerType::Provider)
        } else {
            None
        }
    }

    /// The wire name (what `Display` writes).
    pub fn as_str(&self) -> (r: &'static str)
        ensures
            r@ == self.spec_name(),
    {
        match self {
            PayerType::Customer => {
                proof {
                    reveal_strlit("customer");
                    assert("customer"@ =~= seq!['c', 'u', 's', 't', 'o', 'm', 'e', 'r']);
                }
                "customer"
            },
            PayerType::Corporate => {
                proof {
                    reveal_strlit("corporate");
                    assert("corporate"@ =~= seq!['c', 'o', 'r', 'p', 'o', 'r', 'a', 't', 'e']);
                }
                "corporate"
            },
            PayerType::Provider => {
                proof {
                    reveal_strlit("provider");
                    assert("provider"@ =~= seq!['p', 'r', 'o', 'v', 'i', 'd', 'e', 'r']);
                }
                "provider"
            },
        }
    }

    /// The wire name as an owned string.
    pub fn to_string(&self) -> (r: String)
        ensures
            r@ == self.spec_name(),
    {
        self.as_str().to_string()
    }

    /// Parse a wire name, case-insensitively (the text is lowercased first).
    pub fn parse(s: &str) -> (r: Result<PayerType, String>)
        ensures
            match Self::spec_from_name(unicode_lowercase(s@)) {
                Some(v) => r == Ok::<PayerType, String>(v),
                None => r matches Err(m) && m@ == "Unknown PayerType variant: "@ + s@,
            },
            vstd::utf8::is_ascii_chars(s@) ==> unicode_lowercase(s@) == ascii_lower(s@),
    {
        let lower = to_lowercase(s);
        if str_eq(lower.as_str(), "customer") {
            proof {
                reveal_strlit("customer");
                assert("customer"@ =~= seq!['c', 'u', 's', 't', 'o', 'm', 'e', 'r']);
            }
            return Ok(PayerType::Customer);
        }
        if str_eq(lower.as_str(), "corporate") {
            proof {
                reveal_strlit("corporate");
                assert("corporate"@ =~= seq!['c', 'o', 'r', 'p', 'o', 'r', 'a', 't', 'e']);
            }
            return Ok(PayerType::Corporate);
        }
        if str_eq(lower.as_str(), "provider") {
            proof {
                reveal_strlit("provider");
                assert("provider"@ =~= seq!['p', 'r', 'o', 'v', 'i', 'd', 'e', 'r']);
            }
            return Ok(PayerType::Provider);
        }
        proof {
            reveal_strlit("customer");
            assert("customer"@ =~= seq!['c', 'u', 's', 't', 'o', 'm', 'e', 'r']);
        }
        proof {
            reveal_strlit("corporate");
            assert("corporate"@ =~= seq!['c', 'o', 'r', 'p', 'o', 'r', 'a', 't', 'e']);
        }
        proof {
            reveal_strlit("provider");
            assert("provider"@ =~= seq!['p', 'r', 'o', 'v', 'i', 'd', 'e', 'r']);
        }
        Err("Unknown PayerType variant: ".to_string().concat(s))
    }

    /// Every wire name is lowercase ASCII and names its own variant, so parsing what a variant
    /// displays as gives the variant back.
    pub proof fn lemma_name_round_trip(v: PayerType)
        ensures
            vstd::utf8::is_ascii_chars(v.spec_name()),
            ascii_lower(v.spec_name()) == v.spec_name(),
            Self::spec_from_name(v.spec_name()) == Some(v),
    {
        match v {
            PayerType::Customer => {
                assert(ascii_lower(seq!['c', 'u', 's', 't', 'o', 'm', 'e', 'r']) =~= seq!['c', 'u', 's', 't', 'o', 'm', 'e', 'r']);
            },
            PayerType::Corporate => {
                assert(ascii_lower(seq!['c', 'o', 'r', 'p', 'o', 'r', 'a', 't', 'e']) =~= seq!['c', 'o', 'r', 'p', 'o', 'r', 'a', 't', 'e']);
            },
            PayerType::Provider => {
                assert(ascii_lower(seq!['p', 'r', 'o', 'v', 'i', 'd', 'e', 'r']) =~= seq!['p', 'r', 'o', 'v', 'i', 'd', 'e', 'r']);
            },
        }
    }
}

impl Default for PayerType {
    fn default() -> (r: Self)
        ensures
            r == PayerType::Customer,
    {
        PayerType::Customer
    }
}

impl std::str::FromStr for PayerType {
    type Err = String;

    fn from_str(s: &str) -> Result<Self, Self::Err> {
        Self::parse(s)
    }
}

} // verus!
