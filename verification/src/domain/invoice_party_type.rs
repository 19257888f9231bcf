//! `InvoicePartyType`: its wire names (the text it is stored and displayed as), parsing and default.
use vstd::prelude::*;

use crate::text::ascii_lower;
use crate::text::str_eq;
use crate::text::to_lowercase;
use crate::text::unicode_lowercase;

verus! {

broadcast use vstd::string::group_string_axioms;

#[derive(Debug, Clone, Copy, PartialEq, Eq, Hash, Structural)]
pub enum InvoicePartyType {
    Platform,
    Provider,
    Customer,
    Corporate,
}

impl InvoicePartyType {
    /// The variant's wire name.
    pub open spec fn spec_name(self) -> Seq<char> {
        match self {
            InvoicePartyType::Platform => seq!['p', 'l', 'a', 't', 'f', 'o', 'r', 'm'],
            InvoicePartyType::Provider => seq!['p', 'r', 'o', 'v', 'i', 'd', 'e', 'r'],
            InvoicePartyType::Customer => seq!['c', 'u', 's', 't', 'o', 'm', 'e', 'r'],
            InvoicePartyType::Corporate => seq!['c', 'o', 'r', 'p', 'o', 'r', 'a', 't', 'e'],
        }
    }

    /// The variant a (lowercase) wire name names.
    pub open spec fn spec_from_name(s: Seq<char>) -> Option<InvoicePartyType> {
        if s == seq!['p', 'l', 'a', 't', 'f', 'o', 'r', 'm'] {
            Some(InvoicePartyType::Platform)
        } else if s == seq!['p', 'r', 'o', 'v', 'i', 'd', 'e', 'r'] {
            Some(InvoicePartyType::Provider)
        } else if s == seq!['c', 'u', 's', 't', 'o', 'm', 'e', 'r'] {
            Some(InvoicePartyType::Customer)
        } else if s == seq!['c', 'o', 'r', 'p', 'o', 'r', 'a', 't', 'e'] {
            Some(InvoicePartyType::Corporate)
        } else {
            None
        }
    }

    /// The wire name (what `Display` writes).
    pub fn as_str(&self) -> (r: &'static str)
        ensures
            r@ == self.spec_name(),
    {
        match self {
            InvoicePartyType::Platform => {
                proof {
                    reveal_strlit("platform");
                    assert("platform"@ =~= seq!['p', 'l', 'a', 't', 'f', 'o', 'r', 'm']);
                }
                "platform"
            },
            InvoicePartyType::Provider => {
                proof {
                    reveal_strlit("provider");
                    assert("provider"@ =~= seq!['p', 'r', 'o', 'v', 'i', 'd', 'e', 'r']);
                }
                "provider"
            },
            InvoicePartyType::Customer => {
                proof {
                    reveal_strlit("customer");
                    assert("customer"@ =~= seq!['c', 'u', 's', 't', 'o', 'm', 'e', 'r']);
                }
                "customer"
            },
            InvoicePartyType::Corporate => {
                proof {
                    reveal_strlit("corporate");
                    assert("corporate"@ =~= seq!['c', 'o', 'r', 'p', 'o', 'r', 'a', 't', 'e']);
                }
                "corporate"
            },
        }
    }

    /// The wire name as an owned string.
    pub fn to_string(&self) -> (r: String)
        ensures
            r@ == self.spec_name(),
    {
        self.as_str().to_string()
    }

    /// Parse a wire name, case-insensitively (the text is lowercased first).
    pub fn parse(s: &str) -> (r: Result<InvoicePartyType, String>)
        ensures
            match Self::spec_from_name(unicode_lowercase(s@)) {
                Some(v) => r == Ok::<InvoicePartyType, String>(v),
                None => r matches Err(m) && m@ == "Unknown InvoicePartyType variant: "@ + s@,
            },
            vstd::utf8::is_ascii_chars(s@) ==> unicode_lowercase(s@) == ascii_lower(s@),
    {
        let lower = to_lowercase(s);
        if str_eq(lower.as_str(), "platform") {
            proof {
                reveal_strlit("platform");
                assert("platform"@ =~= seq!['p', 'l', 'a', 't', 'f', 'o', 'r', 'm']);
            }
            return Ok(InvoicePartyType::Platform);
        }
        if str_eq(lower.as_str(), "provider") {
            proof {
                reveal_strlit("provider");
                assert("provider"@ =~= seq!['p', 'r', 'o', 'v', 'i', 'd', 'e', 'r']);
            }
            return Ok(InvoicePartyType::Provider);
        }
        if str_eq(lower.as_str(), "customer") {
            proof {
                reveal_strlit("customer");
                assert("customer"@ =~= seq!['c', 'u', 's', 't', 'o', 'm', 'e', 'r']);
            }
            return Ok(InvoicePartyType::Customer);
        }
        if str_eq(lower.as_str(), "corporate") {
            proof {
                reveal_strlit("corporate");
                assert("corporate"@ =~= seq!['c', 'o', 'r', 'p', 'o', 'r', 'a', 't', 'e']);
            }
            return Ok(InvoicePartyType::Corporate);
        }
        proof {
            reveal_strlit("platform");
            assert("platform"@ =~= seq!['p', 'l', 'a', 't', 'f', 'o', 'r', 'm']);
        }
        proof {
            reveal_strlit("provider");
            assert("provider"@ =~= seq!['p', 'r', 'o', 'v', 'i', 'd', 'e', 'r']);
        }
        proof {
            reveal_strlit("customer");
            assert("customer"@ =~= seq!['c', 'u', 's', 't', 'o', 'm', 'e', 'r']);
        }
        proof {
            reveal_strlit("corporate");
            assert("corporate"@ =~= seq!['c', 'o', 'r', 'p', 'o', 'r', 'a', 't', 'e']);
        }
        Err("Unknown InvoicePartyType variant: ".to_string().concat(s))
    }

    /// Every wire name is lowercase ASCII and names its own variant, so parsing what a variant
    /// displays as gives the variant back.
    pub proof fn lemma_name_round_trip(v: InvoicePartyType)
        ensures
            vstd::utf8::is_ascii_chars(v.spec_name()),
            ascii_lower(v.spec_name()) == v.spec_name(),
            Self::spec_from_name(v.spec_name()) == Some(v),
    {
        match v {
            InvoicePartyType::Platform => {
                assert(ascii_lower(seq!['p', 'l', 'a', 't', 'f', 'o', 'r', 'm']) =~= seq!['p', 'l', 'a', 't', 'f', 'o', 'r', 'm']);
            },
            InvoicePartyType::Provider => {
                assert(ascii_lower(seq!['p', 'r', 'o', 'v', 'i', 'd', 'e', 'r']) =~= seq!['p', 'r', 'o', 'v', 'i', 'd', 'e', 'r']);
            },
            InvoicePartyType::Customer => {
                assert(ascii_lower(seq!['c', 'u', 's', 't', 'o', 'm', 'e', 'r']) =~= seq!['c', 'u', 's', 't', 'o', 'm', 'e', 'r']);
            },
            InvoicePartyType::Corporate => {
                assert(ascii_lower(seq!['c', 'o', 'r', 'p', 'o', 'r', 'a', 't', 'e']) =~= seq!['c', 'o', 'r', 'p', 'o', 'r', 'a', 't', 'e']);
            },
        }
    }
}

impl Default for InvoicePartyType {
    fn default() -> (r: Self)
        ensures
            r == InvoicePartyType::Platform,
    {
        InvoicePartyType::Platform
    }
}

impl std::str::FromStr for InvoicePartyType {
    type Err = String;

    fn from_str(s: &str) -> Result<Self, Self::Err> {
        Self::parse(s)
    }
}

} // verus!
