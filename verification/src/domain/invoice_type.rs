//! `InvoiceType`: its wire names (the text it is stored and displayed as), parsing and default.
use vstd::prelude::*;

use crate::text::ascii_lower;
use crate::text::str_eq;
use crate::text::to_lowercase;
use crate::text::unicode_lowercase;

verus! {

broadcast use vstd::string::group_string_axioms;

#[derive(Debug, Clone, Copy, PartialEq, Eq, Hash, Structural)]
pub enum InvoiceType {
    Order,
    Subscription,
    Registration,
    Settlement,
    Corporate,
}

impl InvoiceType {
    /// The variant's wire name.
    pub open spec fn spec_name(self) -> Seq<char> {
        match self {
            InvoiceType::Order => seq!['o', 'r', 'd', 'e', 'r'],
            InvoiceType::Subscription => seq!['s', 'u', 'b', 's', 'c', 'r', 'i', 'p', 't', 'i', 'o', 'n'],
            InvoiceType::Registration => seq!['r', 'e', 'g', 'i', 's', 't', 'r', 'a', 't', 'i', 'o', 'n'],
            InvoiceType::Settlement => seq!['s', 'e', 't', 't', 'l', 'e', 'm', 'e', 'n', 't'],
            InvoiceType::Corporate => seq!['c', 'o', 'r', 'p', 'o', 'r', 'a', 't', 'e'],
        }
    }

    /// The variant a (lowercase) wire name names.
    pub open spec fn spec_from_name(s: Seq<char>) -> Option<InvoiceType> {
        if s == seq!['o', 'r', 'd', 'e', 'r'] {
            Some(InvoiceType::Order)
        } else if s == seq!['s', 'u', 'b', 's', 'c', 'r', 'i', 'p', 't', 'i', 'o', 'n'] {
            Some(InvoiceType::Subscription)
        } else if s == seq!['r', 'e', 'g', 'i', 's', 't', 'r', 'a', 't', 'i', 'o', 'n'] {
            Some(InvoiceType::Registration)
        } else if s == seq!['s', 'e', 't', 't', 'l', 'e', 'm', 'e', 'n', 't'] {
            Some(InvoiceType::Settlement)
        } else if s == seq!['c', 'o', 'r', 'p', 'o', 'r', 'a', 't', 'e'] {
            Some(InvoiceType::Corporate)
        } else {
            None
        }
    }

    /// The wire name (what `Display` writes).
    pub fn as_str(&self) -> (r: &'static str)
        ensures
            r@ == self.spec_name(),
    {
        match self {
            InvoiceType::Order => {
                proof {
                    reveal_strlit("order");
                    assert("order"@ =~= seq!['o', 'r', 'd', 'e', 'r']);
                }
                "order"
            },
            InvoiceType::Subscription => {
                proof {
                    reveal_strlit("subscription");
                    assert("subscription"@ =~= seq!['s', 'u', 'b', 's', 'c', 'r', 'i', 'p', 't', 'i', 'o', 'n']);
                }
                "subscription"
            },
            InvoiceType::Registration => {
                proof {
                    reveal_strlit("registration");
                    assert("registration"@ =~= seq!['r', 'e', 'g', 'i', 's', 't', 'r', 'a', 't', 'i', 'o', 'n']);
                }
                "registration"
            },
            InvoiceType::Settlement => {
                proof {
                    reveal_strlit("settlement");
                    assert("settlement"@ =~= seq!['s', 'e', 't', 't', 'l', 'e', 'm', 'e', 'n', 't']);
                }
                "settlement"
            },
            InvoiceType::Corporate => {
                proof {
                    reveal_strlit("corporate");
                    assert("corporate"@ =~= seq!['c', 'o', 'r', 'p', 'o', 'r', 'a', 't', 'e']);
                }
                "corporate"
            },
        }
    }

    /// The wire name as an owned string.
    pub fn to_string(&self) -> (r: String)
        ensures
            r@ == self.spec_name(),
    {
        self.as_str().to_string()
    }

    /// Parse a wire name, case-insensitively (the text is lowercased first).
    pub fn parse(s: &str) -> (r: Result<InvoiceType, String>)
        ensures
            match Self::spec_from_name(unicode_lowercase(s@)) {
                Some(v) => r == Ok::<InvoiceType, String>(v),
                None => r matches Err(m) && m@ == "Unknown InvoiceType variant: "@ + s@,
            },
            vstd::utf8::is_ascii_chars(s@) ==> unicode_lowercase(s@) == ascii_lower(s@),
    {
        let lower = to_lowercase(s);
        if str_eq(lower.as_str(), "order") {
            proof {
                reveal_strlit("order");
                assert("order"@ =~= seq!['o', 'r', 'd', 'e', 'r']);
            }
            return Ok(InvoiceType::Order);
        }
        if str_eq(lower.as_str(), "subscription") {
            proof {
                reveal_strlit("subscription");
                assert("subscription"@ =~= seq!['s', 'u', 'b', 's', 'c', 'r', 'i', 'p', 't', 'i', 'o', 'n']);
            }
            return Ok(InvoiceType::Subscription);
        }
        if str_eq(lower.as_str(), "registration") {
            proof {
                reveal_strlit("registration");
                assert("registration"@ =~= seq!['r', 'e', 'g', 'i', 's', 't', 'r', 'a', 't', 'i', 'o', 'n']);
            }
            return Ok(InvoiceType::Registration);
        }
        if str_eq(lower.as_str(), "settlement") {
            proof {
                reveal_strlit("settlement");
                assert("settlement"@ =~= seq!['s', 'e', 't', 't', 'l', 'e', 'm', 'e', 'n', 't']);
            }
            return Ok(InvoiceType::Settlement);
        }
        if str_eq(lower.as_str(), "corporate") {
            proof {
                reveal_strlit("corporate");
                assert("corporate"@ =~= seq!['c', 'o', 'r', 'p', 'o', 'r', 'a', 't', 'e']);
            }
            return Ok(InvoiceType::Corporate);
        }
        proof {
            reveal_strlit("order");
            assert("order"@ =~= seq!['o', 'r', 'd', 'e', 'r']);
        }
        proof {
            reveal_strlit("subscription");
            assert("subscription"@ =~= seq!['s', 'u', 'b', 's', 'c', 'r', 'i', 'p', 't', 'i', 'o', 'n']);
        }
        proof {
            reveal_strlit("registration");
            assert("registration"@ =~= seq!['r', 'e', 'g', 'i', 's', 't', 'r', 'a', 't', 'i', 'o', 'n']);
        }
        proof {
            reveal_strlit("settlement");
            assert("settlement"@ =~= seq!['s', 'e', 't', 't', 'l', 'e', 'm', 'e', 'n', 't']);
        }
        proof {
            reveal_strlit("corporate");
            assert("corporate"@ =~= seq!['c', 'o', 'r', 'p', 'o', 'r', 'a', 't', 'e']);
        }
        Err("Unknown InvoiceType variant: ".to_string().concat(s))
    }

    /// Every wire name is lowercase ASCII and names its own variant, so parsing what a variant
    /// displays as gives the variant back.
    pub proof fn lemma_name_round_trip(v: InvoiceType)
        ensures
            vstd::utf8::is_ascii_chars(v.spec_name()),
            ascii_lower(v.spec_name()) == v.spec_name(),
            Self::spec_from_name(v.spec_name()) == Some(v),
    {
        match v {
            InvoiceType::Order => {
                assert(ascii_lower(seq!['o', 'r', 'd', 'e', 'r']) =~= seq!['o', 'r', 'd', 'e', 'r']);
            },
            InvoiceType::Subscription => {
                assert(ascii_lower(seq!['s', 'u', 'b', 's', 'c', 'r', 'i', 'p', 't', 'i', 'o', 'n']) =~= seq!['s', 'u', 'b', 's', 'c', 'r', 'i', 'p', 't', 'i', 'o', 'n']);
            },
            InvoiceType::Registration => {
                assert(ascii_lower(seq!['r', 'e', 'g', 'i', 's', 't', 'r', 'a', 't', 'i', 'o', 'n']) =~= seq!['r', 'e', 'g', 'i', 's', 't', 'r', 'a', 't', 'i', 'o', 'n']);
            },
            InvoiceType::Settlement => {
                assert(ascii_lower(seq!['s', 'e', 't', 't', 'l', 'e', 'm', 'e', 'n', 't']) =~= seq!['s', 'e', 't', 't', 'l', 'e', 'm', 'e', 'n', 't']);
            },
            InvoiceType::Corporate => {
                assert(ascii_lower(seq!['c', 'o', 'r', 'p', 'o', 'r', 'a', 't', 'e']) =~= seq!['c', 'o', 'r', 'p', 'o', 'r', 'a', 't', 'e']);
            },
        }
    }
}

impl Default for InvoiceType {
    fn default() -> (r: Self)
        ensures
            r == InvoiceType::Order,
    {
        InvoiceType::Order
    }
}

impl std::str::FromStr for InvoiceType {
    type Err = String;

    fn from_str(s: &str) -> Result<Self, Self::Err> {
        Self::parse(s)
    }
}

} // verus!
