//! `PayableType`: its wire names (the text it is stored and displayed as), parsing and default.
use vstd::prelude::*;

use crate::text::ascii_lower;
use crate::text::str_eq;
use crate::text::to_lowercase;
use crate::text::unicode_lowercase;

verus! {

broadcast use vstd::string::group_string_axioms;

#[derive(Debug, Clone, Copy, PartialEq, Eq, Hash, Structural)]
pub enum PayableType {
    Order,
    Subscription,
    Registration,
    CorporateInvoice,
}

impl PayableType {
    /// The variant's wire name.
    pub open spec fn spec_name(self) -> Seq<char> {
        match self {
            PayableType::Order => seq!['o', 'r', 'd', 'e', 'r'],
            PayableType::Subscription => seq!['s', 'u', 'b', 's', 'c', 'r', 'i', 'p', 't', 'i', 'o', 'n'],
            PayableType::Registration => seq!['r', 'e', 'g', 'i', 's', 't', 'r', 'a', 't', 'i', 'o', 'n'],
            PayableType::CorporateInvoice => seq!['c', 'o', 'r', 'p', 'o', 'r', 'a', 't', 'e', '_', 'i', 'n', 'v', 'o', 'i', 'c', 'e'],
        }
    }

    /// The variant a (lowercase) wire name names.
    pub open spec fn spec_from_name(s: Seq<char>) -> Option<PayableType> {
        if s == seq!['o', 'r', 'd', 'e', 'r'] {
            Some(PayableType::Order)
        } else if s == seq!['s', 'u', 'b', 's', 'c', 'r', 'i', 'p', 't', 'i', 'o', 'n'] {
            Some(PayableType::Subscription)
        } else if s == seq!['r', 'e', 'g', 'i', 's', 't', 'r', 'a', 't', 'i', 'o', 'n'] {
            Some(PayableType::Registration)
        } else if s == seq!['c', 'o', 'r', 'p', 'o', 'r', 'a', 't', 'e', '_', 'i', 'n', 'v', 'o', 'i', 'c', 'e'] {
            Some(PayableType::CorporateInvoice)
        } else {
            None
        }
    }

    /// The wire name (what `Display` writes).
    pub fn as_str(&self) -> (r: &'static str)
        ensures
            r@ == self.spec_name(),
    {
        match self {
            PayableType::Order => {
                proof {
                    reveal_strlit("order");
                    assert("order"@ =~= seq!['o', 'r', 'd', 'e', 'r']);
                }
                "order"
            },
            PayableType::Subscription => {
                proof {
                    reveal_strlit("subscription");
                    assert("subscription"@ =~= seq!['s', 'u', 'b', 's', 'c', 'r', 'i', 'p', 't', 'i', 'o', 'n']);
                }
                "subscription"
            },
            PayableType::Registration => {
                proof {
                    reveal_strlit("registration");
                    assert("registration"@ =~= seq!['r', 'e', 'g', 'i', 's', 't', 'r', 'a', 't', 'i', 'o', 'n']);
                }
                "registration"
            },
            PayableType::CorporateInvoice => {
                proof {
                    reveal_strlit("corporate_invoice");
                    assert("corporate_invoice"@ =~= seq!['c', 'o', 'r', 'p', 'o', 'r', 'a', 't', 'e', '_', 'i', 'n', 'v', 'o', 'i', 'c', 'e']);
                }
                "corporate_invoice"
            },
        }
    }

    /// The wire name as an owned string.
    pub fn to_string(&self) -> (r: String)
        ensures
            r@ == self.spec_name(),
    {
        self.as_str().to_string()
    }

    /// Parse a wire name, case-insensitively (the text is lowercased first).
    pub fn parse(s: &str) -> (r: Result<PayableType, String>)
        ensures
            match Self::spec_from_name(unicode_lowercase(s@)) {
                Some(v) => r == Ok::<PayableType, String>(v),
                None => r matches Err(m) && m@ == "Unknown PayableType variant: "@ + s@,
            },
            vstd::utf8::is_ascii_chars(s@) ==> unicode_lowercase(s@) == ascii_lower(s@),
    {
        let lower = to_lowercase(s);
        if str_eq(lower.as_str(), "order") {
            proof {
                reveal_strlit("order");
                assert("order"@ =~= seq!['o', 'r', 'd', 'e', 'r']);
            }
            return Ok(PayableType::Order);
        }
        if str_eq(lower.as_str(), "subscription") {
            proof {
                reveal_strlit("subscription");
                assert("subscription"@ =~= seq!['s', 'u', 'b', 's', 'c', 'r', 'i', 'p', 't', 'i', 'o', 'n']);
            }
            return Ok(PayableType::Subscription);
        }
        if str_eq(lower.as_str(), "registration") {
            proof {
                reveal_strlit("registration");
                assert("registration"@ =~= seq!['r', 'e', 'g', 'i', 's', 't', 'r', 'a', 't', 'i', 'o', 'n']);
            }
            return Ok(PayableType::Registration);
        }
        if str_eq(lower.as_str(), "corporate_invoice") {
            proof {
                reveal_strlit("corporate_invoice");
                assert("corporate_invoice"@ =~= seq!['c', 'o', 'r', 'p', 'o', 'r', 'a', 't', 'e', '_', 'i', 'n', 'v', 'o', 'i', 'c', 'e']);
            }
            return Ok(PayableType::CorporateInvoice);
        }
        proof {
            reveal_strlit("order");
            assert("order"@ =~= seq!['o', 'r', 'd', 'e', 'r']);
        }
        proof {
            reveal_strlit("subscription");
            assert("subscription"@ =~= seq!['s', 'u', 'b', 's', 'c', 'r', 'i', 'p', 't', 'i', 'o', 'n']);
        }
        proof {
            reveal_strlit("registration");
            assert("registration"@ =~= seq!['r', 'e', 'g', 'i', 's', 't', 'r', 'a', 't', 'i', 'o', 'n']);
        }
        proof {
            reveal_strlit("corporate_invoice");
            assert("corporate_invoice"@ =~= seq!['c', 'o', 'r', 'p', 'o', 'r', 'a', 't', 'e', '_', 'i', 'n', 'v', 'o', 'i', 'c', 'e']);
        }
        Err("Unknown PayableType variant: ".to_string().concat(s))
    }

    /// Every wire name is lowercase ASCII and names its own variant, so parsing what a variant
    /// displays as gives the variant back.
    pub proof fn lemma_name_round_trip(v: PayableType)
        ensures
            vstd::utf8::is_ascii_chars(v.spec_name()),
            ascii_lower(v.spec_name()) == v.spec_name(),
            Self::spec_from_name(v.spec_name()) == Some(v),
    {
        match v {
            PayableType::Order => {
                assert(ascii_lower(seq!['o', 'r', 'd', 'e', 'r']) =~= seq!['o', 'r', 'd', 'e', 'r']);
            },
            PayableType::Subscription => {
                assert(ascii_lower(seq!['s', 'u', 'b', 's', 'c', 'r', 'i', 'p', 't', 'i', 'o', 'n']) =~= seq!['s', 'u', 'b', 's', 'c', 'r', 'i', 'p', 't', 'i', 'o', 'n']);
            },
            PayableType::Registration => {
                assert(ascii_lower(seq!['r', 'e', 'g', 'i', 's', 't', 'r', 'a', 't', 'i', 'o', 'n']) =~= seq!['r', 'e', 'g', 'i', 's', 't', 'r', 'a', 't', 'i', 'o', 'n']);
            },
            PayableType::CorporateInvoice => {
                assert(ascii_lower(seq!['c', 'o', 'r', 'p', 'o', 'r', 'a', 't', 'e', '_', 'i', 'n', 'v', 'o', 'i', 'c', 'e']) =~= seq!['c', 'o', 'r', 'p', 'o', 'r', 'a', 't', 'e', '_', 'i', 'n', 'v', 'o', 'i', 'c', 'e']);
            },
        }
    }
}

impl Default for PayableType {
    fn default() -> (r: Self)
        ensures
            r == PayableType::Order,
    {
        PayableType::Order
    }
}

impl std::str::FromStr for PayableType {
    type Err = String;

    fn from_str(s: &str) -> Result<Self, Self::Err> {
        Self::parse(s)
    }
}

} // verus!
