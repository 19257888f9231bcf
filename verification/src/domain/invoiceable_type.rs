//! `InvoiceableType`: its wire names (the text it is stored and displayed as), parsing and default.
use vstd::prelude::*;

use crate::text::ascii_lower;
use crate::text::str_eq;
use crate::text::to_lowercase;
use crate::text::unicode_lowercase;

verus! {

broadcast use vstd::string::group_string_axioms;

#[derive(Debug, Clone, Copy, PartialEq, Eq, Hash, Structural)]
pub enum InvoiceableType {
    Order,
    Settlement,
    Subscription,
    CorporateInvoice,
}

impl InvoiceableType {
    /// The variant's wire name.
    pub open spec fn spec_name(self) -> Seq<char> {
        match self {
            InvoiceableType::Order => seq!['o', 'r', 'd', 'e', 'r'],
            InvoiceableType::Settlement => seq!['s', 'e', 't', 't', 'l', 'e', 'm', 'e', 'n', 't'],
            InvoiceableType::Subscription => seq!['s', 'u', 'b', 's', 'c', 'r', 'i', 'p', 't', 'i', 'o', 'n'],
            InvoiceableType::CorporateInvoice => seq!['c', 'o', 'r', 'p', 'o', 'r', 'a', 't', 'e', '_', 'i', 'n', 'v', 'o', 'i', 'c', 'e'],
        }
    }

    /// The variant a (lowercase) wire name names.
    pub open spec fn spec_from_name(s: Seq<char>) -> Option<InvoiceableType> {
        if s == seq!['o', 'r', 'd', 'e', 'r'] {
            Some(InvoiceableType::Order)
        } else if s == seq!['s', 'e', 't', 't', 'l', 'e', 'm', 'e', 'n', 't'] {
            Some(InvoiceableType::Settlement)
        } else if s == seq!['s', 'u', 'b', 's', 'c', 'r', 'i', 'p', 't', 'i', 'o', 'n'] {
            Some(InvoiceableType::Subscription)
        } else if s == seq!['c', 'o', 'r', 'p', 'o', 'r', 'a', 't', 'e', '_', 'i', 'n', 'v', 'o', 'i', 'c', 'e'] {
            Some(InvoiceableType::CorporateInvoice)
        } else {
            None
        }
    }

    /// The wire name (what `Display` writes).
    pub fn as_str(&self) -> (r: &'static str)
        ensures
            r@ == self.spec_name(),
    {
        match self {
            InvoiceableType::Order => {
                proof {
                    reveal_strlit("order");
                    assert("order"@ =~= seq!['o', 'r', 'd', 'e', 'r']);
                }
                "order"
            },
            InvoiceableType::Settlement => {
                proof {
                    reveal_strlit("settlement");
                    assert("settlement"@ =~= seq!['s', 'e', 't', 't', 'l', 'e', 'm', 'e', 'n', 't']);
                }
                "settlement"
            },
            InvoiceableType::Subscription => {
                proof {
                    reveal_strlit("subscription");
                    assert("subscription"@ =~= seq!['s', 'u', 'b', 's', 'c', 'r', 'i', 'p', 't', 'i', 'o', 'n']);
                }
                "subscription"
            },
            InvoiceableType::CorporateInvoice => {
                proof {
                    reveal_strlit("corporate_invoice");
                    assert("corporate_invoice"@ =~= seq!['c', 'o', 'r', 'p', 'o', 'r', 'a', 't', 'e', '_', 'i', 'n', 'v', 'o', 'i', 'c', 'e']);
                }
                "corporate_invoice"
            },
        }
    }

    /// The wire name as an owned string.
    pub fn to_string(&self) -> (r: String)
        ensures
            r@ == self.spec_name(),
    {
        self.as_str().to_string()
    }

    /// Parse a wire name, case-insensitively (the text is lowercased first).
    pub fn parse(s: &str) -> (r: Result<InvoiceableType, String>)
        ensures
            match Self::spec_from_name(unicode_lowercase(s@)) {
                Some(v) => r == Ok::<InvoiceableType, String>(v),
                None => r matches Err(m) && m@ == "Unknown InvoiceableType variant: "@ + s@,
            },
            vstd::utf8::is_ascii_chars(s@) ==> unicode_lowercase(s@) == ascii_lower(s@),
    {
        let lower = to_lowercase(s);
        if str_eq(lower.as_str(), "order") {
            proof {
                reveal_strlit("order");
                assert("order"@ =~= seq!['o', 'r', 'd', 'e', 'r']);
            }
            return Ok(InvoiceableType::Order);
        }
        if str_eq(lower.as_str(), "settlement") {
            proof {
                reveal_strlit("settlement");
                assert("settlement"@ =~= seq!['s', 'e', 't', 't', 'l', 'e', 'm', 'e', 'n', 't']);
            }
            return Ok(InvoiceableType::Settlement);
        }
        if str_eq(lower.as_str(), "subscription") {
            proof {
                reveal_strlit("subscription");
                assert("subscription"@ =~= seq!['s', 'u', 'b', 's', 'c', 'r', 'i', 'p', 't', 'i', 'o', 'n']);
            }
            return Ok(InvoiceableType::Subscription);
        }
        if str_eq(lower.as_str(), "corporate_invoice") {
            proof {
                reveal_strlit("corporate_invoice");
                assert("corporate_invoice"@ =~= seq!['c', 'o', 'r', 'p', 'o', 'r', 'a', 't', 'e', '_', 'i', 'n', 'v', 'o', 'i', 'c', 'e']);
            }
            return Ok(InvoiceableType::CorporateInvoice);
        }
        proof {
            reveal_strlit("order");
            assert("order"@ =~= seq!['o', 'r', 'd', 'e', 'r']);
        }
        proof {
            reveal_strlit("settlement");
            assert("settlement"@ =~= seq!['s', 'e', 't', 't', 'l', 'e', 'm', 'e', 'n', 't']);
        }
        proof {
            reveal_strlit("subscription");
            assert("subscription"@ =~= seq!['s', 'u', 'b', 's', 'c', 'r', 'i', 'p', 't', 'i', 'o', 'n']);
        }
        proof {
            reveal_strlit("corporate_invoice");
            assert("corporate_invoice"@ =~= seq!['c', 'o', 'r', 'p', 'o', 'r', 'a', 't', 'e', '_', 'i', 'n', 'v', 'o', 'i', 'c', 'e']);
        }
        Err("Unknown InvoiceableType variant: ".to_string().concat(s))
    }

    /// Every wire name is lowercase ASCII and names its own variant, so parsing what a variant
    /// displays as gives the variant back.
    pub proof fn lemma_name_round_trip(v: InvoiceableType)
        ensures
            vstd::utf8::is_ascii_chars(v.spec_name()),
            ascii_lower(v.spec_name()) == v.spec_name(),
            Self::spec_from_name(v.spec_name()) == Some(v),
    {
        match v {
            InvoiceableType::Order => {
                assert(ascii_lower(seq!['o', 'r', 'd', 'e', 'r']) =~= seq!['o', 'r', 'd', 'e', 'r']);
            },
            InvoiceableType::Settlement => {
                assert(ascii_lower(seq!['s', 'e', 't', 't', 'l', 'e', 'm', 'e', 'n', 't']) =~= seq!['s', 'e', 't', 't', 'l', 'e', 'm', 'e', 'n', 't']);
            },
            InvoiceableType::Subscription => {
                assert(ascii_lower(seq!['s', 'u', 'b', 's', 'c', 'r', 'i', 'p', 't', 'i', 'o', 'n']) =~= seq!['s', 'u', 'b', 's', 'c', 'r', 'i', 'p', 't', 'i', 'o', 'n']);
            },
            InvoiceableType::CorporateInvoice => {
                assert(ascii_lower(seq!['c', 'o', 'r', 'p', 'o', 'r', 'a', 't', 'e', '_', 'i', 'n', 'v', 'o', 'i', 'c', 'e']) =~= seq!['c', 'o', 'r', 'p', 'o', 'r', 'a', 't', 'e', '_', 'i', 'n', 'v', 'o', 'i', 'c', 'e']);
            },
        }
    }
}

impl Default for InvoiceableType {
    fn default() -> (r: Self)
        ensures
            r == InvoiceableType::Order,
    {
        InvoiceableType::Order
    }
}

impl std::str::FromStr for InvoiceableType {
    type Err = String;

    fn from_str(s: &str) -> Result<Self, Self::Err> {
        Self::parse(s)
    }
}

} // verus!
