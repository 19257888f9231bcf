//! `RefundReason`: its wire names (the text it is stored and displayed as), parsing and default.
use vstd::prelude::*;

use crate::text::ascii_lower;
use crate::text::str_eq;
use crate::text::to_lowercase;
use crate::text::unicode_lowercase;

verus! {

broadcast use vstd::string::group_string_axioms;

#[derive(Debug, Clone, Copy, PartialEq, Eq, Hash, Structural)]
pub enum RefundReason {
    CustomerRequest,
    OrderCancelled,
    ServiceIssue,
    ItemDamaged,
    ItemLost,
    Overcharge,
    DuplicatePayment,
    ProviderUnable,
    Other,
}

impl RefundReason {
    /// The variant's wire name.
    pub open spec fn spec_name(self) -> Seq<char> {
        match self {
            RefundReason::CustomerRequest => seq!['c', 'u', 's', 't', 'o', 'm', 'e', 'r', '_', 'r', 'e', 'q', 'u', 'e', 's', 't'],
            RefundReason::OrderCancelled => seq!['o', 'r', 'd', 'e', 'r', '_', 'c', 'a', 'n', 'c', 'e', 'l', 'l', 'e', 'd'],
            RefundReason::ServiceIssue => seq!['s', 'e', 'r', 'v', 'i', 'c', 'e', '_', 'i', 's', 's', 'u', 'e'],
            RefundReason::ItemDamaged => seq!['i', 't', 'e', 'm', '_', 'd', 'a', 'm', 'a', 'g', 'e', 'd'],
            RefundReason::ItemLost => seq!['i', 't', 'e', 'm', '_', 'l', 'o', 's', 't'],
            RefundReason::Overcharge => seq!['o', 'v', 'e', 'r', 'c', 'h', 'a', 'r', 'g', 'e'],
            RefundReason::DuplicatePayment => seq!['d', 'u', 'p', 'l', 'i', 'c', 'a', 't', 'e', '_', 'p', 'a', 'y', 'm', 'e', 'n', 't'],
            RefundReason::ProviderUnable => seq!['p', 'r', 'o', 'v', 'i', 'd', 'e', 'r', '_', 'u', 'n', 'a', 'b', 'l', 'e'],
            RefundReason::Other => seq!['o', 't', 'h', 'e', 'r'],
        }
    }

    /// The variant a (lowercase) wire name names.
    pub open spec fn spec_from_name(s: Seq<char>) -> Option<RefundReason> {
        if s == seq!['c', 'u', 's', 't', 'o', 'm', 'e', 'r', '_', 'r', 'e', 'q', 'u', 'e', 's', 't'] {
            Some(RefundReason::CustomerRequest)
        } else if s == seq!['o', 'r', 'd', 'e', 'r', '_', 'c', 'a', 'n', 'c', 'e', 'l', 'l', 'e', 'd'] {
            Some(RefundReason::OrderCancelled)
        } else if s == seq!['s', 'e', 'r', 'v', 'i', 'c', 'e', '_', 'i', 's', 's', 'u', 'e'] {
            Some(RefundReason::ServiceIssue)
        } else if s == seq!['i', 't', 'e', 'm', '_', 'd', 'a', 'm', 'a', 'g', 'e', 'd'] {
            Some(RefundReason::ItemDamaged)
        } else if s == seq!['i', 't', 'e', 'm', '_', 'l', 'o', 's', 't'] {
            Some(RefundReason::ItemLost)
        } else if s == seq!['o', 'v', 'e', 'r', 'c', 'h', 'a', 'r', 'g', 'e'] {
            Some(RefundReason::Overcharge)
        } else if s == seq!['d', 'u', 'p', 'l', 'i', 'c', 'a', 't', 'e', '_', 'p', 'a', 'y', 'm', 'e', 'n', 't'] {
            Some(RefundReason::DuplicatePayment)
        } else if s == seq!['p', 'r', 'o', 'v', 'i', 'd', 'e', 'r', '_', 'u', 'n', 'a', 'b', 'l', 'e'] {
            Some(RefundReason::ProviderUnable)
        } else if s == seq!['o', 't', 'h', 'e', 'r'] {
            Some(RefundReason::Other)
        } else {
            None
        }
    }

    /// The wire name (what `Display` writes).
    pub fn as_str(&self) -> (r: &'static str)
        ensures
            r@ == self.spec_name(),
    {
        match self {
            RefundReason::CustomerRequest => {
                proof {
                    reveal_strlit("customer_request");
                    assert("customer_request"@ =~= seq!['c', 'u', 's', 't', 'o', 'm', 'e', 'r', '_', 'r', 'e', 'q', 'u', 'e', 's', 't']);
                }
                "customer_request"
            },
            RefundReason::OrderCancelled => {
                proof {
                    reveal_strlit("order_cancelled");
                    assert("order_cancelled"@ =~= seq!['o', 'r', 'd', 'e', 'r', '_', 'c', 'a', 'n', 'c', 'e', 'l', 'l', 'e', 'd']);
                }
                "order_cancelled"
            },
            RefundReason::ServiceIssue => {
                proof {
                    reveal_strlit("service_issue");
                    assert("service_issue"@ =~= seq!['s', 'e', 'r', 'v', 'i', 'c', 'e', '_', 'i', 's', 's', 'u', 'e']);
                }
                "service_issue"
            },
            RefundReason::ItemDamaged => {
                proof {
                    reveal_strlit("item_damaged");
                    assert("item_damaged"@ =~= seq!['i', 't', 'e', 'm', '_', 'd', 'a', 'm', 'a', 'g', 'e', 'd']);
                }
                "item_damaged"
            },
            RefundReason::ItemLost => {
                proof {
                    reveal_strlit("item_lost");
                    assert("item_lost"@ =~= seq!['i', 't', 'e', 'm', '_', 'l', 'o', 's', 't']);
                }
                "item_lost"
            },
            RefundReason::Overcharge => {
                proof {
                    reveal_strlit("overcharge");
                    assert("overcharge"@ =~= seq!['o', 'v', 'e', 'r', 'c', 'h', 'a', 'r', 'g', 'e']);
                }
                "overcharge"
            },
            RefundReason::DuplicatePayment => {
                proof {
                    reveal_strlit("duplicate_payment");
                    assert("duplicate_payment"@ =~= seq!['d', 'u', 'p', 'l', 'i', 'c', 'a', 't', 'e', '_', 'p', 'a', 'y', 'm', 'e', 'n', 't']);
                }
                "duplicate_payment"
            },
            RefundReason::ProviderUnable => {
                proof {
                    reveal_strlit("provider_unable");
                    assert("provider_unable"@ =~= seq!['p', 'r', 'o', 'v', 'i', 'd', 'e', 'r', '_', 'u', 'n', 'a', 'b', 'l', 'e']);
                }
                "provider_unable"
            },
            RefundReason::Other => {
                proof {
                    reveal_strlit("other");
                    assert("other"@ =~= seq!['o', 't', 'h', 'e', 'r']);
                }
                "other"
            },
        }
    }

    /// The wire name as an owned string.
    pub fn to_string(&self) -> (r: String)
        ensures
            r@ == self.spec_name(),
    {
        self.as_str().to_string()
    }

    /// Parse a wire name, case-insensitively (the text is lowercased first).
    pub fn parse(s: &str) -> (r: Result<RefundReason, String>)
        ensures
            match Self::spec_from_name(unicode_lowercase(s@)) {
                Some(v) => r == Ok::<RefundReason, String>(v),
                None => r matches Err(m) && m@ == "Unknown RefundReason variant: "@ + s@,
            },
            vstd::utf8::is_ascii_chars(s@) ==> unicode_lowercase(s@) == ascii_lower(s@),
    {
        let lower = to_lowercase(s);
        if str_eq(lower.as_str(), "customer_request") {
            proof {
                reveal_strlit("customer_request");
                assert("customer_request"@ =~= seq!['c', 'u', 's', 't', 'o', 'm', 'e', 'r', '_', 'r', 'e', 'q', 'u', 'e', 's', 't']);
            }
            return Ok(RefundReason::CustomerRequest);
        }
        if str_eq(lower.as_str(), "order_cancelled") {
            proof {
                reveal_strlit("order_cancelled");
                assert("order_cancelled"@ =~= seq!['o', 'r', 'd', 'e', 'r', '_', 'c', 'a', 'n', 'c', 'e', 'l', 'l', 'e', 'd']);
            }
            return Ok(RefundReason::OrderCancelled);
        }
        if str_eq(lower.as_str(), "service_issue") {
            proof {
                reveal_strlit("service_issue");
                assert("service_issue"@ =~= seq!['s', 'e', 'r', 'v', 'i', 'c', 'e', '_', 'i', 's', 's', 'u', 'e']);
            }
            return Ok(RefundReason::ServiceIssue);
        }
        if str_eq(lower.as_str(), "item_damaged") {
            proof {
                reveal_strlit("item_damaged");
                assert("item_damaged"@ =~= seq!['i', 't', 'e', 'm', '_', 'd', 'a', 'm', 'a', 'g', 'e', 'd']);
            }
            return Ok(RefundReason::ItemDamaged);
        }
        if str_eq(lower.as_str(), "item_lost") {
            proof {
                reveal_strlit("item_lost");
                assert("item_lost"@ =~= seq!['i', 't', 'e', 'm', '_', 'l', 'o', 's', 't']);
            }
            return Ok(RefundReason::ItemLost);
        }
        if str_eq(lower.as_str(), "overcharge") {
            proof {
                reveal_strlit("overcharge");
                assert("overcharge"@ =~= seq!['o', 'v', 'e', 'r', 'c', 'h', 'a', 'r', 'g', 'e']);
            }
            return Ok(RefundReason::Overcharge);
        }
        if str_eq(lower.as_str(), "duplicate_payment") {
            proof {
                reveal_strlit("duplicate_payment");
                assert("duplicate_payment"@ =~= seq!['d', 'u', 'p', 'l', 'i', 'c', 'a', 't', 'e', '_', 'p', 'a', 'y', 'm', 'e', 'n', 't']);
            }
            return Ok(RefundReason::DuplicatePayment);
        }
        if str_eq(lower.as_str(), "provider_unable") {
            proof {
                reveal_strlit("provider_unable");
                assert("provider_unable"@ =~= seq!['p', 'r', 'o', 'v', 'i', 'd', 'e', 'r', '_', 'u', 'n', 'a', 'b', 'l', 'e']);
            }
            return Ok(RefundReason::ProviderUnable);
        }
        if str_eq(lower.as_str(), "other") {
            proof {
                reveal_strlit("other");
                assert("other"@ =~= seq!['o', 't', 'h', 'e', 'r']);
            }
            return Ok(RefundReason::Other);
        }
        proof {
            reveal_strlit("customer_request");
            assert("customer_request"@ =~= seq!['c', 'u', 's', 't', 'o', 'm', 'e', 'r', '_', 'r', 'e', 'q', 'u', 'e', 's', 't']);
        }
        proof {
            reveal_strlit("order_cancelled");
            assert("order_cancelled"@ =~= seq!['o', 'r', 'd', 'e', 'r', '_', 'c', 'a', 'n', 'c', 'e', 'l', 'l', 'e', 'd']);
        }
        proof {
            reveal_strlit("service_issue");
            assert("service_issue"@ =~= seq!['s', 'e', 'r', 'v', 'i', 'c', 'e', '_', 'i', 's', 's', 'u', 'e']);
        }
        proof {
            reveal_strlit("item_damaged");
            assert("item_damaged"@ =~= seq!['i', 't', 'e', 'm', '_', 'd', 'a', 'm', 'a', 'g', 'e', 'd']);
        }
        proof {
            reveal_strlit("item_lost");
            assert("item_lost"@ =~= seq!['i', 't', 'e', 'm', '_', 'l', 'o', 's', 't']);
        }
        proof {
            reveal_strlit("overcharge");
            assert("overcharge"@ =~= seq!['o', 'v', 'e', 'r', 'c', 'h', 'a', 'r', 'g', 'e']);
        }
        proof {
            reveal_strlit("duplicate_payment");
            assert("duplicate_payment"@ =~= seq!['d', 'u', 'p', 'l', 'i', 'c', 'a', 't', 'e', '_', 'p', 'a', 'y', 'm', 'e', 'n', 't']);
        }
        proof {
            reveal_strlit("provider_unable");
            assert("provider_unable"@ =~= seq!['p', 'r', 'o', 'v', 'i', 'd', 'e', 'r', '_', 'u', 'n', 'a', 'b', 'l', 'e']);
        }
        proof {
            reveal_strlit("other");
            assert("other"@ =~= seq!['o', 't', 'h', 'e', 'r']);
        }
        Err("Unknown RefundReason variant: ".to_string().concat(s))
    }

    /// Every wire name is lowercase ASCII and names its own variant, so parsing what a variant
    /// displays as gives the variant back.
    pub proof fn lemma_name_round_trip(v: RefundReason)
        ensures
            vstd::utf8::is_ascii_chars(v.spec_name()),
            ascii_lower(v.spec_name()) == v.spec_name(),
            Self::spec_from_name(v.spec_name()) == Some(v),
    {
        match v {
            RefundReason::CustomerRequest => {
                assert(ascii_lower(seq!['c', 'u', 's', 't', 'o', 'm', 'e', 'r', '_', 'r', 'e', 'q', 'u', 'e', 's', 't']) =~= seq!['c', 'u', 's', 't', 'o', 'm', 'e', 'r', '_', 'r', 'e', 'q', 'u', 'e', 's', 't']);
            },
            RefundReason::OrderCancelled => {
                assert(ascii_lower(seq!['o', 'r', 'd', 'e', 'r', '_', 'c', 'a', 'n', 'c', 'e', 'l', 'l', 'e', 'd']) =~= seq!['o', 'r', 'd', 'e', 'r', '_', 'c', 'a', 'n', 'c', 'e', 'l', 'l', 'e', 'd']);
            },
            RefundReason::ServiceIssue => {
                assert(ascii_lower(seq!['s', 'e', 'r', 'v', 'i', 'c', 'e', '_', 'i', 's', 's', 'u', 'e']) =~= seq!['s', 'e', 'r', 'v', 'i', 'c', 'e', '_', 'i', 's', 's', 'u', 'e']);
            },
            RefundReason::ItemDamaged => {
                assert(ascii_lower(seq!['i', 't', 'e', 'm', '_', 'd', 'a', 'm', 'a', 'g', 'e', 'd']) =~= seq!['i', 't', 'e', 'm', '_', 'd', 'a', 'm', 'a', 'g', 'e', 'd']);
            },
            RefundReason::ItemLost => {
                assert(ascii_lower(seq!['i', 't', 'e', 'm', '_', 'l', 'o', 's', 't']) =~= seq!['i', 't', 'e', 'm', '_', 'l', 'o', 's', 't']);
            },
            RefundReason::Overcharge => {
                assert(ascii_lower(seq!['o', 'v', 'e', 'r', 'c', 'h', 'a', 'r', 'g', 'e']) =~= seq!['o', 'v', 'e', 'r', 'c', 'h', 'a', 'r', 'g', 'e']);
            },
            RefundReason::DuplicatePayment => {
                assert(ascii_lower(seq!['d', 'u', 'p', 'l', 'i', 'c', 'a', 't', 'e', '_', 'p', 'a', 'y', 'm', 'e', 'n', 't']) =~= seq!['d', 'u', 'p', 'l', 'i', 'c', 'a', 't', 'e', '_', 'p', 'a', 'y', 'm', 'e', 'n', 't']);
            },
            RefundReason::ProviderUnable => {
                assert(ascii_lower(seq!['p', 'r', 'o', 'v', 'i', 'd', 'e', 'r', '_', 'u', 'n', 'a', 'b', 'l', 'e']) =~= seq!['p', 'r', 'o', 'v', 'i', 'd', 'e', 'r', '_', 'u', 'n', 'a', 'b', 'l', 'e']);
            },
            RefundReason::Other => {
                assert(ascii_lower(seq!['o', 't', 'h', 'e', 'r']) =~= seq!['o', 't', 'h', 'e', 'r']);
            },
        }
    }
}

impl Default for RefundReason {
    fn default() -> (r: Self)
        ensures
            r == RefundReason::CustomerRequest,
    {
        RefundReason::CustomerRequest
    }
}

impl std::str::FromStr for RefundReason {
    type Err = String;

    fn from_str(s: &str) -> Result<Self, Self::Err> {
        Self::parse(s)
    }
}

} // verus!
