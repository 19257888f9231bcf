//! `InvoiceStatus`: its wire names (the text it is stored and displayed as), parsing and default.
use vstd::prelude::*;

use crate::text::ascii_lower;
use crate::text::str_eq;
use crate::text::to_lowercase;
use crate::text::unicode_lowercase;

verus! {

broadcast use vstd::string::group_string_axioms;

#[derive(Debug, Clone, Copy, PartialEq, Eq, Hash, Structural)]
pub enum InvoiceStatus {
    Draft,
    Sent,
    Viewed,
    Paid,
    PartiallyPaid,
    Overdue,
    Cancelled,
    Void,
}

impl InvoiceStatus {
    /// The variant's wire name.
    pub open spec fn spec_name(self) -> Seq<char> {
        match self {
            InvoiceStatus::Draft => seq!['d', 'r', 'a', 'f', 't'],
            InvoiceStatus::Sent => seq!['s', 'e', 'n', 't'],
            InvoiceStatus::Viewed => seq!['v', 'i', 'e', 'w', 'e', 'd'],
            InvoiceStatus::Paid => seq!['p', 'a', 'i', 'd'],
            InvoiceStatus::PartiallyPaid => seq!['p', 'a', 'r', 't', 'i', 'a', 'l', 'l', 'y', '_', 'p', 'a', 'i', 'd'],
            InvoiceStatus::Overdue => seq!['o', 'v', 'e', 'r', 'd', 'u', 'e'],
            InvoiceStatus::Cancelled => seq!['c', 'a', 'n', 'c', 'e', 'l', 'l', 'e', 'd'],
            InvoiceStatus::Void => seq!['v', 'o', 'i', 'd'],
        }
    }

    /// The variant a (lowercase) wire name names.
    pub open spec fn spec_from_name(s: Seq<char>) -> Option<InvoiceStatus> {
        if s == seq!['d', 'r', 'a', 'f', 't'] {
            Some(InvoiceStatus::Draft)
        } else if s == seq!['s', 'e', 'n', 't'] {
            Some(InvoiceStatus::Sent)
        } else if s == seq!['v', 'i', 'e', 'w', 'e', 'd'] {
            Some(InvoiceStatus::Viewed)
        } else if s == seq!['p', 'a', 'i', 'd'] {
            Some(InvoiceStatus::Paid)
        } else if s == seq!['p', 'a', 'r', 't', 'i', 'a', 'l', 'l', 'y', '_', 'p', 'a', 'i', 'd'] {
            Some(InvoiceStatus::PartiallyPaid)
        } else if s == seq!['o', 'v', 'e', 'r', 'd', 'u', 'e'] {
            Some(InvoiceStatus::Overdue)
        } else if s == seq!['c', 'a', 'n', 'c', 'e', 'l', 'l', 'e', 'd'] {
            Some(InvoiceStatus::Cancelled)
        } else if s == seq!['v', 'o', 'i', 'd'] {
            Some(InvoiceStatus::Void)
        } else {
            None
        }
    }

    /// The wire name (what `Display` writes).
    pub fn as_str(&self) -> (r: &'static str)
        ensures
            r@ == self.spec_name(),
    {
        match self {
            InvoiceStatus::Draft => {
                proof {
                    reveal_strlit("draft");
                    assert("draft"@ =~= seq!['d', 'r', 'a', 'f', 't']);
                }
                "draft"
            },
            InvoiceStatus::Sent => {
                proof {
                    reveal_strlit("sent");
                    assert("sent"@ =~= seq!['s', 'e', 'n', 't']);
                }
                "sent"
            },
            InvoiceStatus::Viewed => {
                proof {
                    reveal_strlit("viewed");
                    assert("viewed"@ =~= seq!['v', 'i', 'e', 'w', 'e', 'd']);
                }
                "viewed"
            },
            InvoiceStatus::Paid => {
                proof {
                    reveal_strlit("paid");
                    assert("paid"@ =~= seq!['p', 'a', 'i', 'd']);
                }
                "paid"
            },
            InvoiceStatus::PartiallyPaid => {
                proof {
                    reveal_strlit("partially_paid");
                    assert("partially_paid"@ =~= seq!['p', 'a', 'r', 't', 'i', 'a', 'l', 'l', 'y', '_', 'p', 'a', 'i', 'd']);
                }
                "partially_paid"
            },
            InvoiceStatus::Overdue => {
                proof {
                    reveal_strlit("overdue");
                    assert("overdue"@ =~= seq!['o', 'v', 'e', 'r', 'd', 'u', 'e']);
                }
                "overdue"
            },
            InvoiceStatus::Cancelled => {
                proof {
                    reveal_strlit("cancelled");
                    assert("cancelled"@ =~= seq!['c', 'a', 'n', 'c', 'e', 'l', 'l', 'e', 'd']);
                }
                "cancelled"
            },
            InvoiceStatus::Void => {
                proof {
                    reveal_strlit("void");
                    assert("void"@ =~= seq!['v', 'o', 'i', 'd']);
                }
                "void"
            },
        }
    }

    /// The wire name as an owned string.
    pub fn to_string(&self) -> (r: String)
        ensures
            r@ == self.spec_name(),
    {
        self.as_str().to_string()
    }

    /// Parse a wire name, case-insensitively (the text is lowercased first).
    pub fn parse(s: &str) -> (r: Result<InvoiceStatus, String>)
        ensures
            match Self::spec_from_name(unicode_lowercase(s@)) {
                Some(v) => r == Ok::<InvoiceStatus, String>(v),
                None => r matches Err(m) && m@ == "Unknown InvoiceStatus variant: "@ + s@,
            },
            vstd::utf8::is_ascii_chars(s@) ==> unicode_lowercase(s@) == ascii_lower(s@),
    {
        let lower = to_lowercase(s);
        if str_eq(lower.as_str(), "draft") {
            proof {
                reveal_strlit("draft");
                assert("draft"@ =~= seq!['d', 'r', 'a', 'f', 't']);
            }
            return Ok(InvoiceStatus::Draft);
        }
        if str_eq(lower.as_str(), "sent") {
            proof {
                reveal_strlit("sent");
                assert("sent"@ =~= seq!['s', 'e', 'n', 't']);
            }
            return Ok(InvoiceStatus::Sent);
        }
        if str_eq(lower.as_str(), "viewed") {
            proof {
                reveal_strlit("viewed");
                assert("viewed"@ =~= seq!['v', 'i', 'e', 'w', 'e', 'd']);
            }
            return Ok(InvoiceStatus::Viewed);
        }
        if str_eq(lower.as_str(), "paid") {
            proof {
                reveal_strlit("paid");
                assert("paid"@ =~= seq!['p', 'a', 'i', 'd']);
            }
            return Ok(InvoiceStatus::Paid);
        }
        if str_eq(lower.as_str(), "partially_paid") {
            proof {
                reveal_strlit("partially_paid");
                assert("partially_paid"@ =~= seq!['p', 'a', 'r', 't', 'i', 'a', 'l', 'l', 'y', '_', 'p', 'a', 'i', 'd']);
            }
            return Ok(InvoiceStatus::PartiallyPaid);
        }
        if str_eq(lower.as_str(), "overdue") {
            proof {
                reveal_strlit("overdue");
                assert("overdue"@ =~= seq!['o', 'v', 'e', 'r', 'd', 'u', 'e']);
            }
            return Ok(InvoiceStatus::Overdue);
        }
        if str_eq(lower.as_str(), "cancelled") {
            proof {
                reveal_strlit("cancelled");
                assert("cancelled"@ =~= seq!['c', 'a', 'n', 'c', 'e', 'l', 'l', 'e', 'd']);
            }
            return Ok(InvoiceStatus::Cancelled);
        }
        if str_eq(lower.as_str(), "void") {
            proof {
                reveal_strlit("void");
                assert("void"@ =~= seq!['v', 'o', 'i', 'd']);
            }
            return Ok(InvoiceStatus::Void);
        }
        proof {
            reveal_strlit("draft");
            assert("draft"@ =~= seq!['d', 'r', 'a', 'f', 't']);
        }
        proof {
            reveal_strlit("sent");
            assert("sent"@ =~= seq!['s', 'e', 'n', 't']);
        }
        proof {
            reveal_strlit("viewed");
            assert("viewed"@ =~= seq!['v', 'i', 'e', 'w', 'e', 'd']);
        }
        proof {
            reveal_strlit("paid");
            assert("paid"@ =~= seq!['p', 'a', 'i', 'd']);
        }
        proof {
            reveal_strlit("partially_paid");
            assert("partially_paid"@ =~= seq!['p', 'a', 'r', 't', 'i', 'a', 'l', 'l', 'y', '_', 'p', 'a', 'i', 'd']);
        }
        proof {
            reveal_strlit("overdue");
            assert("overdue"@ =~= seq!['o', 'v', 'e', 'r', 'd', 'u', 'e']);
        }
        proof {
            reveal_strlit("cancelled");
            assert("cancelled"@ =~= seq!['c', 'a', 'n', 'c', 'e', 'l', 'l', 'e', 'd']);
        }
        proof {
            reveal_strlit("void");
            assert("void"@ =~= seq!['v', 'o', 'i', 'd']);
        }
        Err("Unknown InvoiceStatus variant: ".to_string().concat(s))
    }

    /// Every wire name is lowercase ASCII and names its own variant, so parsing what a variant
    /// displays as gives the variant back.
    pub proof fn lemma_name_round_trip(v: InvoiceStatus)
        ensures
            vstd::utf8::is_ascii_chars(v.spec_name()),
            ascii_lower(v.spec_name()) == v.spec_name(),
            Self::spec_from_name(v.spec_name()) == Some(v),
    {
        match v {
            InvoiceStatus::Draft => {
                assert(ascii_lower(seq!['d', 'r', 'a', 'f', 't']) =~= seq!['d', 'r', 'a', 'f', 't']);
            },
            InvoiceStatus::Sent => {
                assert(ascii_lower(seq!['s', 'e', 'n', 't']) =~= seq!['s', 'e', 'n', 't']);
            },
            InvoiceStatus::Viewed => {
                assert(ascii_lower(seq!['v', 'i', 'e', 'w', 'e', 'd']) =~= seq!['v', 'i', 'e', 'w', 'e', 'd']);
            },
            InvoiceStatus::Paid => {
                assert(ascii_lower(seq!['p', 'a', 'i', 'd']) =~= seq!['p', 'a', 'i', 'd']);
            },
            InvoiceStatus::PartiallyPaid => {
                assert(ascii_lower(seq!['p', 'a', 'r', 't', 'i', 'a', 'l', 'l', 'y', '_', 'p', 'a', 'i', 'd']) =~= seq!['p', 'a', 'r', 't', 'i', 'a', 'l', 'l', 'y', '_', 'p', 'a', 'i', 'd']);
            },
            InvoiceStatus::Overdue => {
                assert(ascii_lower(seq!['o', 'v', 'e', 'r', 'd', 'u', 'e']) =~= seq!['o', 'v', 'e', 'r', 'd', 'u', 'e']);
            },
            InvoiceStatus::Cancelled => {
                assert(ascii_lower(seq!['c', 'a', 'n', 'c', 'e', 'l', 'l', 'e', 'd']) =~= seq!['c', 'a', 'n', 'c', 'e', 'l', 'l', 'e', 'd']);
            },
            InvoiceStatus::Void => {
                assert(ascii_lower(seq!['v', 'o', 'i', 'd']) =~= seq!['v', 'o', 'i', 'd']);
            },
        }
    }
}

impl Default for InvoiceStatus {
    fn default() -> (r: Self)
        ensures
            r == InvoiceStatus::Draft,
    {
        InvoiceStatus::Draft
    }
}

impl std::str::FromStr for InvoiceStatus {
    type Err = String;

    fn from_str(s: &str) -> Result<Self, Self::Err> {
        Self::parse(s)
    }
}

} // verus!
