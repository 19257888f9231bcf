//! `PaymentScheduleStatus`: its wire names (the text it is stored and displayed as), parsing and default.
use vstd::prelude::*;

use crate::text::ascii_lower;
use crate::text::str_eq;
use crate::text::to_lowercase;
use crate::text::unicode_lowercase;

verus! {

broadcast use vstd::string::group_string_axioms;

#[derive(Debug, Clone, Copy, PartialEq, Eq, Hash, Structural)]
pub enum PaymentScheduleStatus {
    Unpaid,
    PartiallyPaid,
    Paid,
    Overdue,
}

impl PaymentScheduleStatus {
    /// The variant's wire name.
    pub open spec fn spec_name(self) -> Seq<char> {
        match self {
            PaymentScheduleStatus::Unpaid => seq!['u', 'n', 'p', 'a', 'i', 'd'],
            PaymentScheduleStatus::PartiallyPaid => seq!['p', 'a', 'r', 't', 'i', 'a', 'l', 'l', 'y', '_', 'p', 'a', 'i', 'd'],
            PaymentScheduleStatus::Paid => seq!['p', 'a', 'i', 'd'],
            PaymentScheduleStatus::Overdue => seq!['o', 'v', 'e', 'r', 'd', 'u', 'e'],
        }
    }

    /// The variant a (lowercase) wire name names.
    pub open spec fn spec_from_name(s: Seq<char>) -> Option<PaymentScheduleStatus> {
        if s == seq!['u', 'n', 'p', 'a', 'i', 'd'] {
            Some(PaymentScheduleStatus::Unpaid)
        } else if s == seq!['p', 'a', 'r', 't', 'i', 'a', 'l', 'l', 'y', '_', 'p', 'a', 'i', 'd'] {
            Some(PaymentScheduleStatus::PartiallyPaid)
        } else if s == seq!['p', 'a', 'i', 'd'] {
            Some(PaymentScheduleStatus::Paid)
        } else if s == seq!['o', 'v', 'e', 'r', 'd', 'u', 'e'] {
            Some(PaymentScheduleStatus::Overdue)
        } else {
            None
        }
    }

    /// The wire name (what `Display` writes).
    pub fn as_str(&self) -> (r: &'static str)
        ensures
            r@ == self.spec_name(),
    {
        match self {
            PaymentScheduleStatus::Unpaid => {
                proof {
                    reveal_strlit("unpaid");
                    assert("unpaid"@ =~= seq!['u', 'n', 'p', 'a', 'i', 'd']);
                }
                "unpaid"
            },
            PaymentScheduleStatus::PartiallyPaid => {
                proof {
                    reveal_strlit("partially_paid");
                    assert("partially_paid"@ =~= seq!['p', 'a', 'r', 't', 'i', 'a', 'l', 'l', 'y', '_', 'p', 'a', 'i', 'd']);
                }
                "partially_paid"
            },
            PaymentScheduleStatus::Paid => {
                proof {
                    reveal_strlit("paid");
                    assert("paid"@ =~= seq!['p', 'a', 'i', 'd']);
                }
                "paid"
            },
            PaymentScheduleStatus::Overdue => {
                proof {
                    reveal_strlit("overdue");
                    assert("overdue"@ =~= seq!['o', 'v', 'e', 'r', 'd', 'u', 'e']);
                }
                "overdue"
            },
        }
    }

    /// The wire name as an owned string.
    pub fn to_string(&self) -> (r: String)
        ensures
            r@ == self.spec_name(),
    {
        self.as_str().to_string()
    }

    /// Parse a wire name, case-insensitively (the text is lowercased first).
    pub fn parse(s: &str) -> (r: Result<PaymentScheduleStatus, String>)
        ensures
            match Self::spec_from_name(unicode_lowercase(s@)) {
                Some(v) => r == Ok::<PaymentScheduleStatus, String>(v),
                None => r matches Err(m) && m@ == "Unknown PaymentScheduleStatus variant: "@ + s@,
            },
            vstd::utf8::is_ascii_chars(s@) ==> unicode_lowercase(s@) == ascii_lower(s@),
    {
        let lower = to_lowercase(s);
        if str_eq(lower.as_str(), "unpaid") {
            proof {
                reveal_strlit("unpaid");
                assert("unpaid"@ =~= seq!['u', 'n', 'p', 'a', 'i', 'd']);
            }
            return Ok(PaymentScheduleStatus::Unpaid);
        }
        if str_eq(lower.as_str(), "partially_paid") {
            proof {
                reveal_strlit("partially_paid");
                assert("partially_paid"@ =~= seq!['p', 'a', 'r', 't', 'i', 'a', 'l', 'l', 'y', '_', 'p', 'a', 'i', 'd']);
            }
            return Ok(PaymentScheduleStatus::PartiallyPaid);
        }
        if str_eq(lower.as_str(), "paid") {
            proof {
                reveal_strlit("paid");
                assert("paid"@ =~= seq!['p', 'a', 'i', 'd']);
            }
            return Ok(PaymentScheduleStatus::Paid);
        }
        if str_eq(lower.as_str(), "overdue") {
            proof {
                reveal_strlit("overdue");
                assert("overdue"@ =~= seq!['o', 'v', 'e', 'r', 'd', 'u', 'e']);
            }
            return Ok(PaymentScheduleStatus::Overdue);
        }
        proof {
            reveal_strlit("unpaid");
            assert("unpaid"@ =~= seq!['u', 'n', 'p', 'a', 'i', 'd']);
        }
        proof {
            reveal_strlit("partially_paid");
            assert("partially_paid"@ =~= seq!['p', 'a', 'r', 't', 'i', 'a', 'l', 'l', 'y', '_', 'p', 'a', 'i', 'd']);
        }
        proof {
            reveal_strlit("paid");
            assert("paid"@ =~= seq!['p', 'a', 'i', 'd']);
        }
        proof {
            reveal_strlit("overdue");
            assert("overdue"@ =~= seq!['o', 'v', 'e', 'r', 'd', 'u', 'e']);
        }
        Err("Unknown PaymentScheduleStatus variant: ".to_string().concat(s))
    }

    /// Every wire name is lowercase ASCII and names its own variant, so parsing what a variant
    /// displays as gives the variant back.
    pub proof fn lemma_name_round_trip(v: PaymentScheduleStatus)
        ensures
            vstd::utf8::is_ascii_chars(v.spec_name()),
            ascii_lower(v.spec_name()) == v.spec_name(),
            Self::spec_from_name(v.spec_name()) == Some(v),
    {
        match v {
            PaymentScheduleStatus::Unpaid => {
                assert(ascii_lower(seq!['u', 'n', 'p', 'a', 'i', 'd']) =~= seq!['u', 'n', 'p', 'a', 'i', 'd']);
            },
            PaymentScheduleStatus::PartiallyPaid => {
                assert(ascii_lower(seq!['p', 'a', 'r', 't', 'i', 'a', 'l', 'l', 'y', '_', 'p', 'a', 'i', 'd']) =~= seq!['p', 'a', 'r', 't', 'i', 'a', 'l', 'l', 'y', '_', 'p', 'a', 'i', 'd']);
            },
            PaymentScheduleStatus::Paid => {
                assert(ascii_lower(seq!['p', 'a', 'i', 'd']) =~= seq!['p', 'a', 'i', 'd']);
            },
            PaymentScheduleStatus::Overdue => {
                assert(ascii_lower(seq!['o', 'v', 'e', 'r', 'd', 'u', 'e']) =~= seq!['o', 'v', 'e', 'r', 'd', 'u', 'e']);
            },
        }
    }
}

impl Default for PaymentScheduleStatus {
    fn default() -> (r: Self)
        ensures
            r == PaymentScheduleStatus::Unpaid,
    {
        PaymentScheduleStatus::Unpaid
    }
}

impl std::str::FromStr for PaymentScheduleStatus {
    type Err = String;

    fn from_str(s: &str) -> Result<Self, Self::Err> {
        Self::parse(s)
    }
}

} // verus!
