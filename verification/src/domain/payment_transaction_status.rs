//! `PaymentTransactionStatus`: its wire names (the text it is stored and displayed as), parsing and default.
use vstd::prelude::*;

use crate::text::ascii_lower;
use crate::text::str_eq;
use crate::text::to_lowercase;
use crate::text::unicode_lowercase;

verus! {

broadcast use vstd::string::group_string_axioms;

#[derive(Debug, Clone, Copy, PartialEq, Eq, Hash, Structural)]
pub enum PaymentTransactionStatus {
    Pending,
    Processing,
    Completed,
    Failed,
    Expired,
    Cancelled,
    Refunded,
    PartiallyRefunded,
}

impl PaymentTransactionStatus {
    /// The variant's wire name.
    pub open spec fn spec_name(self) -> Seq<char> {
        match self {
            PaymentTransactionStatus::Pending => seq!['p', 'e', 'n', 'd', 'i', 'n', 'g'],
            PaymentTransactionStatus::Processing => seq!['p', 'r', 'o', 'c', 'e', 's', 's', 'i', 'n', 'g'],
            PaymentTransactionStatus::Completed => seq!['c', 'o', 'm', 'p', 'l', 'e', 't', 'e', 'd'],
            PaymentTransactionStatus::Failed => seq!['f', 'a', 'i', 'l', 'e', 'd'],
            PaymentTransactionStatus::Expired => seq!['e', 'x', 'p', 'i', 'r', 'e', 'd'],
            PaymentTransactionStatus::Cancelled => seq!['c', 'a', 'n', 'c', 'e', 'l', 'l', 'e', 'd'],
            PaymentTransactionStatus::Refunded => seq!['r', 'e', 'f', 'u', 'n', 'd', 'e', 'd'],
            PaymentTransactionStatus::PartiallyRefunded => seq!['p', 'a', 'r', 't', 'i', 'a', 'l', 'l', 'y', '_', 'r', 'e', 'f', 'u', 'n', 'd', 'e', 'd'],
        }
    }

    /// The variant a (lowercase) wire name names.
    pub open spec fn spec_from_name(s: Seq<char>) -> Option<PaymentTransactionStatus> {
        if s == seq!['p', 'e', 'n', 'd', 'i', 'n', 'g'] {
            Some(PaymentTransactionStatus::Pending)
        } else if s == seq!['p', 'r', 'o', 'c', 'e', 's', 's', 'i', 'n', 'g'] {
            Some(PaymentTransactionStatus::Processing)
        } else if s == seq!['c', 'o', 'm', 'p', 'l', 'e', 't', 'e', 'd'] {
            Some(PaymentTransactionStatus::Completed)
        } else if s == seq!['f', 'a', 'i', 'l', 'e', 'd'] {
            Some(PaymentTransactionStatus::Failed)
        } else if s == seq!['e', 'x', 'p', 'i', 'r', 'e', 'd'] {
            Some(PaymentTransactionStatus::Expired)
        } else if s == seq!['c', 'a', 'n', 'c', 'e', 'l', 'l', 'e', 'd'] {
            Some(PaymentTransactionStatus::Cancelled)
        } else if s == seq!['r', 'e', 'f', 'u', 'n', 'd', 'e', 'd'] {
            Some(PaymentTransactionStatus::Refunded)
        } else if s == seq!['p', 'a', 'r', 't', 'i', 'a', 'l', 'l', 'y', '_', 'r', 'e', 'f', 'u', 'n', 'd', 'e', 'd'] {
            Some(PaymentTransactionStatus::PartiallyRefunded)
        } else {
            None
        }
    }

    /// The wire name (what `Display` writes).
    pub fn as_str(&self) -> (r: &'static str)
        ensures
            r@ == self.spec_name(),
    {
        match self {
            PaymentTransactionStatus::Pending => {
                proof {
                    reveal_strlit("pending");
                    assert("pending"@ =~= seq!['p', 'e', 'n', 'd', 'i', 'n', 'g']);
                }
                "pending"
            },
            PaymentTransactionStatus::Processing => {
                proof {
                    reveal_strlit("processing");
                    assert("processing"@ =~= seq!['p', 'r', 'o', 'c', 'e', 's', 's', 'i', 'n', 'g']);
                }
                "processing"
            },
            PaymentTransactionStatus::Completed => {
                proof {
                    reveal_strlit("completed");
                    assert("completed"@ =~= seq!['c', 'o', 'm', 'p', 'l', 'e', 't', 'e', 'd']);
                }
                "completed"
            },
            PaymentTransactionStatus::Failed => {
                proof {
                    reveal_strlit("failed");
                    assert("failed"@ =~= seq!['f', 'a', 'i', 'l', 'e', 'd']);
                }
                "failed"
            },
            PaymentTransactionStatus::Expired => {
                proof {
                    reveal_strlit("expired");
                    assert("expired"@ =~= seq!['e', 'x', 'p', 'i', 'r', 'e', 'd']);
                }
                "expired"
            },
            PaymentTransactionStatus::Cancelled => {
                proof {
                    reveal_strlit("cancelled");
                    assert("cancelled"@ =~= seq!['c', 'a', 'n', 'c', 'e', 'l', 'l', 'e', 'd']);
                }
                "cancelled"
            },
            PaymentTransactionStatus::Refunded => {
                proof {
                    reveal_strlit("refunded");
                    assert("refunded"@ =~= seq!['r', 'e', 'f', 'u', 'n', 'd', 'e', 'd']);
                }
                "refunded"
            },
            PaymentTransactionStatus::PartiallyRefunded => {
                proof {
                    reveal_strlit("partially_refunded");
                    assert("partially_refunded"@ =~= seq!['p', 'a', 'r', 't', 'i', 'a', 'l', 'l', 'y', '_', 'r', 'e', 'f', 'u', 'n', 'd', 'e', 'd']);
                }
                "partially_refunded"
            },
        }
    }

    /// The wire name as an owned string.
    pub fn to_string(&self) -> (r: String)
        ensures
            r@ == self.spec_name(),
    {
        self.as_str().to_string()
    }

    /// Parse a wire name, case-insensitively (the text is lowercased first).
    pub fn parse(s: &str) -> (r: Result<PaymentTransactionStatus, String>)
        ensures
            match Self::spec_from_name(unicode_lowercase(s@)) {
                Some(v) => r == Ok::<PaymentTransactionStatus, String>(v),
                None => r matches Err(m) && m@ == "Unknown PaymentTransactionStatus variant: "@ + s@,
            },
            vstd::utf8::is_ascii_chars(s@) ==> unicode_lowercase(s@) == ascii_lower(s@),
    {
        let lower = to_lowercase(s);
        if str_eq(lower.as_str(), "pending") {
            proof {
                reveal_strlit("pending");
                assert("pending"@ =~= seq!['p', 'e', 'n', 'd', 'i', 'n', 'g']);
            }
            return Ok(PaymentTransactionStatus::Pending);
        }
        if str_eq(lower.as_str(), "processing") {
            proof {
                reveal_strlit("processing");
                assert("processing"@ =~= seq!['p', 'r', 'o', 'c', 'e', 's', 's', 'i', 'n', 'g']);
            }
            return Ok(PaymentTransactionStatus::Processing);
        }
        if str_eq(lower.as_str(), "completed") {
            proof {
                reveal_strlit("completed");
                assert("completed"@ =~= seq!['c', 'o', 'm', 'p', 'l', 'e', 't', 'e', 'd']);
            }
            return Ok(PaymentTransactionStatus::Completed);
        }
        if str_eq(lower.as_str(), "failed") {
            proof {
                reveal_strlit("failed");
                assert("failed"@ =~= seq!['f', 'a', 'i', 'l', 'e', 'd']);
            }
            return Ok(PaymentTransactionStatus::Failed);
        }
        if str_eq(lower.as_str(), "expired") {
            proof {
                reveal_strlit("expired");
                assert("expired"@ =~= seq!['e', 'x', 'p', 'i', 'r', 'e', 'd']);
            }
            return Ok(PaymentTransactionStatus::Expired);
        }
        if str_eq(lower.as_str(), "cancelled") {
            proof {
                reveal_strlit("cancelled");
                assert("cancelled"@ =~= seq!['c', 'a', 'n', 'c', 'e', 'l', 'l', 'e', 'd']);
            }
            return Ok(PaymentTransactionStatus::Cancelled);
        }
        if str_eq(lower.as_str(), "refunded") {
            proof {
                reveal_strlit("refunded");
                assert("refunded"@ =~= seq!['r', 'e', 'f', 'u', 'n', 'd', 'e', 'd']);
            }
            return Ok(PaymentTransactionStatus::Refunded);
        }
        if str_eq(lower.as_str(), "partially_refunded") {
            proof {
                reveal_strlit("partially_refunded");
                assert("partially_refunded"@ =~= seq!['p', 'a', 'r', 't', 'i', 'a', 'l', 'l', 'y', '_', 'r', 'e', 'f', 'u', 'n', 'd', 'e', 'd']);
            }
            return Ok(PaymentTransactionStatus::PartiallyRefunded);
        }
        proof {
            reveal_strlit("pending");
            assert("pending"@ =~= seq!['p', 'e', 'n', 'd', 'i', 'n', 'g']);
        }
        proof {
            reveal_strlit("processing");
            assert("processing"@ =~= seq!['p', 'r', 'o', 'c', 'e', 's', 's', 'i', 'n', 'g']);
        }
        proof {
            reveal_strlit("completed");
            assert("completed"@ =~= seq!['c', 'o', 'm', 'p', 'l', 'e', 't', 'e', 'd']);
        }
        proof {
            reveal_strlit("failed");
            assert("failed"@ =~= seq!['f', 'a', 'i', 'l', 'e', 'd']);
        }
        proof {
            reveal_strlit("expired");
            assert("expired"@ =~= seq!['e', 'x', 'p', 'i', 'r', 'e', 'd']);
        }
        proof {
            reveal_strlit("cancelled");
            assert("cancelled"@ =~= seq!['c', 'a', 'n', 'c', 'e', 'l', 'l', 'e', 'd']);
        }
        proof {
            reveal_strlit("refunded");
            assert("refunded"@ =~= seq!['r', 'e', 'f', 'u', 'n', 'd', 'e', 'd']);
        }
        proof {
            reveal_strlit("partially_refunded");
            assert("partially_refunded"@ =~= seq!['p', 'a', 'r', 't', 'i', 'a', 'l', 'l', 'y', '_', 'r', 'e', 'f', 'u', 'n', 'd', 'e', 'd']);
        }
        Err("Unknown PaymentTransactionStatus variant: ".to_string().concat(s))
    }

    /// Every wire name is lowercase ASCII and names its own variant, so parsing what a variant
    /// displays as gives the variant back.
    pub proof fn lemma_name_round_trip(v: PaymentTransactionStatus)
        ensures
            vstd::utf8::is_ascii_chars(v.spec_name()),
            ascii_lower(v.spec_name()) == v.spec_name(),
            Self::spec_from_name(v.spec_name()) == Some(v),
    {
        match v {
            PaymentTransactionStatus::Pending => {
                assert(ascii_lower(seq!['p', 'e', 'n', 'd', 'i', 'n', 'g']) =~= seq!['p', 'e', 'n', 'd', 'i', 'n', 'g']);
            },
            PaymentTransactionStatus::Processing => {
                assert(ascii_lower(seq!['p', 'r', 'o', 'c', 'e', 's', 's', 'i', 'n', 'g']) =~= seq!['p', 'r', 'o', 'c', 'e', 's', 's', 'i', 'n', 'g']);
            },
            PaymentTransactionStatus::Completed => {
                assert(ascii_lower(seq!['c', 'o', 'm', 'p', 'l', 'e', 't', 'e', 'd']) =~= seq!['c', 'o', 'm', 'p', 'l', 'e', 't', 'e', 'd']);
            },
            PaymentTransactionStatus::Failed => {
                assert(ascii_lower(seq!['f', 'a', 'i', 'l', 'e', 'd']) =~= seq!['f', 'a', 'i', 'l', 'e', 'd']);
            },
            PaymentTransactionStatus::Expired => {
                assert(ascii_lower(seq!['e', 'x', 'p', 'i', 'r', 'e', 'd']) =~= seq!['e', 'x', 'p', 'i', 'r', 'e', 'd']);
            },
            PaymentTransactionStatus::Cancelled => {
                assert(ascii_lower(seq!['c', 'a', 'n', 'c', 'e', 'l', 'l', 'e', 'd']) =~= seq!['c', 'a', 'n', 'c', 'e', 'l', 'l', 'e', 'd']);
            },
            PaymentTransactionStatus::Refunded => {
                assert(ascii_lower(seq!['r', 'e', 'f', 'u', 'n', 'd', 'e', 'd']) =~= seq!['r', 'e', 'f', 'u', 'n', 'd', 'e', 'd']);
            },
            PaymentTransactionStatus::PartiallyRefunded => {
                assert(ascii_lower(seq!['p', 'a', 'r', 't', 'i', 'a', 'l', 'l', 'y', '_', 'r', 'e', 'f', 'u', 'n', 'd', 'e', 'd']) =~= seq!['p', 'a', 'r', 't', 'i', 'a', 'l', 'l', 'y', '_', 'r', 'e', 'f', 'u', 'n', 'd', 'e', 'd']);
            },
        }
    }
}

impl Default for PaymentTransactionStatus {
    fn default() -> (r: Self)
        ensures
            r == PaymentTransactionStatus::Pending,
    {
        PaymentTransactionStatus::Pending
    }
}

impl std::str::FromStr for PaymentTransactionStatus {
    type Err = String;

    fn from_str(s: &str) -> Result<Self, Self::Err> {
        Self::parse(s)
    }
}

} // verus!
