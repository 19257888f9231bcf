//! `RefundStatus`: its wire names (the text it is stored and displayed as), parsing and default.
use vstd::prelude::*;

use crate::text::ascii_lower;
use crate::text::str_eq;
use crate::text::to_lowercase;
use crate::text::unicode_lowercase;

verus! {

broadcast use vstd::string::group_string_axioms;

#[derive(Debug, Clone, Copy, PartialEq, Eq, Hash, Structural)]
pub enum RefundStatus {
    Pending,
    UnderReview,
    Approved,
    Processing,
    Completed,
    Rejected,
    Failed,
    Cancelled,
}

impl RefundStatus {
    /// The variant's wire name.
    pub open spec fn spec_name(self) -> Seq<char> {
        match self {
            RefundStatus::Pending => seq!['p', 'e', 'n', 'd', 'i', 'n', 'g'],
            RefundStatus::UnderReview => seq!['u', 'n', 'd', 'e', 'r', '_', 'r', 'e', 'v', 'i', 'e', 'w'],
            RefundStatus::Approved => seq!['a', 'p', 'p', 'r', 'o', 'v', 'e', 'd'],
            RefundStatus::Processing => seq!['p', 'r', 'o', 'c', 'e', 's', 's', 'i', 'n', 'g'],
            RefundStatus::Completed => seq!['c', 'o', 'm', 'p', 'l', 'e', 't', 'e', 'd'],
            RefundStatus::Rejected => seq!['r', 'e', 'j', 'e', 'c', 't', 'e', 'd'],
            RefundStatus::Failed => seq!['f', 'a', 'i', 'l', 'e', 'd'],
            RefundStatus::Cancelled => seq!['c', 'a', 'n', 'c', 'e', 'l', 'l', 'e', 'd'],
        }
    }

    /// The variant a (lowercase) wire name names.
    pub open spec fn spec_from_name(s: Seq<char>) -> Option<RefundStatus> {
        if s == seq!['p', 'e', 'n', 'd', 'i', 'n', 'g'] {
            Some(RefundStatus::Pending)
        } else if s == seq!['u', 'n', 'd', 'e', 'r', '_', 'r', 'e', 'v', 'i', 'e', 'w'] {
            Some(RefundStatus::UnderReview)
        } else if s == seq!['a', 'p', 'p', 'r', 'o', 'v', 'e', 'd'] {
            Some(RefundStatus::Approved)
        } else if s == seq!['p', 'r', 'o', 'c', 'e', 's', 's', 'i', 'n', 'g'] {
            Some(RefundStatus::Processing)
        } else if s == seq!['c', 'o', 'm', 'p', 'l', 'e', 't', 'e', 'd'] {
            Some(RefundStatus::Completed)
        } else if s == seq!['r', 'e', 'j', 'e', 'c', 't', 'e', 'd'] {
            Some(RefundStatus::Rejected)
        } else if s == seq!['f', 'a', 'i', 'l', 'e', 'd'] {
            Some(RefundStatus::Failed)
        } else if s == seq!['c', 'a', 'n', 'c', 'e', 'l', 'l', 'e', 'd'] {
            Some(RefundStatus::Cancelled)
        } else {
            None
        }
    }

    /// The wire name (what `Display` writes).
    pub fn as_str(&self) -> (r: &'static str)
        ensures
            r@ == self.spec_name(),
    {
        match self {
            RefundStatus::Pending => {
                proof {
                    reveal_strlit("pending");
                    assert("pending"@ =~= seq!['p', 'e', 'n', 'd', 'i', 'n', 'g']);
                }
                "pending"
            },
            RefundStatus::UnderReview => {
                proof {
                    reveal_strlit("under_review");
                    assert("under_review"@ =~= seq!['u', 'n', 'd', 'e', 'r', '_', 'r', 'e', 'v', 'i', 'e', 'w']);
                }
                "under_review"
            },
            RefundStatus::Approved => {
                proof {
                    reveal_strlit("approved");
                    assert("approved"@ =~= seq!['a', 'p', 'p', 'r', 'o', 'v', 'e', 'd']);
                }
                "approved"
            },
            RefundStatus::Processing => {
                proof {
                    reveal_strlit("processing");
                    assert("processing"@ =~= seq!['p', 'r', 'o', 'c', 'e', 's', 's', 'i', 'n', 'g']);
                }
                "processing"
            },
            RefundStatus::Completed => {
                proof {
                    reveal_strlit("completed");
                    assert("completed"@ =~= seq!['c', 'o', 'm', 'p', 'l', 'e', 't', 'e', 'd']);
                }
                "completed"
            },
            RefundStatus::Rejected => {
                proof {
                    reveal_strlit("rejected");
                    assert("rejected"@ =~= seq!['r', 'e', 'j', 'e', 'c', 't', 'e', 'd']);
                }
                "rejected"
            },
            RefundStatus::Failed => {
                proof {
                    reveal_strlit("failed");
                    assert("failed"@ =~= seq!['f', 'a', 'i', 'l', 'e', 'd']);
                }
                "failed"
            },
            RefundStatus::Cancelled => {
                proof {
                    reveal_strlit("cancelled");
                    assert("cancelled"@ =~= seq!['c', 'a', 'n', 'c', 'e', 'l', 'l', 'e', 'd']);
                }
                "cancelled"
            },
        }
    }

    /// The wire name as an owned string.
    pub fn to_string(&self) -> (r: String)
        ensures
            r@ == self.spec_name(),
    {
        self.as_str().to_string()
    }

    /// Parse a wire name, case-insensitively (the text is lowercased first).
    pub fn parse(s: &str) -> (r: Result<RefundStatus, String>)
        ensures
            match Self::spec_from_name(unicode_lowercase(s@)) {
                Some(v) => r == Ok::<RefundStatus, String>(v),
                None => r matches Err(m) && m@ == "Unknown RefundStatus variant: "@ + s@,
            },
            vstd::utf8::is_ascii_chars(s@) ==> unicode_lowercase(s@) == ascii_lower(s@),
    {
        let lower = to_lowercase(s);
        if str_eq(lower.as_str(), "pending") {
            proof {
                reveal_strlit("pending");
                assert("pending"@ =~= seq!['p', 'e', 'n', 'd', 'i', 'n', 'g']);
            }
            return Ok(RefundStatus::Pending);
        }
        if str_eq(lower.as_str(), "under_review") {
            proof {
                reveal_strlit("under_review");
                assert("under_review"@ =~= seq!['u', 'n', 'd', 'e', 'r', '_', 'r', 'e', 'v', 'i', 'e', 'w']);
            }
            return Ok(RefundStatus::UnderReview);
        }
        if str_eq(lower.as_str(), "approved") {
            proof {
                reveal_strlit("approved");
                assert("approved"@ =~= seq!['a', 'p', 'p', 'r', 'o', 'v', 'e', 'd']);
            }
            return Ok(RefundStatus::Approved);
        }
        if str_eq(lower.as_str(), "processing") {
            proof {
                reveal_strlit("processing");
                assert("processing"@ =~= seq!['p', 'r', 'o', 'c', 'e', 's', 's', 'i', 'n', 'g']);
            }
            return Ok(RefundStatus::Processing);
        }
        if str_eq(lower.as_str(), "completed") {
            proof {
                reveal_strlit("completed");
                assert("completed"@ =~= seq!['c', 'o', 'm', 'p', 'l', 'e', 't', 'e', 'd']);
            }
            return Ok(RefundStatus::Completed);
        }
        if str_eq(lower.as_str(), "rejected") {
            proof {
                reveal_strlit("rejected");
                assert("rejected"@ =~= seq!['r', 'e', 'j', 'e', 'c', 't', 'e', 'd']);
            }
            return Ok(RefundStatus::Rejected);
        }
        if str_eq(lower.as_str(), "failed") {
            proof {
                reveal_strlit("failed");
                assert("failed"@ =~= seq!['f', 'a', 'i', 'l', 'e', 'd']);
            }
            return Ok(RefundStatus::Failed);
        }
        if str_eq(lower.as_str(), "cancelled") {
            proof {
                reveal_strlit("cancelled");
                assert("cancelled"@ =~= seq!['c', 'a', 'n', 'c', 'e', 'l', 'l', 'e', 'd']);
            }
            return Ok(RefundStatus::Cancelled);
        }
        proof {
            reveal_strlit("pending");
            assert("pending"@ =~= seq!['p', 'e', 'n', 'd', 'i', 'n', 'g']);
        }
        proof {
            reveal_strlit("under_review");
            assert("under_review"@ =~= seq!['u', 'n', 'd', 'e', 'r', '_', 'r', 'e', 'v', 'i', 'e', 'w']);
        }
        proof {
            reveal_strlit("approved");
            assert("approved"@ =~= seq!['a', 'p', 'p', 'r', 'o', 'v', 'e', 'd']);
        }
        proof {
            reveal_strlit("processing");
            assert("processing"@ =~= seq!['p', 'r', 'o', 'c', 'e', 's', 's', 'i', 'n', 'g']);
        }
        proof {
            reveal_strlit("completed");
            assert("completed"@ =~= seq!['c', 'o', 'm', 'p', 'l', 'e', 't', 'e', 'd']);
        }
        proof {
            reveal_strlit("rejected");
            assert("rejected"@ =~= seq!['r', 'e', 'j', 'e', 'c', 't', 'e', 'd']);
        }
        proof {
            reveal_strlit("failed");
            assert("failed"@ =~= seq!['f', 'a', 'i', 'l', 'e', 'd']);
        }
        proof {
            reveal_strlit("cancelled");
            assert("cancelled"@ =~= seq!['c', 'a', 'n', 'c', 'e', 'l', 'l', 'e', 'd']);
        }
        Err("Unknown RefundStatus variant: ".to_string().concat(s))
    }

    /// Every wire name is lowercase ASCII and names its own variant, so parsing what a variant
    /// displays as gives the variant back.
    pub proof fn lemma_name_round_trip(v: RefundStatus)
        ensures
            vstd::utf8::is_ascii_chars(v.spec_name()),
            ascii_lower(v.spec_name()) == v.spec_name(),
            Self::spec_from_name(v.spec_name()) == Some(v),
    {
        match v {
            RefundStatus::Pending => {
                assert(ascii_lower(seq!['p', 'e', 'n', 'd', 'i', 'n', 'g']) =~= seq!['p', 'e', 'n', 'd', 'i', 'n', 'g']);
            },
            RefundStatus::UnderReview => {
                assert(ascii_lower(seq!['u', 'n', 'd', 'e', 'r', '_', 'r', 'e', 'v', 'i', 'e', 'w']) =~= seq!['u', 'n', 'd', 'e', 'r', '_', 'r', 'e', 'v', 'i', 'e', 'w']);
            },
            RefundStatus::Approved => {
                assert(ascii_lower(seq!['a', 'p', 'p', 'r', 'o', 'v', 'e', 'd']) =~= seq!['a', 'p', 'p', 'r', 'o', 'v', 'e', 'd']);
            },
            RefundStatus::Processing => {
                assert(ascii_lower(seq!['p', 'r', 'o', 'c', 'e', 's', 's', 'i', 'n', 'g']) =~= seq!['p', 'r', 'o', 'c', 'e', 's', 's', 'i', 'n', 'g']);
            },
            RefundStatus::Completed => {
                assert(ascii_lower(seq!['c', 'o', 'm', 'p', 'l', 'e', 't', 'e', 'd']) =~= seq!['c', 'o', 'm', 'p', 'l', 'e', 't', 'e', 'd']);
            },
            RefundStatus::Rejected => {
                assert(ascii_lower(seq!['r', 'e', 'j', 'e', 'c', 't', 'e', 'd']) =~= seq!['r', 'e', 'j', 'e', 'c', 't', 'e', 'd']);
            },
            RefundStatus::Failed => {
                assert(ascii_lower(seq!['f', 'a', 'i', 'l', 'e', 'd']) =~= seq!['f', 'a', 'i', 'l', 'e', 'd']);
            },
            RefundStatus::Cancelled => {
                assert(ascii_lower(seq!['c', 'a', 'n', 'c', 'e', 'l', 'l', 'e', 'd']) =~= seq!['c', 'a', 'n', 'c', 'e', 'l', 'l', 'e', 'd']);
            },
        }
    }
}

impl Default for RefundStatus {
    fn default() -> (r: Self)
        ensures
            r == RefundStatus::Pending,
    {
        RefundStatus::Pending
    }
}

impl std::str::FromStr for RefundStatus {
    type Err = String;

    fn from_str(s: &str) -> Result<Self, Self::Err> {
        Self::parse(s)
    }
}

} // verus!
