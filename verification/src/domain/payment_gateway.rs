//! `PaymentGateway`: its wire names (the text it is stored and displayed as), parsing and default.
use vstd::prelude::*;

use crate::text::ascii_lower;
use crate::text::str_eq;
use crate::text::to_lowercase;
use crate::text::unicode_lowercase;

verus! {

broadcast use vstd::string::group_string_axioms;

#[derive(Debug, Clone, Copy, PartialEq, Eq, Hash, Structural)]
pub enum PaymentGateway {
    Xendit,
    Midtrans,
    Doku,
    Stripe,
    Manual,
}

impl PaymentGateway {
    /// The variant's wire name.
    pub open spec fn spec_name(self) -> Seq<char> {
        match self {
            PaymentGateway::Xendit => seq!['x', 'e', 'n', 'd', 'i', 't'],
            PaymentGateway::Midtrans => seq!['m', 'i', 'd', 't', 'r', 'a', 'n', 's'],
            PaymentGateway::Doku => seq!['d', 'o', 'k', 'u'],
            PaymentGateway::Stripe => seq!['s', 't', 'r', 'i', 'p', 'e'],
            PaymentGateway::Manual => seq!['m', 'a', 'n', 'u', 'a', 'l'],
        }
    }

    /// The variant a (lowercase) wire name names.
    pub open spec fn spec_from_name(s: Seq<char>) -> Option<PaymentGateway> {
        if s == seq!['x', 'e', 'n', 'd', 'i', 't'] {
            Some(PaymentGateway::Xendit)
        } else if s == seq!['m', 'i', 'd', 't', 'r', 'a', 'n', 's'] {
            Some(PaymentGateway::Midtrans)
        } else if s == seq!['d', 'o', 'k', 'u'] {
            Some(PaymentGateway::Doku)
        } else if s == seq!['s', 't', 'r', 'i', 'p', 'e'] {
            Some(PaymentGateway::Stripe)
        } else if s == seq!['m', 'a', 'n', 'u', 'a', 'l'] {
            Some(PaymentGateway::Manual)
        } else {
            None
        }
    }

    /// The wire name (what `Display` writes).
    pub fn as_str(&self) -> (r: &'static str)
        ensures
            r@ == self.spec_name(),
    {
        match self {
            PaymentGateway::Xendit => {
                proof {
                    reveal_strlit("xendit");
                    assert("xendit"@ =~= seq!['x', 'e', 'n', 'd', 'i', 't']);
                }
                "xendit"
            },
            PaymentGateway::Midtrans => {
                proof {
                    reveal_strlit("midtrans");
                    assert("midtrans"@ =~= seq!['m', 'i', 'd', 't', 'r', 'a', 'n', 's']);
                }
                "midtrans"
            },
            PaymentGateway::Doku => {
                proof {
                    reveal_strlit("doku");
                    assert("doku"@ =~= seq!['d', 'o', 'k', 'u']);
                }
                "doku"
            },
            PaymentGateway::Stripe => {
                proof {
                    reveal_strlit("stripe");
                    assert("stripe"@ =~= seq!['s', 't', 'r', 'i', 'p', 'e']);
                }
                "stripe"
            },
            PaymentGateway::Manual => {
                proof {
                    reveal_strlit("manual");
                    assert("manual"@ =~= seq!['m', 'a', 'n', 'u', 'a', 'l']);
                }
                "manual"
            },
        }
    }

    /// The wire name as an owned string.
    pub fn to_string(&self) -> (r: String)
        ensures
            r@ == self.spec_name(),
    {
        self.as_str().to_string()
    }

    /// Parse a wire name, case-insensitively (the text is lowercased first).
    pub fn parse(s: &str) -> (r: Result<PaymentGateway, String>)
        ensures
            match Self::spec_from_name(unicode_lowercase(s@)) {
                Some(v) => r == Ok::<PaymentGateway, String>(v),
                None => r matches Err(m) && m@ == "Unknown PaymentGateway variant: "@ + s@,
            },
            vstd::utf8::is_ascii_chars(s@) ==> unicode_lowercase(s@) == ascii_lower(s@),
    {
        let lower = to_lowercase(s);
        if str_eq(lower.as_str(), "xendit") {
            proof {
                reveal_strlit("xendit");
                assert("xendit"@ =~= seq!['x', 'e', 'n', 'd', 'i', 't']);
            }
            return Ok(PaymentGateway::Xendit);
        }
        if str_eq(lower.as_str(), "midtrans") {
            proof {
                reveal_strlit("midtrans");
                assert("midtrans"@ =~= seq!['m', 'i', 'd', 't', 'r', 'a', 'n', 's']);
            }
            return Ok(PaymentGateway::Midtrans);
        }
        if str_eq(lower.as_str(), "doku") {
            proof {
                reveal_strlit("doku");
                assert("doku"@ =~= seq!['d', 'o', 'k', 'u']);
            }
            return Ok(PaymentGateway::Doku);
        }
        if str_eq(lower.as_str(), "stripe") {
            proof {
                reveal_strlit("stripe");
                assert("stripe"@ =~= seq!['s', 't', 'r', 'i', 'p', 'e']);
            }
            return Ok(PaymentGateway::Stripe);
        }
        if str_eq(lower.as_str(), "manual") {
            proof {
                reveal_strlit("manual");
                assert("manual"@ =~= seq!['m', 'a', 'n', 'u', 'a', 'l']);
            }
            return Ok(PaymentGateway::Manual);
        }
        proof {
            reveal_strlit("xendit");
            assert("xendit"@ =~= seq!['x', 'e', 'n', 'd', 'i', 't']);
        }
        proof {
            reveal_strlit("midtrans");
            assert("midtrans"@ =~= seq!['m', 'i', 'd', 't', 'r', 'a', 'n', 's']);
        }
        proof {
            reveal_strlit("doku");
            assert("doku"@ =~= seq!['d', 'o', 'k', 'u']);
        }
        proof {
            reveal_strlit("stripe");
            assert("stripe"@ =~= seq!['s', 't', 'r', 'i', 'p', 'e']);
        }
        proof {
            reveal_strlit("manual");
            assert("manual"@ =~= seq!['m', 'a', 'n', 'u', 'a', 'l']);
        }
        Err("Unknown PaymentGateway variant: ".to_string().concat(s))
    }

    /// Every wire name is lowercase ASCII and names its own variant, so parsing what a variant
    /// displays as gives the variant back.
    pub proof fn lemma_name_round_trip(v: PaymentGateway)
        ensures
            vstd::utf8::is_ascii_chars(v.spec_name()),
            ascii_lower(v.spec_name()) == v.spec_name(),
            Self::spec_from_name(v.spec_name()) == Some(v),
    {
        match v {
            PaymentGateway::Xendit => {
                assert(ascii_lower(seq!['x', 'e', 'n', 'd', 'i', 't']) =~= seq!['x', 'e', 'n', 'd', 'i', 't']);
            },
            PaymentGateway::Midtrans => {
                assert(ascii_lower(seq!['m', 'i', 'd', 't', 'r', 'a', 'n', 's']) =~= seq!['m', 'i', 'd', 't', 'r', 'a', 'n', 's']);
            },
            PaymentGateway::Doku => {
                assert(ascii_lower(seq!['d', 'o', 'k', 'u']) =~= seq!['d', 'o', 'k', 'u']);
            },
            PaymentGateway::Stripe => {
                assert(ascii_lower(seq!['s', 't', 'r', 'i', 'p', 'e']) =~= seq!['s', 't', 'r', 'i', 'p', 'e']);
            },
            PaymentGateway::Manual => {
                assert(ascii_lower(seq!['m', 'a', 'n', 'u', 'a', 'l']) =~= seq!['m', 'a', 'n', 'u', 'a', 'l']);
            },
        }
    }
}

impl Default for PaymentGateway {
    fn default() -> (r: Self)
        ensures
            r == PaymentGateway::Xendit,
    {
        PaymentGateway::Xendit
    }
}

impl std::str::FromStr for PaymentGateway {
    type Err = String;

    fn from_str(s: &str) -> Result<Self, Self::Err> {
        Self::parse(s)
    }
}

} // verus!
