//! `PaymentChannel`: its wire names (the text it is stored and displayed as), parsing and default.
use vstd::prelude::*;

use crate::text::ascii_lower;
use crate::text::str_eq;
use crate::text::to_lowercase;
use crate::text::unicode_lowercase;

verus! {

broadcast use vstd::string::group_string_axioms;

#[derive(Debug, Clone, Copy, PartialEq, Eq, Hash, Structural)]
pub enum PaymentChannel {
    Qris,
    VaBca,
    VaBni,
    VaBri,
    VaMandiri,
    VaPermata,
    VaCimb,
    Ovo,
    Gopay,
    Dana,
    Shopeepay,
    Linkaja,
    CreditCard,
    DebitCard,
    Cash,
    BankTransfer,
}

impl PaymentChannel {
    /// The variant's wire name.
    pub open spec fn spec_name(self) -> Seq<char> {
        match self {
            PaymentChannel::Qris => seq!['q', 'r', 'i', 's'],
            PaymentChannel::VaBca => seq!['v', 'a', '_', 'b', 'c', 'a'],
            PaymentChannel::VaBni => seq!['v', 'a', '_', 'b', 'n', 'i'],
            PaymentChannel::VaBri => seq!['v', 'a', '_', 'b', 'r', 'i'],
            PaymentChannel::VaMandiri => seq!['v', 'a', '_', 'm', 'a', 'n', 'd', 'i', 'r', 'i'],
            PaymentChannel::VaPermata => seq!['v', 'a', '_', 'p', 'e', 'r', 'm', 'a', 't', 'a'],
            PaymentChannel::VaCimb => seq!['v', 'a', '_', 'c', 'i', 'm', 'b'],
            PaymentChannel::Ovo => seq!['o', 'v', 'o'],
            PaymentChannel::Gopay => seq!['g', 'o', 'p', 'a', 'y'],
            PaymentChannel::Dana => seq!['d', 'a', 'n', 'a'],
            PaymentChannel::Shopeepay => seq!['s', 'h', 'o', 'p', 'e', 'e', 'p', 'a', 'y'],
            PaymentChannel::Linkaja => seq!['l', 'i', 'n', 'k', 'a', 'j', 'a'],
            PaymentChannel::CreditCard => seq!['c', 'r', 'e', 'd', 'i', 't', '_', 'c', 'a', 'r', 'd'],
            PaymentChannel::DebitCard => seq!['d', 'e', 'b', 'i', 't', '_', 'c', 'a', 'r', 'd'],
            PaymentChannel::Cash => seq!['c', 'a', 's', 'h'],
            PaymentChannel::BankTransfer => seq!['b', 'a', 'n', 'k', '_', 't', 'r', 'a', 'n', 's', 'f', 'e', 'r'],
        }
    }

    /// The variant a (lowercase) wire name names.
    pub open spec fn spec_from_name(s: Seq<char>) -> Option<PaymentChannel> {
        if s == seq!['q', 'r', 'i', 's'] {
            Some(PaymentChannel::Qris)
        } else if s == seq!['v', 'a', '_', 'b', 'c', 'a'] {
            Some(PaymentChannel::VaBca)
        } else if s == seq!['v', 'a', '_', 'b', 'n', 'i'] {
            Some(PaymentChannel::VaBni)
        } else if s == seq!['v', 'a', '_', 'b', 'r', 'i'] {
            Some(PaymentChannel::VaBri)
        } else if s == seq!['v', 'a', '_', 'm', 'a', 'n', 'd', 'i', 'r', 'i'] {
            Some(PaymentChannel::VaMandiri)
        } else if s == seq!['v', 'a', '_', 'p', 'e', 'r', 'm', 'a', 't', 'a'] {
            Some(PaymentChannel::VaPermata)
        } else if s == seq!['v', 'a', '_', 'c', 'i', 'm', 'b'] {
            Some(PaymentChannel::VaCimb)
        } else if s == seq!['o', 'v', 'o'] {
            Some(PaymentChannel::Ovo)
        } else if s == seq!['g', 'o', 'p', 'a', 'y'] {
            Some(PaymentChannel::Gopay)
        } else if s == seq!['d', 'a', 'n', 'a'] {
            Some(PaymentChannel::Dana)
        } else if s == seq!['s', 'h', 'o', 'p', 'e', 'e', 'p', 'a', 'y'] {
            Some(PaymentChannel::Shopeepay)
        } else if s == seq!['l', 'i', 'n', 'k', 'a', 'j', 'a'] {
            Some(PaymentChannel::Linkaja)
        } else if s == seq!['c', 'r', 'e', 'd', 'i', 't', '_', 'c', 'a', 'r', 'd'] {
            Some(PaymentChannel::CreditCard)
        } else if s == seq!['d', 'e', 'b', 'i', 't', '_', 'c', 'a', 'r', 'd'] {
            Some(PaymentChannel::DebitCard)
        } else if s == seq!['c', 'a', 's', 'h'] {
            Some(PaymentChannel::Cash)
        } else if s == seq!['b', 'a', 'n', 'k', '_', 't', 'r', 'a', 'n', 's', 'f', 'e', 'r'] {
            Some(PaymentChannel::BankTransfer)
        } else {
            None
        }
    }

    /// The wire name (what `Display` writes).
    pub fn as_str(&self) -> (r: &'static str)
        ensures
            r@ == self.spec_name(),
    {
        match self {
            PaymentChannel::Qris => {
                proof {
                    reveal_strlit("qris");
                    assert("qris"@ =~= seq!['q', 'r', 'i', 's']);
                }
                "qris"
            },
            PaymentChannel::VaBca => {
                proof {
                    reveal_strlit("va_bca");
                    assert("va_bca"@ =~= seq!['v', 'a', '_', 'b', 'c', 'a']);
                }
                "va_bca"
            },
            PaymentChannel::VaBni => {
                proof {
                    reveal_strlit("va_bni");
                    assert("va_bni"@ =~= seq!['v', 'a', '_', 'b', 'n', 'i']);
                }
                "va_bni"
            },
            PaymentChannel::VaBri => {
                proof {
                    reveal_strlit("va_bri");
                    assert("va_bri"@ =~= seq!['v', 'a', '_', 'b', 'r', 'i']);
                }
                "va_bri"
            },
            PaymentChannel::VaMandiri => {
                proof {
                    reveal_strlit("va_mandiri");
                    assert("va_mandiri"@ =~= seq!['v', 'a', '_', 'm', 'a', 'n', 'd', 'i', 'r', 'i']);
                }
                "va_mandiri"
            },
            PaymentChannel::VaPermata => {
                proof {
                    reveal_strlit("va_permata");
                    assert("va_permata"@ =~= seq!['v', 'a', '_', 'p', 'e', 'r', 'm', 'a', 't', 'a']);
                }
                "va_permata"
            },
            PaymentChannel::VaCimb => {
                proof {
                    reveal_strlit("va_cimb");
                    assert("va_cimb"@ =~= seq!['v', 'a', '_', 'c', 'i', 'm', 'b']);
                }
                "va_cimb"
            },
            PaymentChannel::Ovo => {
                proof {
                    reveal_strlit("ovo");
                    assert("ovo"@ =~= seq!['o', 'v', 'o']);
                }
                "ovo"
            },
            PaymentChannel::Gopay => {
                proof {
                    reveal_strlit("gopay");
                    assert("gopay"@ =~= seq!['g', 'o', 'p', 'a', 'y']);
                }
                "gopay"
            },
            PaymentChannel::Dana => {
                proof {
                    reveal_strlit("dana");
                    assert("dana"@ =~= seq!['d', 'a', 'n', 'a']);
                }
                "dana"
            },
            PaymentChannel::Shopeepay => {
                proof {
                    reveal_strlit("shopeepay");
                    assert("shopeepay"@ =~= seq!['s', 'h', 'o', 'p', 'e', 'e', 'p', 'a', 'y']);
                }
                "shopeepay"
            },
            PaymentChannel::Linkaja => {
                proof {
                    reveal_strlit("linkaja");
                    assert("linkaja"@ =~= seq!['l', 'i', 'n', 'k', 'a', 'j', 'a']);
                }
                "linkaja"
            },
            PaymentChannel::CreditCard => {
                proof {
                    reveal_strlit("credit_card");
                    assert("credit_card"@ =~= seq!['c', 'r', 'e', 'd', 'i', 't', '_', 'c', 'a', 'r', 'd']);
                }
                "credit_card"
            },
            PaymentChannel::DebitCard => {
                proof {
                    reveal_strlit("debit_card");
                    assert("debit_card"@ =~= seq!['d', 'e', 'b', 'i', 't', '_', 'c', 'a', 'r', 'd']);
                }
                "debit_card"
            },
            PaymentChannel::Cash => {
                proof {
                    reveal_strlit("cash");
                    assert("cash"@ =~= seq!['c', 'a', 's', 'h']);
                }
                "cash"
            },
            PaymentChannel::BankTransfer => {
                proof {
                    reveal_strlit("bank_transfer");
                    assert("bank_transfer"@ =~= seq!['b', 'a', 'n', 'k', '_', 't', 'r', 'a', 'n', 's', 'f', 'e', 'r']);
                }
                "bank_transfer"
            },
        }
    }

    /// The wire name as an owned string.
    pub fn to_string(&self) -> (r: String)
        ensures
            r@ == self.spec_name(),
    {
        self.as_str().to_string()
    }

    /// Parse a wire name, case-insensitively (the text is lowercased first).
    pub fn parse(s: &str) -> (r: Result<PaymentChannel, String>)
        ensures
            match Self::spec_from_name(unicode_lowercase(s@)) {
                Some(v) => r == Ok::<PaymentChannel, String>(v),
                None => r matches Err(m) && m@ == "Unknown PaymentChannel variant: "@ + s@,
            },
            vstd::utf8::is_ascii_chars(s@) ==> unicode_lowercase(s@) == ascii_lower(s@),
    {
        let lower = to_lowercase(s);
        if str_eq(lower.as_str(), "qris") {
            proof {
                reveal_strlit("qris");
                assert("qris"@ =~= seq!['q', 'r', 'i', 's']);
            }
            return Ok(PaymentChannel::Qris);
        }
        if str_eq(lower.as_str(), "va_bca") {
            proof {
                reveal_strlit("va_bca");
                assert("va_bca"@ =~= seq!['v', 'a', '_', 'b', 'c', 'a']);
            }
            return Ok(PaymentChannel::VaBca);
        }
        if str_eq(lower.as_str(), "va_bni") {
            proof {
                reveal_strlit("va_bni");
                assert("va_bni"@ =~= seq!['v', 'a', '_', 'b', 'n', 'i']);
            }
            return Ok(PaymentChannel::VaBni);
        }
        if str_eq(lower.as_str(), "va_bri") {
            proof {
                reveal_strlit("va_bri");
                assert("va_bri"@ =~= seq!['v', 'a', '_', 'b', 'r', 'i']);
            }
            return Ok(PaymentChannel::VaBri);
        }
        if str_eq(lower.as_str(), "va_mandiri") {
            proof {
                reveal_strlit("va_mandiri");
                assert("va_mandiri"@ =~= seq!['v', 'a', '_', 'm', 'a', 'n', 'd', 'i', 'r', 'i']);
            }
            return Ok(PaymentChannel::VaMandiri);
        }
        if str_eq(lower.as_str(), "va_permata") {
            proof {
                reveal_strlit("va_permata");
                assert("va_permata"@ =~= seq!['v', 'a', '_', 'p', 'e', 'r', 'm', 'a', 't', 'a']);
            }
            return Ok(PaymentChannel::VaPermata);
        }
        if str_eq(lower.as_str(), "va_cimb") {
            proof {
                reveal_strlit("va_cimb");
                assert("va_cimb"@ =~= seq!['v', 'a', '_', 'c', 'i', 'm', 'b']);
            }
            return Ok(PaymentChannel::VaCimb);
        }
        if str_eq(lower.as_str(), "ovo") {
            proof {
                reveal_strlit("ovo");
                assert("ovo"@ =~= seq!['o', 'v', 'o']);
            }
            return Ok(PaymentChannel::Ovo);
        }
        if str_eq(lower.as_str(), "gopay") {
            proof {
                reveal_strlit("gopay");
                assert("gopay"@ =~= seq!['g', 'o', 'p', 'a', 'y']);
            }
            return Ok(PaymentChannel::Gopay);
        }
        if str_eq(lower.as_str(), "dana") {
            proof {
                reveal_strlit("dana");
                assert("dana"@ =~= seq!['d', 'a', 'n', 'a']);
            }
            return Ok(PaymentChannel::Dana);
        }
        if str_eq(lower.as_str(), "shopeepay") {
            proof {
                reveal_strlit("shopeepay");
                assert("shopeepay"@ =~= seq!['s', 'h', 'o', 'p', 'e', 'e', 'p', 'a', 'y']);
            }
            return Ok(PaymentChannel::Shopeepay);
        }
        if str_eq(lower.as_str(), "linkaja") {
            proof {
                reveal_strlit("linkaja");
                assert("linkaja"@ =~= seq!['l', 'i', 'n', 'k', 'a', 'j', 'a']);
            }
            return Ok(PaymentChannel::Linkaja);
        }
        if str_eq(lower.as_str(), "credit_card") {
            proof {
                reveal_strlit("credit_card");
                assert("credit_card"@ =~= seq!['c', 'r', 'e', 'd', 'i', 't', '_', 'c', 'a', 'r', 'd']);
            }
            return Ok(PaymentChannel::CreditCard);
        }
        if str_eq(lower.as_str(), "debit_card") {
            proof {
                reveal_strlit("debit_card");
                assert("debit_card"@ =~= seq!['d', 'e', 'b', 'i', 't', '_', 'c', 'a', 'r', 'd']);
            }
            return Ok(PaymentChannel::DebitCard);
        }
        if str_eq(lower.as_str(), "cash") {
            proof {
                reveal_strlit("cash");
                assert("cash"@ =~= seq!['c', 'a', 's', 'h']);
            }
            return Ok(PaymentChannel::Cash);
        }
        if str_eq(lower.as_str(), "bank_transfer") {
            proof {
                reveal_strlit("bank_transfer");
                assert("bank_transfer"@ =~= seq!['b', 'a', 'n', 'k', '_', 't', 'r', 'a', 'n', 's', 'f', 'e', 'r']);
            }
            return Ok(PaymentChannel::BankTransfer);
        }
        proof {
            reveal_strlit("qris");
            assert("qris"@ =~= seq!['q', 'r', 'i', 's']);
        }
        proof {
            reveal_strlit("va_bca");
            assert("va_bca"@ =~= seq!['v', 'a', '_', 'b', 'c', 'a']);
        }
        proof {
            reveal_strlit("va_bni");
            assert("va_bni"@ =~= seq!['v', 'a', '_', 'b', 'n', 'i']);
        }
        proof {
            reveal_strlit("va_bri");
            assert("va_bri"@ =~= seq!['v', 'a', '_', 'b', 'r', 'i']);
        }
        proof {
            reveal_strlit("va_mandiri");
            assert("va_mandiri"@ =~= seq!['v', 'a', '_', 'm', 'a', 'n', 'd', 'i', 'r', 'i']);
        }
        proof {
            reveal_strlit("va_permata");
            assert("va_permata"@ =~= seq!['v', 'a', '_', 'p', 'e', 'r', 'm', 'a', 't', 'a']);
        }
        proof {
            reveal_strlit("va_cimb");
            assert("va_cimb"@ =~= seq!['v', 'a', '_', 'c', 'i', 'm', 'b']);
        }
        proof {
            reveal_strlit("ovo");
            assert("ovo"@ =~= seq!['o', 'v', 'o']);
        }
        proof {
            reveal_strlit("gopay");
            assert("gopay"@ =~= seq!['g', 'o', 'p', 'a', 'y']);
        }
        proof {
            reveal_strlit("dana");
            assert("dana"@ =~= seq!['d', 'a', 'n', 'a']);
        }
        proof {
            reveal_strlit("shopeepay");
            assert("shopeepay"@ =~= seq!['s', 'h', 'o', 'p', 'e', 'e', 'p', 'a', 'y']);
        }
        proof {
            reveal_strlit("linkaja");
            assert("linkaja"@ =~= seq!['l', 'i', 'n', 'k', 'a', 'j', 'a']);
        }
        proof {
            reveal_strlit("credit_card");
            assert("credit_card"@ =~= seq!['c', 'r', 'e', 'd', 'i', 't', '_', 'c', 'a', 'r', 'd']);
        }
        proof {
            reveal_strlit("debit_card");
            assert("debit_card"@ =~= seq!['d', 'e', 'b', 'i', 't', '_', 'c', 'a', 'r', 'd']);
        }
        proof {
            reveal_strlit("cash");
            assert("cash"@ =~= seq!['c', 'a', 's', 'h']);
        }
        proof {
            reveal_strlit("bank_transfer");
            assert("bank_transfer"@ =~= seq!['b', 'a', 'n', 'k', '_', 't', 'r', 'a', 'n', 's', 'f', 'e', 'r']);
        }
        Err("Unknown PaymentChannel variant: ".to_string().concat(s))
    }

    /// Every wire name is lowercase ASCII and names its own variant, so parsing what a variant
    /// displays as gives the variant back.
    pub proof fn lemma_name_round_trip(v: PaymentChannel)
        ensures
            vstd::utf8::is_ascii_chars(v.spec_name()),
            ascii_lower(v.spec_name()) == v.spec_name(),
            Self::spec_from_name(v.spec_name()) == Some(v),
    {
        match v {
            PaymentChannel::Qris => {
                assert(ascii_lower(seq!['q', 'r', 'i', 's']) =~= seq!['q', 'r', 'i', 's']);
            },
            PaymentChannel::VaBca => {
                assert(ascii_lower(seq!['v', 'a', '_', 'b', 'c', 'a']) =~= seq!['v', 'a', '_', 'b', 'c', 'a']);
            },
            PaymentChannel::VaBni => {
                assert(ascii_lower(seq!['v', 'a', '_', 'b', 'n', 'i']) =~= seq!['v', 'a', '_', 'b', 'n', 'i']);
            },
            PaymentChannel::VaBri => {
                assert(ascii_lower(seq!['v', 'a', '_', 'b', 'r', 'i']) =~= seq!['v', 'a', '_', 'b', 'r', 'i']);
            },
            PaymentChannel::VaMandiri => {
                assert(ascii_lower(seq!['v', 'a', '_', 'm', 'a', 'n', 'd', 'i', 'r', 'i']) =~= seq!['v', 'a', '_', 'm', 'a', 'n', 'd', 'i', 'r', 'i']);
            },
            PaymentChannel::VaPermata => {
                assert(ascii_lower(seq!['v', 'a', '_', 'p', 'e', 'r', 'm', 'a', 't', 'a']) =~= seq!['v', 'a', '_', 'p', 'e', 'r', 'm', 'a', 't', 'a']);
            },
            PaymentChannel::VaCimb => {
                assert(ascii_lower(seq!['v', 'a', '_', 'c', 'i', 'm', 'b']) =~= seq!['v', 'a', '_', 'c', 'i', 'm', 'b']);
            },
            PaymentChannel::Ovo => {
                assert(ascii_lower(seq!['o', 'v', 'o']) =~= seq!['o', 'v', 'o']);
            },
            PaymentChannel::Gopay => {
                assert(ascii_lower(seq!['g', 'o', 'p', 'a', 'y']) =~= seq!['g', 'o', 'p', 'a', 'y']);
            },
            PaymentChannel::Dana => {
                assert(ascii_lower(seq!['d', 'a', 'n', 'a']) =~= seq!['d', 'a', 'n', 'a']);
            },
            PaymentChannel::Shopeepay => {
                assert(ascii_lower(seq!['s', 'h', 'o', 'p', 'e', 'e', 'p', 'a', 'y']) =~= seq!['s', 'h', 'o', 'p', 'e', 'e', 'p', 'a', 'y']);
            },
            PaymentChannel::Linkaja => {
                assert(ascii_lower(seq!['l', 'i', 'n', 'k', 'a', 'j', 'a']) =~= seq!['l', 'i', 'n', 'k', 'a', 'j', 'a']);
            },
            PaymentChannel::CreditCard => {
                assert(ascii_lower(seq!['c', 'r', 'e', 'd', 'i', 't', '_', 'c', 'a', 'r', 'd']) =~= seq!['c', 'r', 'e', 'd', 'i', 't', '_', 'c', 'a', 'r', 'd']);
            },
            PaymentChannel::DebitCard => {
                assert(ascii_lower(seq!['d', 'e', 'b', 'i', 't', '_', 'c', 'a', 'r', 'd']) =~= seq!['d', 'e', 'b', 'i', 't', '_', 'c', 'a', 'r', 'd']);
            },
            PaymentChannel::Cash => {
                assert(ascii_lower(seq!['c', 'a', 's', 'h']) =~= seq!['c', 'a', 's', 'h']);
            },
            PaymentChannel::BankTransfer => {
                assert(ascii_lower(seq!['b', 'a', 'n', 'k', '_', 't', 'r', 'a', 'n', 's', 'f', 'e', 'r']) =~= seq!['b', 'a', 'n', 'k', '_', 't', 'r', 'a', 'n', 's', 'f', 'e', 'r']);
            },
        }
    }
}

impl Default for PaymentChannel {
    fn default() -> (r: Self)
        ensures
            r == PaymentChannel::Qris,
    {
        PaymentChannel::Qris
    }
}

impl std::str::FromStr for PaymentChannel {
    type Err = String;

    fn from_str(s: &str) -> Result<Self, Self::Err> {
        Self::parse(s)
    }
}

} // verus!
