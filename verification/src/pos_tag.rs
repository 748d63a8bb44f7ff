//! Part-of-speech classification codes.
//!
//! A `POSTag` wraps the numeric tag code the native engine uses in its token
//! records.  The code-to-name table reproduces the native tag numbering
//! exactly; an irregular-conjugation variant is the base tag's code with the
//! irregular bit set.

use vstd::prelude::*;

verus! {

/// A part-of-speech tag code.
#[derive(Debug, Clone, Copy, PartialEq, Eq, Hash, Structural)]
pub struct POSTag(pub u8);

/// The name of the tag with code `n`, as the native engine spells it; codes
/// outside the table map to an underscore.
pub open spec fn spec_tag_name(n: u8) -> Seq<char> {
    if n == 0 {
        "UNK"@
    } else if n == 1 {
        "NNG"@
    } else if n == 2 {
        "NNP"@
    } else if n == 3 {
        "NNB"@
    } else if n == 4 {
        "VV"@
    } else if n == 5 {
        "VA"@
    } else if n == 6 {
        "MAG"@
    } else if n == 7 {
        "NR"@
    } else if n == 8 {
        "NP"@
    } else if n == 9 {
        "VX"@
    } else if n == 10 {
        "MM"@
    } else if n == 11 {
        "MAJ"@
    } else if n == 12 {
        "IC"@
    } else if n == 13 {
        "XPN"@
    } else if n == 14 {
        "XSN"@
    } else if n == 15 {
        "XSV"@
    } else if n == 16 {
        "XSA"@
    } else if n == 17 {
        "XSM"@
    } else if n == 18 {
        "XR"@
    } else if n == 19 {
        "VCP"@
    } else if n == 20 {
        "VCN"@
    } else if n == 21 {
        "SF"@
    } else if n == 22 {
        "SP"@
    } else if n == 23 {
        "SS"@
    } else if n == 24 {
        "SSO"@
    } else if n == 25 {
        "SSC"@
    } else if n == 26 {
        "SE"@
    } else if n == 27 {
        "SO"@
    } else if n == 28 {
        "SW"@
    } else if n == 29 {
        "SB"@
    } else if n == 30 {
        "SL"@
    } else if n == 31 {
        "SH"@
    } else if n == 32 {
        "SN"@
    } else if n == 33 {
        "W_URL"@
    } else if n == 34 {
        "W_EMAIL"@
    } else if n == 35 {
        "W_MENTION"@
    } else if n == 36 {
        "W_HASHTAG"@
    } else if n == 37 {
        "W_SERIAL"@
    } else if n == 38 {
        "W_EMOJI"@
    } else if n == 39 {
        "JKS"@
    } else if n == 40 {
        "JKC"@
    } else if n == 41 {
        "JKG"@
    } else if n == 42 {
        "JKO"@
    } else if n == 43 {
        "JKB"@
    } else if n == 44 {
        "JKV"@
    } else if n == 45 {
        "JKQ"@
    } else if n == 46 {
        "JX"@
    } else if n == 47 {
        "JC"@
    } else if n == 48 {
        "EP"@
    } else if n == 49 {
        "EF"@
    } else if n == 50 {
        "EC"@
    } else if n == 51 {
        "ETN"@
    } else if n == 52 {
        "ETM"@
    } else if n == 53 {
        "Z_CODA"@
    } else if n == 54 {
        "Z_SIOT"@
    } else if n == 55 {
        "USER0"@
    } else if n == 56 {
        "USER1"@
    } else if n == 57 {
        "USER2"@
    } else if n == 58 {
        "USER3"@
    } else if n == 59 {
        "USER4"@
    } else if n == 60 {
        "PV"@
    } else if n == 61 {
        "PA"@
    } else if n == 128 {
        "IRREGULAR"@
    } else if n == 132 {
        "VV-I"@
    } else if n == 133 {
        "VA-I"@
    } else if n == 137 {
        "VX-I"@
    } else if n == 144 {
        "XSA-I"@
    } else if n == 188 {
        "PV-I"@
    } else if n == 189 {
        "PA-I"@
    } else {
        "_"@
    }
}

impl POSTag {
    /// The number of base tags.
    pub const MAX: u8 = 61;

    /// The numeric tag code.
    pub fn get_num(&self) -> (r: u8)
        ensures
            r == self.0,
    {
        self.0
    }

    /// The tag's name as the native engine spells it; an unknown code maps
    /// to an underscore.
    pub fn as_str(&self) -> (r: &'static str)
        ensures
            r@ == spec_tag_name(self.0),
    {
        let n = self.0;
        if n == 0 {
            "UNK"
        } else if n == 1 {
            "NNG"
        } else if n == 2 {
            "NNP"
        } else if n == 3 {
            "NNB"
        } else if n == 4 {
            "VV"
        } else if n == 5 {
            "VA"
        } else if n == 6 {
            "MAG"
        } else if n == 7 {
            "NR"
        } else if n == 8 {
            "NP"
        } else if n == 9 {
            "VX"
        } else if n == 10 {
            "MM"
        } else if n == 11 {
            "MAJ"
        } else if n == 12 {
            "IC"
        } else if n == 13 {
            "XPN"
        } else if n == 14 {
            "XSN"
        } else if n == 15 {
            "XSV"
        } else if n == 16 {
            "XSA"
        } else if n == 17 {
            "XSM"
        } else if n == 18 {
            "XR"
        } else if n == 19 {
            "VCP"
        } else if n == 20 {
            "VCN"
        } else if n == 21 {
            "SF"
        } else if n == 22 {
            "SP"
        } else if n == 23 {
            "SS"
        } else if n == 24 {
            "SSO"
        } else if n == 25 {
            "SSC"
        } else if n == 26 {
            "SE"
        } else if n == 27 {
            "SO"
        } else if n == 28 {
            "SW"
        } else if n == 29 {
            "SB"
        } else if n == 30 {
            "SL"
        } else if n == 31 {
            "SH"
        } else if n == 32 {
            "SN"
        } else if n == 33 {
            "W_URL"
        } else if n == 34 {
            "W_EMAIL"
        } else if n == 35 {
            "W_MENTION"
        } else if n == 36 {
            "W_HASHTAG"
        } else if n == 37 {
            "W_SERIAL"
        } else if n == 38 {
            "W_EMOJI"
        } else if n == 39 {
            "JKS"
        } else if n == 40 {
            "JKC"
        } else if n == 41 {
            "JKG"
        } else if n == 42 {
            "JKO"
        } else if n == 43 {
            "JKB"
        } else if n == 44 {
            "JKV"
        } else if n == 45 {
            "JKQ"
        } else if n == 46 {
            "JX"
        } else if n == 47 {
            "JC"
        } else if n == 48 {
            "EP"
        } else if n == 49 {
            "EF"
        } else if n == 50 {
            "EC"
        } else if n == 51 {
            "ETN"
        } else if n == 52 {
            "ETM"
        } else if n == 53 {
            "Z_CODA"
        } else if n == 54 {
            "Z_SIOT"
        } else if n == 55 {
            "USER0"
        } else if n == 56 {
            "USER1"
        } else if n == 57 {
            "USER2"
        } else if n == 58 {
            "USER3"
        } else if n == 59 {
            "USER4"
        } else if n == 60 {
            "PV"
        } else if n == 61 {
            "PA"
        } else if n == 128 {
            "IRREGULAR"
        } else if n == 132 {
            "VV-I"
        } else if n == 133 {
            "VA-I"
        } else if n == 137 {
            "VX-I"
        } else if n == 144 {
            "XSA-I"
        } else if n == 188 {
            "PV-I"
        } else if n == 189 {
            "PA-I"
        } else {
            "_"
        }
    }
}

} // verus!
