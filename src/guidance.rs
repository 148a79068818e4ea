use vstd::prelude::*;

verus! {

pub const SUMMARY_HEADER: &'static str = "*** Overall assessment ***\n";
pub const GUIDE_LLL_1: &'static str = "Long meter, long first syllable, long second syllable?\n";
pub const GUIDE_LLL_2: &'static str = "Consider, with short third and fourth syllables, hazaj (akhrab).\n";
pub const GUIDE_LLL_3: &'static str = "Consider, with a long fourth syllable, mużāri‘.\n";
pub const GUIDE_LLS_1: &'static str = "Long meter, long first syllable, short second syllable?\n";
pub const GUIDE_LLS_2: &'static str = "Consider ramal.\n";
pub const GUIDE_LLI_1: &'static str = "Long meter, long first syllable, indeterminate second syllable?\n";
pub const GUIDE_LLI_2: &'static str = "Consider, with a long second syllable, hazaj (akhrab) or mużāri‘.\n";
pub const GUIDE_LLI_3: &'static str = "Consider, with a short second syllable, ramal.\n";
pub const GUIDE_LSL_1: &'static str = "Long meter, short first syllable, long second syllable?\n";
pub const GUIDE_LSL_2: &'static str = "Consider, with a long third syllable, hazaj (sālim).\n";
pub const GUIDE_LSL_3: &'static str = "Consider, with a short third syllable, mujtaṡṡ.\n";
pub const GUIDE_LSS_1: &'static str = "Long meter, short first syllable, short second syllable?\n";
pub const GUIDE_LSI_1: &'static str = "Long meter, short first syllable, indeterminate second syllable?\n";
pub const GUIDE_LSI_2: &'static str = "Consider, with a long second syllable, hazaj (sālim) or mujtaṡṡ.\n";
pub const GUIDE_LI_1: &'static str = "What is clearest is that the meter appears to be long.\n";
pub const GUIDE_LI_2: &'static str = "If there were mixed signals about the first syllable, consider ramal.\n";
pub const GUIDE_SLL_1: &'static str = "Short meter, long first syllable, long second syllable?\n";
pub const GUIDE_SLL_2: &'static str = "Consider hazaj (akhrab).\n";
pub const GUIDE_SLS_1: &'static str = "Short meter, long first syllable, short second syllable?\n";
pub const GUIDE_SLS_2: &'static str = "Consider, with a long third syllable, ramal or khafīf.\n";
pub const GUIDE_SLS_3: &'static str = "If the third syllable is short, enjoy the puzzle!\n";
pub const GUIDE_SLI_1: &'static str = "Short meter, long first syllable, indeterminate second syllable?\n";
pub const GUIDE_SLI_2: &'static str = "Consider, with a long second syllable, hazaj (akhrab).\n";
pub const GUIDE_SLI_3: &'static str = "Consider, with a short second syllable, ramal or khafīf.\n";
pub const GUIDE_SSL_1: &'static str = "Short meter, short first syllable, long second syllable?\n";
pub const GUIDE_SSL_2: &'static str = "Consider hazaj or mutaqārib.\n";
pub const GUIDE_SSS_1: &'static str = "Short meter, short first syllable, short second syllable?\n";
pub const GUIDE_SSS_2: &'static str = "This would be rare. Consider ramal or khafīf.\n";
pub const GUIDE_SSI_1: &'static str = "Short meter, short first syllable, indeterminate second syllable?\n";
pub const GUIDE_SSI_2: &'static str = "Consider, with a long second syllable, hazaj or mutaqārib.\n";
pub const GUIDE_SI_1: &'static str = "What is clearest is that the meter appears to be short.\n";
pub const GUIDE_SI_2: &'static str = "Were there mixed signals about the first syllable?\n";
pub const GUIDE_SI_3: &'static str = "If so, consider ramal or khafīf.\n";
pub const GUIDE_U_1: &'static str = "With the meter length unclear, no further conclusions will be drawn.\n";

/// The overall assessment: guidance on candidate meters from the meter-length flags and the
/// first- and second-syllable flags.
pub open spec fn guidance(
    long_meter: bool,
    short_meter: bool,
    long_first: bool,
    short_first: bool,
    long_second: bool,
    short_second: bool,
) -> Seq<char> {
    if long_meter {
        if long_first {
            if long_second {
                SUMMARY_HEADER@ + GUIDE_LLL_1@ + GUIDE_LLL_2@ + GUIDE_LLL_3@
            } else if short_second {
                SUMMARY_HEADER@ + GUIDE_LLS_1@ + GUIDE_LLS_2@
            } else {
                SUMMARY_HEADER@ + GUIDE_LLI_1@ + GUIDE_LLI_2@ + GUIDE_LLI_3@
            }
        } else if short_first {
            if long_second {
                SUMMARY_HEADER@ + GUIDE_LSL_1@ + GUIDE_LSL_2@ + GUIDE_LSL_3@
            } else if short_second {
                SUMMARY_HEADER@ + GUIDE_LSS_1@ + GUIDE_LLS_2@
            } else {
                SUMMARY_HEADER@ + GUIDE_LSI_1@ + GUIDE_LSI_2@ + GUIDE_LLI_3@
            }
        } else {
            SUMMARY_HEADER@ + GUIDE_LI_1@ + GUIDE_LI_2@
        }
    } else if short_meter {
        if long_first {
            if long_second {
                SUMMARY_HEADER@ + GUIDE_SLL_1@ + GUIDE_SLL_2@
            } else if short_second {
                SUMMARY_HEADER@ + GUIDE_SLS_1@ + GUIDE_SLS_2@ + GUIDE_SLS_3@
            } else {
                SUMMARY_HEADER@ + GUIDE_SLI_1@ + GUIDE_SLI_2@ + GUIDE_SLI_3@
            }
        } else if short_first {
            if long_second {
                SUMMARY_HEADER@ + GUIDE_SSL_1@ + GUIDE_SSL_2@
            } else if short_second {
                SUMMARY_HEADER@ + GUIDE_SSS_1@ + GUIDE_SSS_2@
            } else {
                SUMMARY_HEADER@ + GUIDE_SSI_1@ + GUIDE_SSI_2@ + GUIDE_SLI_3@
            }
        } else {
            SUMMARY_HEADER@ + GUIDE_SI_1@ + GUIDE_SI_2@ + GUIDE_SI_3@
        }
    } else {
        SUMMARY_HEADER@ + GUIDE_U_1@
    }
}

/// Writes the overall assessment section of the report.
pub fn final_assessment(
    long_meter: bool,
    short_meter: bool,
    long_first: bool,
    short_first: bool,
    long_second: bool,
    short_second: bool,
) -> (r: String)
    ensures
        r@ == guidance(long_meter, short_meter, long_first, short_first, long_second, short_second),
{
    let mut s = String::from_str(SUMMARY_HEADER);
    if long_meter {
        if long_first {
            if long_second {
                s.append(GUIDE_LLL_1);
                s.append(GUIDE_LLL_2);
                s.append(GUIDE_LLL_3);
            } else if short_second {
                s.append(GUIDE_LLS_1);
                s.append(GUIDE_LLS_2);
            } else {
                s.append(GUIDE_LLI_1);
                s.append(GUIDE_LLI_2);
                s.append(GUIDE_LLI_3);
            }
        } else if short_first {
            if long_second {
                s.append(GUIDE_LSL_1);
                s.append(GUIDE_LSL_2);
                s.append(GUIDE_LSL_3);
            } else if short_second {
                s.append(GUIDE_LSS_1);
                s.append(GUIDE_LLS_2);
            } else {
                s.append(GUIDE_LSI_1);
                s.append(GUIDE_LSI_2);
                s.append(GUIDE_LLI_3);
            }
        } else {
            s.append(GUIDE_LI_1);
            s.append(GUIDE_LI_2);
        }
    } else if short_meter {
        if long_first {
            if long_second {
                s.append(GUIDE_SLL_1);
                s.append(GUIDE_SLL_2);
            } else if short_second {
                s.append(GUIDE_SLS_1);
                s.append(GUIDE_SLS_2);
                s.append(GUIDE_SLS_3);
            } else {
                s.append(GUIDE_SLI_1);
                s.append(GUIDE_SLI_2);
                s.append(GUIDE_SLI_3);
            }
        } else if short_first {
            if long_second {
                s.append(GUIDE_SSL_1);
                s.append(GUIDE_SSL_2);
            } else if short_second {
                s.append(GUIDE_SSS_1);
                s.append(GUIDE_SSS_2);
            } else {
                s.append(GUIDE_SSI_1);
                s.append(GUIDE_SSI_2);
                s.append(GUIDE_SLI_3);
            }
        } else {
            s.append(GUIDE_SI_1);
            s.append(GUIDE_SI_2);
            s.append(GUIDE_SI_3);
        }
    } else {
        s.append(GUIDE_U_1);
    }
    s
}

} // verus!
