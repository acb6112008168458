//! Errors of the command-line grammar: every failure that can be decided
//! from the words of the command line alone, before any numeric value is
//! read or any file is opened.

use crate::error::{CdpError, ExitCategory};
use crate::text::{decimal, push_char, push_decimal, push_signed_decimal, push_str, signed_decimal};
use vstd::prelude::*;
use vstd::string::*;

verus! {

/// A grammar error. Every variant has a fixed message (see
/// [`ParamsError::message`]) and a fixed category (see
/// [`ParamsError::category`]).
#[derive(Debug)]
pub enum ParamsError {
    /// Too few words even for the input and output file names.
    InsufficientCmdlineParameters,
    /// No required parameter word left at all.
    InsufficientParameters,
    /// Some, but not all, of the required parameter words present.
    InsufficientParametersOnCmdline,
    /// A word left over in a mode that takes no flags or variants.
    TooManyParameters,
    /// An unrecognised option flag letter.
    UnknownFlag(char),
    /// The same option flag given twice.
    DuplicateOption(char),
    /// A value-carrying variant flag with nothing after its letter.
    VariantValueMissing(char),
    /// The same variant flag given twice.
    DuplicateFlag(char),
    /// An option flag letter appearing after variant scanning started.
    OptionOutOfOrder(char),
    /// An unrecognised letter during variant scanning.
    UnknownVariantFlag(char),
    /// An option flag with nothing after its letter.
    OptionValueMissing(char),
    /// A leftover word that is not a flag.
    UnknownParameter(String),
    /// A plain-number parameter whose word is not a number.
    CannotReadParameter { legacy_index: usize, token: String },
    /// The mode word starts with no integer.
    CannotReadModeOfProgram,
    /// The mode number is outside `1..=maxmode`.
    ModeOutOfRange { mode: i64, maxmode: u32 },
}

/// [`ParamsError`] with its strings taken by their character sequences.
pub enum ParamsErrorView {
    InsufficientCmdlineParameters,
    InsufficientParameters,
    InsufficientParametersOnCmdline,
    TooManyParameters,
    UnknownFlag(char),
    DuplicateOption(char),
    VariantValueMissing(char),
    DuplicateFlag(char),
    OptionOutOfOrder(char),
    UnknownVariantFlag(char),
    OptionValueMissing(char),
    UnknownParameter(Seq<char>),
    CannotReadParameter { legacy_index: nat, token: Seq<char> },
    CannotReadModeOfProgram,
    ModeOutOfRange { mode: int, maxmode: nat },
}

impl View for ParamsError {
    type V = ParamsErrorView;

    open spec fn view(&self) -> ParamsErrorView {
        match self {
            ParamsError::InsufficientCmdlineParameters => ParamsErrorView::InsufficientCmdlineParameters,
            ParamsError::InsufficientParameters => ParamsErrorView::InsufficientParameters,
            ParamsError::InsufficientParametersOnCmdline => ParamsErrorView::InsufficientParametersOnCmdline,
            ParamsError::TooManyParameters => ParamsErrorView::TooManyParameters,
            ParamsError::UnknownFlag(c) => ParamsErrorView::UnknownFlag(*c),
            ParamsError::DuplicateOption(c) => ParamsErrorView::DuplicateOption(*c),
            ParamsError::VariantValueMissing(c) => ParamsErrorView::VariantValueMissing(*c),
            ParamsError::DuplicateFlag(c) => ParamsErrorView::DuplicateFlag(*c),
            ParamsError::OptionOutOfOrder(c) => ParamsErrorView::OptionOutOfOrder(*c),
            ParamsError::UnknownVariantFlag(c) => ParamsErrorView::UnknownVariantFlag(*c),
            ParamsError::OptionValueMissing(c) => ParamsErrorView::OptionValueMissing(*c),
            ParamsError::UnknownParameter(s) => ParamsErrorView::UnknownParameter(s@),
            ParamsError::CannotReadParameter { legacy_index, token } => ParamsErrorView::CannotReadParameter {
                legacy_index: *legacy_index as nat,
                token: token@,
            },
            ParamsError::CannotReadModeOfProgram => ParamsErrorView::CannotReadModeOfProgram,
            ParamsError::ModeOutOfRange { mode, maxmode } => ParamsErrorView::ModeOutOfRange {
                mode: *mode as int,
                maxmode: *maxmode as nat,
            },
        }
    }
}

/// The category under which each grammar error is reported: the mode-word,
/// word-count and option checks print the bare message, the required-param
/// count, variant and unreadable-number checks print an `INCORRECT USE`
/// header.
pub open spec fn error_category(e: ParamsErrorView) -> ExitCategory {
    match e {
        ParamsErrorView::InsufficientCmdlineParameters => ExitCategory::UsageOnly,
        ParamsErrorView::InsufficientParameters => ExitCategory::UsageOnly,
        ParamsErrorView::TooManyParameters => ExitCategory::UsageOnly,
        ParamsErrorView::UnknownFlag(_) => ExitCategory::UsageOnly,
        ParamsErrorView::DuplicateOption(_) => ExitCategory::UsageOnly,
        ParamsErrorView::OptionValueMissing(_) => ExitCategory::UsageOnly,
        ParamsErrorView::UnknownParameter(_) => ExitCategory::UsageOnly,
        ParamsErrorView::CannotReadModeOfProgram => ExitCategory::UsageOnly,
        ParamsErrorView::ModeOutOfRange { .. } => ExitCategory::UsageOnly,
        ParamsErrorView::InsufficientParametersOnCmdline => ExitCategory::UserError,
        ParamsErrorView::CannotReadParameter { .. } => ExitCategory::UserError,
        ParamsErrorView::VariantValueMissing(_) => ExitCategory::UserError,
        ParamsErrorView::DuplicateFlag(_) => ExitCategory::UserError,
        ParamsErrorView::OptionOutOfOrder(_) => ExitCategory::UserError,
        ParamsErrorView::UnknownVariantFlag(_) => ExitCategory::UserError,
    }
}

/// The message text of each grammar error.
pub open spec fn error_message(e: ParamsErrorView) -> Seq<char> {
    match e {
        ParamsErrorView::InsufficientCmdlineParameters => "Insufficient cmdline parameters."@,
        ParamsErrorView::InsufficientParameters => "Insufficient parameters on command line."@,
        ParamsErrorView::InsufficientParametersOnCmdline => "Insufficient parameters on cmdline."@,
        ParamsErrorView::TooManyParameters => "Too many parameters on command line."@,
        ParamsErrorView::UnknownFlag(c) => "Unknown flag -"@ + seq![c] + " on command line."@,
        ParamsErrorView::DuplicateOption(c) => "Duplicate option "@ + seq![c] + " used on command line"@,
        ParamsErrorView::VariantValueMissing(c) => "variant parameter missing with flag -"@ + seq![c],
        ParamsErrorView::DuplicateFlag(c) => "Duplicate flag "@ + seq![c] + " used on command line"@,
        ParamsErrorView::OptionOutOfOrder(c) => "option flag -"@ + seq![c] + " out of order on cmdline."@,
        ParamsErrorView::UnknownVariantFlag(c) => "Unknown variant flag -"@ + seq![c],
        ParamsErrorView::OptionValueMissing(c) => "option parameter missing with flag -"@ + seq![c],
        ParamsErrorView::UnknownParameter(s) => "Unknown parameter '"@ + s + "'"@,
        ParamsErrorView::CannotReadParameter { legacy_index, token } => "Cannot read parameter "@
            + decimal(legacy_index) + " ["@ + token + "]: brkpnt_files not permitted."@,
        ParamsErrorView::CannotReadModeOfProgram => "Cannot read mode of program."@,
        ParamsErrorView::ModeOutOfRange { mode, maxmode } => "Program mode value ["@
            + signed_decimal(mode) + "] is out of range [1 - "@ + decimal(maxmode) + "]."@,
    }
}

/// `prefix + [c] + suffix` as a new string.
fn around_char(prefix: &str, c: char, suffix: &str) -> (r: String)
    ensures
        r@ == prefix@ + seq![c] + suffix@,
{
    let mut s = String::from_str(prefix);
    push_char(&mut s, c);
    push_str(&mut s, suffix);
    s
}

impl ParamsError {
    /// The category this error is reported under.
    pub fn category(&self) -> (c: ExitCategory)
        ensures
            c == error_category(self@),
    {
        match self {
            ParamsError::InsufficientCmdlineParameters => ExitCategory::UsageOnly,
            ParamsError::InsufficientParameters => ExitCategory::UsageOnly,
            ParamsError::TooManyParameters => ExitCategory::UsageOnly,
            ParamsError::UnknownFlag(_) => ExitCategory::UsageOnly,
            ParamsError::DuplicateOption(_) => ExitCategory::UsageOnly,
            ParamsError::OptionValueMissing(_) => ExitCategory::UsageOnly,
            ParamsError::UnknownParameter(_) => ExitCategory::UsageOnly,
            ParamsError::CannotReadModeOfProgram => ExitCategory::UsageOnly,
            ParamsError::ModeOutOfRange { .. } => ExitCategory::UsageOnly,
            ParamsError::InsufficientParametersOnCmdline => ExitCategory::UserError,
            ParamsError::CannotReadParameter { .. } => ExitCategory::UserError,
            ParamsError::VariantValueMissing(_) => ExitCategory::UserError,
            ParamsError::DuplicateFlag(_) => ExitCategory::UserError,
            ParamsError::OptionOutOfOrder(_) => ExitCategory::UserError,
            ParamsError::UnknownVariantFlag(_) => ExitCategory::UserError,
        }
    }

    /// The message text of this error.
    pub fn message(&self) -> (m: String)
        ensures
            m@ == error_message(self@),
    {
        match self {
            ParamsError::InsufficientCmdlineParameters => String::from_str("Insufficient cmdline parameters."),
            ParamsError::InsufficientParameters => String::from_str("Insufficient parameters on command line."),
            ParamsError::InsufficientParametersOnCmdline => String::from_str("Insufficient parameters on cmdline."),
            ParamsError::TooManyParameters => String::from_str("Too many parameters on command line."),
            ParamsError::UnknownFlag(c) => around_char("Unknown flag -", *c, " on command line."),
            ParamsError::DuplicateOption(c) => around_char("Duplicate option ", *c, " used on command line"),
            ParamsError::VariantValueMissing(c) => {
                let r = around_char("variant parameter missing with flag -", *c, "");
                proof {
                    reveal_strlit("");
                    assert(r@ =~= "variant parameter missing with flag -"@ + seq![*c]);
                }
                r
            },
            ParamsError::DuplicateFlag(c) => around_char("Duplicate flag ", *c, " used on command line"),
            ParamsError::OptionOutOfOrder(c) => around_char("option flag -", *c, " out of order on cmdline."),
            ParamsError::UnknownVariantFlag(c) => {
                let r = around_char("Unknown variant flag -", *c, "");
                proof {
                    reveal_strlit("");
                    assert(r@ =~= "Unknown variant flag -"@ + seq![*c]);
                }
                r
            },
            ParamsError::OptionValueMissing(c) => {
                let r = around_char("option parameter missing with flag -", *c, "");
                proof {
                    reveal_strlit("");
                    assert(r@ =~= "option parameter missing with flag -"@ + seq![*c]);
                }
                r
            },
            ParamsError::UnknownParameter(s) => {
                let mut r = String::from_str("Unknown parameter '");
                push_str(&mut r, s.as_str());
                push_str(&mut r, "'");
                r
            },
            ParamsError::CannotReadParameter { legacy_index, token } => {
                let mut r = String::from_str("Cannot read parameter ");
                push_decimal(&mut r, *legacy_index as u64);
                push_str(&mut r, " [");
                push_str(&mut r, token.as_str());
                push_str(&mut r, "]: brkpnt_files not permitted.");
                r
            },
            ParamsError::CannotReadModeOfProgram => String::from_str("Cannot read mode of program."),
            ParamsError::ModeOutOfRange { mode, maxmode } => {
                let mut r = String::from_str("Program mode value [");
                push_signed_decimal(&mut r, *mode);
                push_str(&mut r, "] is out of range [1 - ");
                push_decimal(&mut r, *maxmode as u64);
                push_str(&mut r, "].");
                r
            },
        }
    }
}

impl ParamsError {
    /// This error as a command failure: its category and its message.
    pub fn to_cdp_error(&self) -> (e: CdpError)
        ensures
            e.category == error_category(self@),
            e.message@ == error_message(self@),
    {
        CdpError { category: self.category(), message: self.message() }
    }
}

} // verus!
