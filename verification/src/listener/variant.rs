//! The kind of logon that a record reports.

use crate::decimal::{
    isize_text, lemma_numeral_reads_back, numeral_of, parse_isize, parse_isize_spec,
};
use vstd::prelude::*;
use vstd::string::StringExecFns;

verus! {

/// The logon type of a record: one of the kinds that the operating system
/// numbers, a number outside them, or a text that is no number.
#[derive(Debug, Clone)]
pub enum LogonVariant {
    Interactive,
    Network,
    Batch,
    Service,
    Unlock,
    NetworkCleartext,
    NewCredentials,
    RemoteInteractive,
    CachedInteractive,
    CachedRemoteInteractive,
    CachedUnlock,
    /// A logon type code that names none of the kinds above.
    Unknown(isize),
    /// The text found where a logon type code was expected.
    Invalid(String),
}

/// A `LogonVariant` with the text of `Invalid` as a sequence of characters.
pub enum LogonVariantView {
    Interactive,
    Network,
    Batch,
    Service,
    Unlock,
    NetworkCleartext,
    NewCredentials,
    RemoteInteractive,
    CachedInteractive,
    CachedRemoteInteractive,
    CachedUnlock,
    Unknown(isize),
    Invalid(Seq<char>),
}

impl View for LogonVariant {
    type V = LogonVariantView;

    open spec fn view(&self) -> LogonVariantView {
        match *self {
            LogonVariant::Interactive => LogonVariantView::Interactive,
            LogonVariant::Network => LogonVariantView::Network,
            LogonVariant::Batch => LogonVariantView::Batch,
            LogonVariant::Service => LogonVariantView::Service,
            LogonVariant::Unlock => LogonVariantView::Unlock,
            LogonVariant::NetworkCleartext => LogonVariantView::NetworkCleartext,
            LogonVariant::NewCredentials => LogonVariantView::NewCredentials,
            LogonVariant::RemoteInteractive => LogonVariantView::RemoteInteractive,
            LogonVariant::CachedInteractive => LogonVariantView::CachedInteractive,
            LogonVariant::CachedRemoteInteractive => LogonVariantView::CachedRemoteInteractive,
            LogonVariant::CachedUnlock => LogonVariantView::CachedUnlock,
            LogonVariant::Unknown(code) => LogonVariantView::Unknown(code),
            LogonVariant::Invalid(text) => LogonVariantView::Invalid(text@),
        }
    }
}

/// Whether `code` is the number of a named kind of logon.
pub open spec fn is_known_code(code: int) -> bool {
    2 <= code <= 13 && code != 6
}

/// The variant that stands for a logon type code.
pub open spec fn variant_of_code(code: isize) -> LogonVariantView {
    if code == 2 {
        LogonVariantView::Interactive
    } else if code == 3 {
        LogonVariantView::Network
    } else if code == 4 {
        LogonVariantView::Batch
    } else if code == 5 {
        LogonVariantView::Service
    } else if code == 7 {
        LogonVariantView::Unlock
    } else if code == 8 {
        LogonVariantView::NetworkCleartext
    } else if code == 9 {
        LogonVariantView::NewCredentials
    } else if code == 10 {
        LogonVariantView::RemoteInteractive
    } else if code == 11 {
        LogonVariantView::CachedInteractive
    } else if code == 12 {
        LogonVariantView::CachedRemoteInteractive
    } else if code == 13 {
        LogonVariantView::CachedUnlock
    } else {
        LogonVariantView::Unknown(code)
    }
}

/// The variant that the text of a logon type field stands for.
pub open spec fn classify(text: Seq<char>) -> LogonVariantView {
    match parse_isize_spec(text) {
        Some(code) => variant_of_code(code),
        None => LogonVariantView::Invalid(text),
    }
}

/// The number of a variant: its logon type code, and -1 for `Invalid`.
pub open spec fn number_of(v: LogonVariantView) -> int {
    match v {
        LogonVariantView::Interactive => 2,
        LogonVariantView::Network => 3,
        LogonVariantView::Batch => 4,
        LogonVariantView::Service => 5,
        LogonVariantView::Unlock => 7,
        LogonVariantView::NetworkCleartext => 8,
        LogonVariantView::NewCredentials => 9,
        LogonVariantView::RemoteInteractive => 10,
        LogonVariantView::CachedInteractive => 11,
        LogonVariantView::CachedRemoteInteractive => 12,
        LogonVariantView::CachedUnlock => 13,
        LogonVariantView::Unknown(code) => code as int,
        LogonVariantView::Invalid(_) => -1,
    }
}

/// The words that a variant is shown with.
pub open spec fn label_of(v: LogonVariantView) -> Seq<char> {
    match v {
        LogonVariantView::Interactive => "Interactive"@,
        LogonVariantView::Network => "Network"@,
        LogonVariantView::Batch => "Batch"@,
        LogonVariantView::Service => "Service"@,
        LogonVariantView::Unlock => "Unlock"@,
        LogonVariantView::NetworkCleartext => "Network Cleartext"@,
        LogonVariantView::NewCredentials => "New Credentials"@,
        LogonVariantView::RemoteInteractive => "Remote Interactive"@,
        LogonVariantView::CachedInteractive => "Cached Interactive"@,
        LogonVariantView::CachedRemoteInteractive => "Cached Remote Interactive"@,
        LogonVariantView::CachedUnlock => "Cached Unlock"@,
        LogonVariantView::Unknown(code) => "Unknown ("@ + numeral_of(code as int) + ")"@,
        LogonVariantView::Invalid(text) => "Invalid ("@ + text + ")"@,
    }
}

impl LogonVariant {
    /// Classifies the text of a logon type field. A signed decimal numeral
    /// that fits an `isize` gives the kind it numbers, or `Unknown` with the
    /// number; any other text gives `Invalid` with the text.
    pub fn from_string(s: &str) -> (v: Self)
        ensures
            v@ == classify(s@),
    {
        match parse_isize(s) {
            Some(num) => match num {
                2 => LogonVariant::Interactive,
                3 => LogonVariant::Network,
                4 => LogonVariant::Batch,
                5 => LogonVariant::Service,
                7 => LogonVariant::Unlock,
                8 => LogonVariant::NetworkCleartext,
                9 => LogonVariant::NewCredentials,
                10 => LogonVariant::RemoteInteractive,
                11 => LogonVariant::CachedInteractive,
                12 => LogonVariant::CachedRemoteInteractive,
                13 => LogonVariant::CachedUnlock,
                _ => LogonVariant::Unknown(num),
            },
            None => LogonVariant::Invalid(String::from_str(s)),
        }
    }

    /// The logon type code of this variant; -1 for `Invalid`.
    pub fn as_number(&self) -> (n: isize)
        ensures
            n == number_of(self@),
    {
        match self {
            LogonVariant::Interactive => 2,
            LogonVariant::Network => 3,
            LogonVariant::Batch => 4,
            LogonVariant::Service => 5,
            LogonVariant::Unlock => 7,
            LogonVariant::NetworkCleartext => 8,
            LogonVariant::NewCredentials => 9,
            LogonVariant::RemoteInteractive => 10,
            LogonVariant::CachedInteractive => 11,
            LogonVariant::CachedRemoteInteractive => 12,
            LogonVariant::CachedUnlock => 13,
            LogonVariant::Unknown(num) => *num,
            LogonVariant::Invalid(_) => -1,
        }
    }

    /// Whether this variant came from a number.
    pub fn is_valid(&self) -> (b: bool)
        ensures
            b == !(self@ is Invalid),
    {
        match self {
            LogonVariant::Invalid(_) => false,
            _ => true,
        }
    }

    /// The words that this variant is shown with.
    pub fn to_string(&self) -> (r: String)
        ensures
            r@ == label_of(self@),
    {
        match self {
            LogonVariant::Interactive => String::from_str("Interactive"),
            LogonVariant::Network => String::from_str("Network"),
            LogonVariant::Batch => String::from_str("Batch"),
            LogonVariant::Service => String::from_str("Service"),
            LogonVariant::Unlock => String::from_str("Unlock"),
            LogonVariant::NetworkCleartext => String::from_str("Network Cleartext"),
            LogonVariant::NewCredentials => String::from_str("New Credentials"),
            LogonVariant::RemoteInteractive => String::from_str("Remote Interactive"),
            LogonVariant::CachedInteractive => String::from_str("Cached Interactive"),
            LogonVariant::CachedRemoteInteractive => String::from_str("Cached Remote Interactive"),
            LogonVariant::CachedUnlock => String::from_str("Cached Unlock"),
            LogonVariant::Unknown(num) => {
                let number = isize_text(*num);
                String::from_str("Unknown (").concat(number.as_str()).concat(")")
            },
            LogonVariant::Invalid(text) => String::from_str("Invalid (").concat(
                text.as_str(),
            ).concat(")"),
        }
    }
}

/// Every text is classified, and as exactly one of three things: a numeral
/// of a known code gives the kind with that code, a numeral of any other code
/// gives `Unknown` with the code, and a text that is no numeral that fits gives
/// `Invalid` with the text itself.
pub proof fn lemma_classify_total(text: Seq<char>)
    ensures
        parse_isize_spec(text) is Some && is_known_code(parse_isize_spec(text)->Some_0 as int)
            ==> !(classify(text) is Unknown) && !(classify(text) is Invalid) && number_of(
            classify(text),
        ) == parse_isize_spec(text)->Some_0,
        parse_isize_spec(text) is Some && !is_known_code(parse_isize_spec(text)->Some_0 as int)
            ==> classify(text) == LogonVariantView::Unknown(parse_isize_spec(text)->Some_0),
        parse_isize_spec(text) is None ==> classify(text) == LogonVariantView::Invalid(text),
        (classify(text) is Invalid) <==> parse_isize_spec(text) is None,
{
}

/// A number that is written out and classified is found again as the number
/// of its variant, and its variant is never `Invalid`.
pub proof fn lemma_number_reads_back(code: isize)
    ensures
        !(classify(numeral_of(code as int)) is Invalid),
        number_of(classify(numeral_of(code as int))) == code,
{
    lemma_numeral_reads_back(code as int);
}

} // verus!
