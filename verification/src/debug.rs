//! The diagnostic subsystem: which messages a messenger asks for, and what a
//! message from the driver becomes before it is handed to the log.

use vstd::prelude::*;

verus! {

/// The flag bits of the four severities.
pub const DEBUG_SEVERITY_VERBOSE: u32 = 0x1;

pub const DEBUG_SEVERITY_INFO: u32 = 0x10;

pub const DEBUG_SEVERITY_WARNING: u32 = 0x100;

pub const DEBUG_SEVERITY_ERROR: u32 = 0x1000;

/// The flag bits of the three categories.
pub const DEBUG_TYPE_GENERAL: u32 = 0x1;

pub const DEBUG_TYPE_VALIDATION: u32 = 0x2;

pub const DEBUG_TYPE_PERFORMANCE: u32 = 0x4;

/// How grave a diagnostic message is.
#[derive(Debug, Clone, Copy, PartialEq, Eq, Structural)]
pub enum Severity {
    Verbose,
    Info,
    Warning,
    Error,
}

/// What a diagnostic message is about.
#[derive(Debug, Clone, Copy, PartialEq, Eq, Structural)]
pub enum Category {
    General,
    Validation,
    Performance,
}

impl Severity {
    /// The severity that a flag word stands for: the word is exactly one of
    /// the four severity bits, or it stands for none.
    pub open spec fn of_flags(flags: u32) -> Option<Severity> {
        if flags == DEBUG_SEVERITY_ERROR {
            Some(Severity::Error)
        } else if flags == DEBUG_SEVERITY_WARNING {
            Some(Severity::Warning)
        } else if flags == DEBUG_SEVERITY_INFO {
            Some(Severity::Info)
        } else if flags == DEBUG_SEVERITY_VERBOSE {
            Some(Severity::Verbose)
        } else {
            None
        }
    }

    /// The flag bit of a severity.
    pub open spec fn bit(self) -> u32 {
        match self {
            Severity::Verbose => DEBUG_SEVERITY_VERBOSE,
            Severity::Info => DEBUG_SEVERITY_INFO,
            Severity::Warning => DEBUG_SEVERITY_WARNING,
            Severity::Error => DEBUG_SEVERITY_ERROR,
        }
    }

    /// Reads the severity from the driver's flag word.
    pub fn from_flags(flags: u32) -> (severity: Option<Severity>)
        ensures
            severity == Self::of_flags(flags),
    {
        if flags == DEBUG_SEVERITY_ERROR {
            Some(Severity::Error)
        } else if flags == DEBUG_SEVERITY_WARNING {
            Some(Severity::Warning)
        } else if flags == DEBUG_SEVERITY_INFO {
            Some(Severity::Info)
        } else if flags == DEBUG_SEVERITY_VERBOSE {
            Some(Severity::Verbose)
        } else {
            None
        }
    }

    /// The flag bit of this severity.
    pub fn flag(self) -> (bit: u32)
        ensures
            bit == self.bit(),
    {
        match self {
            Severity::Verbose => DEBUG_SEVERITY_VERBOSE,
            Severity::Info => DEBUG_SEVERITY_INFO,
            Severity::Warning => DEBUG_SEVERITY_WARNING,
            Severity::Error => DEBUG_SEVERITY_ERROR,
        }
    }
}

impl Category {
    /// The category that a flag word stands for: the word is exactly one of
    /// the three type bits, or it stands for none.
    pub open spec fn of_flags(flags: u32) -> Option<Category> {
        if flags == DEBUG_TYPE_GENERAL {
            Some(Category::General)
        } else if flags == DEBUG_TYPE_VALIDATION {
            Some(Category::Validation)
        } else if flags == DEBUG_TYPE_PERFORMANCE {
            Some(Category::Performance)
        } else {
            None
        }
    }

    /// Reads the category from the driver's flag word.
    pub fn from_flags(flags: u32) -> (category: Option<Category>)
        ensures
            category == Self::of_flags(flags),
    {
        if flags == DEBUG_TYPE_GENERAL {
            Some(Category::General)
        } else if flags == DEBUG_TYPE_VALIDATION {
            Some(Category::Validation)
        } else if flags == DEBUG_TYPE_PERFORMANCE {
            Some(Category::Performance)
        } else {
            None
        }
    }
}

/// The name under which a severity is logged; `UNKNOWN` where the driver's
/// flag word stood for none.
pub fn severity_label(severity: Option<Severity>) -> (label: &'static str)
    ensures
        label@ == match severity {
            Some(Severity::Error) => "ERROR"@,
            Some(Severity::Warning) => "WARNING"@,
            Some(Severity::Info) => "INFO"@,
            Some(Severity::Verbose) => "VERBOSE"@,
            None => "UNKNOWN"@,
        },
{
    match severity {
        Some(Severity::Error) => "ERROR",
        Some(Severity::Warning) => "WARNING",
        Some(Severity::Info) => "INFO",
        Some(Severity::Verbose) => "VERBOSE",
        None => "UNKNOWN",
    }
}

/// The name under which a category is logged; `UNKNOWN` where the driver's
/// flag word stood for none.
pub fn category_label(category: Option<Category>) -> (label: &'static str)
    ensures
        label@ == match category {
            Some(Category::General) => "GENERAL"@,
            Some(Category::Validation) => "VALIDATION"@,
            Some(Category::Performance) => "PERFORMANCE"@,
            None => "UNKNOWN"@,
        },
{
    match category {
        Some(Category::General) => "GENERAL",
        Some(Category::Validation) => "VALIDATION",
        Some(Category::Performance) => "PERFORMANCE",
        None => "UNKNOWN",
    }
}

/// The severity mask of a messenger that listens to the chosen severities.
pub open spec fn severity_mask(error: bool, warning: bool, info: bool, verbose: bool) -> u32 {
    (((if error { DEBUG_SEVERITY_ERROR } else { 0u32 })
        | (if warning { DEBUG_SEVERITY_WARNING } else { 0u32 }))
        | (if info { DEBUG_SEVERITY_INFO } else { 0u32 }))
        | (if verbose { DEBUG_SEVERITY_VERBOSE } else { 0u32 })
}

/// The type mask of a messenger that listens to the chosen categories.
pub open spec fn type_mask(general: bool, validation: bool, performance: bool) -> u32 {
    ((if general { DEBUG_TYPE_GENERAL } else { 0u32 })
        | (if validation { DEBUG_TYPE_VALIDATION } else { 0u32 }))
        | (if performance { DEBUG_TYPE_PERFORMANCE } else { 0u32 })
}

/// Builds the severity mask of a messenger from the severities chosen.
pub fn set_debug_severity(error: bool, warning: bool, info: bool, verbose: bool) -> (mask: u32)
    ensures
        mask == severity_mask(error, warning, info, verbose),
{
    let e: u32 = if error { DEBUG_SEVERITY_ERROR } else { 0 };
    let w: u32 = if warning { DEBUG_SEVERITY_WARNING } else { 0 };
    let i: u32 = if info { DEBUG_SEVERITY_INFO } else { 0 };
    let v: u32 = if verbose { DEBUG_SEVERITY_VERBOSE } else { 0 };
    ((e | w) | i) | v
}

/// Builds the type mask of a messenger from the categories chosen.
pub fn set_debug_type(general: bool, validation: bool, performance: bool) -> (mask: u32)
    ensures
        mask == type_mask(general, validation, performance),
{
    let g: u32 = if general { DEBUG_TYPE_GENERAL } else { 0 };
    let v: u32 = if validation { DEBUG_TYPE_VALIDATION } else { 0 };
    let p: u32 = if performance { DEBUG_TYPE_PERFORMANCE } else { 0 };
    (g | v) | p
}

/// What is handed to the driver to create the debug messenger.
#[derive(Debug, Clone, Copy, PartialEq, Eq, Structural)]
pub struct MessengerRequest {
    pub message_severity: u32,
    pub message_type: u32,
}

/// Describes the debug messenger: it listens to every severity and every
/// category.
pub fn create_debug_info() -> (request: MessengerRequest)
    ensures
        request.message_severity == severity_mask(true, true, true, true),
        request.message_type == type_mask(true, true, true),
        request.message_severity == 0x1111,
        request.message_type == 0x7,
{
    assert(severity_mask(true, true, true, true) == 0x1111u32) by (bit_vector);
    assert(type_mask(true, true, true) == 0x7u32) by (bit_vector);
    MessengerRequest {
        message_severity: set_debug_severity(true, true, true, true),
        message_type: set_debug_type(true, true, true),
    }
}

/// A diagnostic message as it is handed to the log.
#[derive(Debug, Clone, PartialEq, Eq)]
pub struct DebugMessage {
    /// The severity of the message; nothing where the driver's flag word
    /// stood for none.
    pub severity: Option<Severity>,
    pub category: Option<Category>,
    pub id_name: String,
    pub id_number: i32,
    pub message: String,
}

/// The text of a field of a message: empty where the driver gave none.
pub open spec fn text_or_empty(text: Option<String>) -> Seq<char> {
    match text {
        Some(t) => t@,
        None => Seq::<char>::empty(),
    }
}

fn or_empty(text: Option<String>) -> (owned: String)
    ensures
        owned@ == text_or_empty(text),
{
    match text {
        Some(t) => t,
        None => String::new(),
    }
}

/// Takes one message from the driver and makes of it what is handed to the
/// log: the severity and the category that the flag words stand for, the
/// identifier, and the texts, with an empty text in place of a missing one.
/// Every input has a result.
pub fn vulkan_debug_callback(
    message_severity: u32,
    message_type: u32,
    id_name: Option<String>,
    id_number: i32,
    message: Option<String>,
) -> (logged: DebugMessage)
    ensures
        logged.severity == Severity::of_flags(message_severity),
        logged.category == Category::of_flags(message_type),
        logged.id_name@ == text_or_empty(id_name),
        logged.id_number == id_number,
        logged.message@ == text_or_empty(message),
{
    DebugMessage {
        severity: Severity::from_flags(message_severity),
        category: Category::from_flags(message_type),
        id_name: or_empty(id_name),
        id_number,
        message: or_empty(message),
    }
}

/// The severity of a message is preserved: the severity read from the flag
/// bit of a severity is that severity.
pub proof fn lemma_severity_preserved(severity: Severity)
    ensures
        Severity::of_flags(severity.bit()) == Some(severity),
{
}

} // verus!
