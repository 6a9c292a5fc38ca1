//! Which engine log messages are shown, and how a log line reads.
use vstd::prelude::*;
use vstd::string::StringExecFns;
use crate::enums::ntg_log_level_enum;
use crate::text::{all_digits, decimal, decimal_value, digits_value, lemma_decimal_read_back, push_decimal};

verus! {

/// A message is shown when the mask is set and has a bit of the message's level.
pub open spec fn shown(mask: i32, level: ntg_log_level_enum) -> bool {
    mask != 0 && (level.value() & mask) != 0
}

/// Whether a message of `level` is shown under the log mask `mask`.
pub fn should_log(mask: i32, level: ntg_log_level_enum) -> (b: bool)
    ensures
        b == shown(mask, level),
{
    let v = level.code();
    mask != 0 && (v & mask) != 0
}

/// Whether the engine's logger must be registered for the mask: any non-zero
/// mask needs it.
pub fn logger_needed(mask: i32) -> (b: bool)
    ensures
        b == (mask != 0),
{
    mask != 0
}

/// A zero mask shows nothing; the mask of all bits shows every level; a message
/// of unknown level is shown under every non-zero mask; each known level is shown
/// exactly under masks that hold its bit.
pub proof fn lemma_log_filter(mask: i32, level: ntg_log_level_enum)
    ensures
        !shown(0, level),
        shown(-1i32, level),
        mask != 0 ==> shown(mask, ntg_log_level_enum::NTG_LOG_UNKNOWN),
        shown(mask, ntg_log_level_enum::NTG_LOG_DEBUG) == (mask & 1 != 0),
        shown(mask, ntg_log_level_enum::NTG_LOG_INFO) == (mask & 2 != 0),
        shown(mask, ntg_log_level_enum::NTG_LOG_WARNING) == (mask & 4 != 0),
        shown(mask, ntg_log_level_enum::NTG_LOG_ERROR) == (mask & 8 != 0),
{
    let v = level.value();
    assert(v & 0 == 0) by (bit_vector);
    assert(v != 0 ==> v & -1i32 != 0) by (bit_vector);
    assert(mask != 0 ==> -1i32 & mask != 0) by (bit_vector);
    assert(1 & mask == mask & 1) by (bit_vector);
    assert(2 & mask == mask & 2) by (bit_vector);
    assert(4 & mask == mask & 4) by (bit_vector);
    assert(8 & mask == mask & 8) by (bit_vector);
    assert(mask == 0 ==> (mask & 1 == 0 && mask & 2 == 0 && mask & 4 == 0 && mask & 8 == 0)) by (bit_vector);
}

/// How the label of a level is coloured on a terminal.
#[derive(Clone, Copy, Debug, PartialEq, Eq, Structural)]
pub enum LabelStyle {
    RedBold,
    YellowBold,
    Green,
    Blue,
    Purple,
}

/// The label that a log line shows for a level.
pub open spec fn label_text(level: ntg_log_level_enum) -> Seq<char> {
    match level {
        ntg_log_level_enum::NTG_LOG_ERROR => "ERROR"@,
        ntg_log_level_enum::NTG_LOG_WARNING => "WARN"@,
        ntg_log_level_enum::NTG_LOG_INFO => "INFO"@,
        ntg_log_level_enum::NTG_LOG_DEBUG => "DEBUG"@,
        ntg_log_level_enum::NTG_LOG_UNKNOWN => "UNKNOWN"@,
    }
}

/// The colouring of the label of a level.
pub open spec fn label_style(level: ntg_log_level_enum) -> LabelStyle {
    match level {
        ntg_log_level_enum::NTG_LOG_ERROR => LabelStyle::RedBold,
        ntg_log_level_enum::NTG_LOG_WARNING => LabelStyle::YellowBold,
        ntg_log_level_enum::NTG_LOG_INFO => LabelStyle::Green,
        ntg_log_level_enum::NTG_LOG_DEBUG => LabelStyle::Blue,
        ntg_log_level_enum::NTG_LOG_UNKNOWN => LabelStyle::Purple,
    }
}

/// The label of a level and its colouring.
pub fn level_label(level: ntg_log_level_enum) -> (r: (&'static str, LabelStyle))
    ensures
        r.0@ == label_text(level),
        r.1 == label_style(level),
{
    match level {
        ntg_log_level_enum::NTG_LOG_ERROR => ("ERROR", LabelStyle::RedBold),
        ntg_log_level_enum::NTG_LOG_WARNING => ("WARN", LabelStyle::YellowBold),
        ntg_log_level_enum::NTG_LOG_INFO => ("INFO", LabelStyle::Green),
        ntg_log_level_enum::NTG_LOG_DEBUG => ("DEBUG", LabelStyle::Blue),
        ntg_log_level_enum::NTG_LOG_UNKNOWN => ("UNKNOWN", LabelStyle::Purple),
    }
}

/// The text of a log line: `label` is the (possibly coloured) level label.
pub open spec fn log_line_text(label: Seq<char>, file: Seq<char>, line: u32, message: Seq<char>) -> Seq<char> {
    "[TgCalls "@ + label + "] "@ + file + ":"@ + decimal(line as int) + " | "@ + message + "\n"@
}

/// A log line is "[TgCalls ", the label, "] ", the file, ":", the line number
/// written in decimal digits that read back as the whole line number, " | ", the
/// message and a newline.
pub proof fn lemma_log_line_shape(label: Seq<char>, file: Seq<char>, line: u32, message: Seq<char>)
    ensures
        exists|d: Seq<char>|
            #![trigger digits_value(d)]
            all_digits(d) && digits_value(d) == line as int
            && log_line_text(label, file, line, message)
                == "[TgCalls "@ + label + "] "@ + file + ":"@ + d + " | "@ + message + "\n"@,
{
    lemma_decimal_read_back(line as int);
    let d = decimal(line as int);
    assert(all_digits(d) && digits_value(d) == line as int);
}

/// The log line for a message of the engine.
pub fn log_line(label: &str, file: &str, line: u32, message: &str) -> (r: String)
    ensures
        r@ == log_line_text(label@, file@, line, message@),
{
    let mut r = "[TgCalls ".to_string();
    r.append(label);
    r.append("] ");
    r.append(file);
    r.append(":");
    push_decimal(&mut r, line as i64);
    r.append(" | ");
    r.append(message);
    r.append("\n");
    r
}

/// The text that reports a command that completed with a non-zero code.
pub open spec fn completion_error_text(label: Seq<char>, message: Seq<char>, code: i32) -> Seq<char> {
    "[NtgCalls "@ + label + "] "@ + message + " : "@ + decimal(code as int) + "\n"@
}

/// A completion report is "[NtgCalls ", the label, "] ", the message, " : ", the
/// completion code in decimal that reads back as the code, and a newline.
pub proof fn lemma_completion_error_shape(label: Seq<char>, message: Seq<char>, code: i32)
    ensures
        exists|d: Seq<char>|
            #![trigger decimal_value(d)]
            decimal_value(d) == code as int
            && completion_error_text(label, message, code)
                == "[NtgCalls "@ + label + "] "@ + message + " : "@ + d + "\n"@,
{
    lemma_decimal_read_back(code as int);
    let d = decimal(code as int);
    assert(decimal_value(d) == code as int);
}

/// The report of a completion: none for code 0, else a line with the engine's
/// message and the code (`label` is the possibly coloured error label).
pub fn completion_error_line(label: &str, message: &str, code: i32) -> (r: Option<String>)
    ensures
        code == 0 ==> r is None,
        code != 0 ==> (r matches Some(s) && s@ == completion_error_text(label@, message@, code)),
{
    if code == 0 {
        return None;
    }
    let mut r = "[NtgCalls ".to_string();
    r.append(label);
    r.append("] ");
    r.append(message);
    r.append(" : ");
    push_decimal(&mut r, code as i64);
    r.append("\n");
    Some(r)
}

} // verus!
