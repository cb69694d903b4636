//! The wording of the log lines and error messages that a run writes.
//!
//! Each text is given twice: as a specification over sequences of
//! characters, and as the function that builds the string.

use crate::config::OperationType;
use crate::text::{concat2, concat3, concat4, concat5, concat7, decimal, decimal_string, digit_char,
    push_decimal, push_digit};
use vstd::prelude::*;

verus! {

/// The name of an operation type as the log shows it.
pub open spec fn kind_word_text(t: OperationType) -> Seq<char> {
    match t {
        OperationType::Copy => "Copy"@,
        OperationType::Move => "Move"@,
    }
}

/// Builds what [`kind_word_text`] says.
pub fn kind_word(t: OperationType) -> (name: &'static str)
    ensures
        name@ == kind_word_text(t),
{
    match t {
        OperationType::Copy => "Copy",
        OperationType::Move => "Move",
    }
}

pub open spec fn starting_operation_text(name: Seq<char>) -> Seq<char> {
    "Starting operation: "@ + name
}

/// Builds what [`starting_operation_text`] says.
pub fn starting_operation(name: &str) -> (line: String)
    ensures
        line@ == starting_operation_text(name@),
{
    concat2("Starting operation: ", name)
}

pub open spec fn type_line_text(t: OperationType) -> Seq<char> {
    "  Type: "@ + kind_word_text(t)
}

/// Builds what [`type_line_text`] says.
pub fn type_line(t: OperationType) -> (line: String)
    ensures
        line@ == type_line_text(t),
{
    concat2("  Type: ", kind_word(t))
}

pub open spec fn source_line_text(origin: Seq<char>) -> Seq<char> {
    "  Source: "@ + origin
}

/// Builds what [`source_line_text`] says.
pub fn source_line(origin: &str) -> (line: String)
    ensures
        line@ == source_line_text(origin@),
{
    concat2("  Source: ", origin)
}

pub open spec fn destination_line_text(destination: Seq<char>) -> Seq<char> {
    "  Destination: "@ + destination
}

/// Builds what [`destination_line_text`] says.
pub fn destination_line(destination: &str) -> (line: String)
    ensures
        line@ == destination_line_text(destination@),
{
    concat2("  Destination: ", destination)
}

/// A message as the log shows an error.
pub open spec fn error_line_text(message: Seq<char>) -> Seq<char> {
    "ERROR: "@ + message
}

/// Builds what [`error_line_text`] says.
pub fn error_line(message: &str) -> (line: String)
    ensures
        line@ == error_line_text(message@),
{
    concat2("ERROR: ", message)
}

/// A message as the log shows a warning.
pub open spec fn warning_line_text(message: Seq<char>) -> Seq<char> {
    "WARNING: "@ + message
}

/// Builds what [`warning_line_text`] says.
pub fn warning_line(message: &str) -> (line: String)
    ensures
        line@ == warning_line_text(message@),
{
    concat2("WARNING: ", message)
}

pub open spec fn source_missing_text(origin: Seq<char>) -> Seq<char> {
    "Source '"@ + origin + "' does not exist"@
}

/// Builds what [`source_missing_text`] says.
pub fn source_missing(origin: &str) -> (message: String)
    ensures
        message@ == source_missing_text(origin@),
{
    concat3("Source '", origin, "' does not exist")
}

pub open spec fn source_invalid_text(origin: Seq<char>) -> Seq<char> {
    "Source '"@ + origin + "' is not a valid file or directory"@
}

/// Builds what [`source_invalid_text`] says.
pub fn source_invalid(origin: &str) -> (message: String)
    ensures
        message@ == source_invalid_text(origin@),
{
    concat3("Source '", origin, "' is not a valid file or directory")
}

pub open spec fn source_is_text(directory: bool) -> Seq<char> {
    if directory {
        "  Source is a directory"@
    } else {
        "  Source is a file"@
    }
}

/// Builds what [`source_is_text`] says.
pub fn source_is(directory: bool) -> (line: String)
    ensures
        line@ == source_is_text(directory),
{
    if directory {
        String::from_str("  Source is a directory")
    } else {
        String::from_str("  Source is a file")
    }
}

pub open spec fn creating_parent_text(parent: Seq<char>) -> Seq<char> {
    "  Creating parent directory: "@ + parent
}

/// Builds what [`creating_parent_text`] says.
pub fn creating_parent(parent: &str) -> (line: String)
    ensures
        line@ == creating_parent_text(parent@),
{
    concat2("  Creating parent directory: ", parent)
}

pub open spec fn parent_failed_text(parent: Seq<char>, error: Seq<char>) -> Seq<char> {
    "Failed to create destination directory '"@ + parent + "': "@ + error
}

/// Builds what [`parent_failed_text`] says.
pub fn parent_failed(parent: &str, error: &str) -> (message: String)
    ensures
        message@ == parent_failed_text(parent@, error@),
{
    concat4("Failed to create destination directory '", parent, "': ", error)
}

pub open spec fn file_size_text(size: u64) -> Seq<char> {
    "  File size: "@ + decimal(size as nat) + " bytes"@
}

/// Builds what [`file_size_text`] says.
pub fn file_size(size: u64) -> (line: String)
    ensures
        line@ == file_size_text(size),
{
    let number = decimal_string(size);
    concat3("  File size: ", number.as_str(), " bytes")
}

/// Hundredths of a megabyte per minute that `limit` bytes per second come
/// to, rounded to the nearest, a tie going to the even neighbour.
pub open spec fn megabytes_per_minute_hundredths(limit: u64) -> nat {
    let scaled = limit as int * 6000;
    let whole = scaled / 1048576;
    let rest = scaled % 1048576;
    if rest * 2 > 1048576 || (rest * 2 == 1048576 && whole % 2 == 1) {
        (whole + 1) as nat
    } else {
        whole as nat
    }
}

/// A count of hundredths written with two decimals.
pub open spec fn two_decimals_text(hundredths: nat) -> Seq<char> {
    decimal(hundredths / 100) + "."@ + seq![
        digit_char((hundredths % 100 / 10) as int),
        digit_char((hundredths % 10) as int),
    ]
}

/// Computes [`megabytes_per_minute_hundredths`].
pub fn hundredths_of_megabytes_per_minute(limit: u64) -> (hundredths: u64)
    ensures
        hundredths == megabytes_per_minute_hundredths(limit),
{
    let scaled: u128 = limit as u128 * 6000;
    let whole: u128 = scaled / 1048576;
    let rest: u128 = scaled % 1048576;
    if rest * 2 > 1048576 || (rest * 2 == 1048576 && whole % 2 == 1) {
        (whole + 1) as u64
    } else {
        whole as u64
    }
}

/// Builds what [`two_decimals_text`] says.
pub fn two_decimals(hundredths: u64) -> (text: String)
    ensures
        text@ == two_decimals_text(hundredths as nat),
{
    let mut text = String::new();
    push_decimal(&mut text, hundredths / 100);
    text.append(".");
    push_digit(&mut text, hundredths % 100 / 10);
    push_digit(&mut text, hundredths % 10);
    assert(text@ =~= two_decimals_text(hundredths as nat));
    text
}

/// The line that states the cap under which a transfer runs.
pub open spec fn rate_note_text(directory: bool, limit: u64) -> Seq<char> {
    (if directory {
        "  Directory rate limiting: "@
    } else {
        "  Rate limiting: "@
    }) + decimal(limit as nat) + " bytes/second ("@ + two_decimals_text(
        megabytes_per_minute_hundredths(limit),
    ) + " MB/min)"@
}

/// Builds what [`rate_note_text`] says.
pub fn rate_note(directory: bool, limit: u64) -> (line: String)
    ensures
        line@ == rate_note_text(directory, limit),
{
    let number = decimal_string(limit);
    let per_minute = two_decimals(hundredths_of_megabytes_per_minute(limit));
    let head: &str = if directory {
        "  Directory rate limiting: "
    } else {
        "  Rate limiting: "
    };
    concat5(head, number.as_str(), " bytes/second (", per_minute.as_str(), " MB/min)")
}

pub open spec fn copy_completed_text(bytes: u64) -> Seq<char> {
    "  Copy completed: "@ + decimal(bytes as nat) + " bytes copied"@
}

/// Builds what [`copy_completed_text`] says.
pub fn copy_completed(bytes: u64) -> (line: String)
    ensures
        line@ == copy_completed_text(bytes),
{
    let number = decimal_string(bytes);
    concat3("  Copy completed: ", number.as_str(), " bytes copied")
}

pub open spec fn verification_error_text(error: Seq<char>) -> Seq<char> {
    "Verification error: "@ + error
}

/// Builds what [`verification_error_text`] says.
pub fn verification_error(error: &str) -> (message: String)
    ensures
        message@ == verification_error_text(error@),
{
    concat2("Verification error: ", error)
}

pub open spec fn copy_failed_text(error: Seq<char>, origin: Seq<char>, destination: Seq<char>)
    -> Seq<char> {
    "Copy failed: "@ + error + " (from "@ + origin + " to "@ + destination + ")"@
}

/// Builds what [`copy_failed_text`] says.
pub fn copy_failed(error: &str, origin: &str, destination: &str) -> (message: String)
    ensures
        message@ == copy_failed_text(error@, origin@, destination@),
{
    concat7("Copy failed: ", error, " (from ", origin, " to ", destination, ")")
}

pub open spec fn move_failed_text(error: Seq<char>, origin: Seq<char>, destination: Seq<char>)
    -> Seq<char> {
    "Move failed: "@ + error + " (from "@ + origin + " to "@ + destination + ")"@
}

/// Builds what [`move_failed_text`] says.
pub fn move_failed(error: &str, origin: &str, destination: &str) -> (message: String)
    ensures
        message@ == move_failed_text(error@, origin@, destination@),
{
    concat7("Move failed: ", error, " (from ", origin, " to ", destination, ")")
}

pub open spec fn root_failed_text(error: Seq<char>) -> Seq<char> {
    "Failed to create destination directory: "@ + error
}

/// Builds what [`root_failed_text`] says.
pub fn root_failed(error: &str) -> (message: String)
    ensures
        message@ == root_failed_text(error@),
{
    concat2("Failed to create destination directory: ", error)
}

pub open spec fn entry_unreadable_text(error: Seq<char>) -> Seq<char> {
    "Error reading directory entry: "@ + error
}

/// Builds what [`entry_unreadable_text`] says.
pub fn entry_unreadable(error: &str) -> (message: String)
    ensures
        message@ == entry_unreadable_text(error@),
{
    concat2("Error reading directory entry: ", error)
}

pub open spec fn entry_unreadable_warning_text(error: Seq<char>) -> Seq<char> {
    "WARNING: Error reading entry: "@ + error
}

/// Builds what [`entry_unreadable_warning_text`] says.
pub fn entry_unreadable_warning(error: &str) -> (line: String)
    ensures
        line@ == entry_unreadable_warning_text(error@),
{
    concat2("WARNING: Error reading entry: ", error)
}

pub open spec fn no_relative_path_text(path: Seq<char>) -> Seq<char> {
    "Failed to get relative path for: "@ + path
}

/// Builds what [`no_relative_path_text`] says.
pub fn no_relative_path(path: &str) -> (message: String)
    ensures
        message@ == no_relative_path_text(path@),
{
    concat2("Failed to get relative path for: ", path)
}

pub open spec fn directory_failed_text(target: Seq<char>, error: Seq<char>) -> Seq<char> {
    "Failed to create directory "@ + target + ": "@ + error
}

/// Builds what [`directory_failed_text`] says.
pub fn directory_failed(target: &str, error: &str) -> (message: String)
    ensures
        message@ == directory_failed_text(target@, error@),
{
    concat4("Failed to create directory ", target, ": ", error)
}

pub open spec fn directory_failed_line_text(message: Seq<char>) -> Seq<char> {
    "ERROR creating directory: "@ + message
}

/// Builds what [`directory_failed_line_text`] says.
pub fn directory_failed_line(message: &str) -> (line: String)
    ensures
        line@ == directory_failed_line_text(message@),
{
    concat2("ERROR creating directory: ", message)
}

pub open spec fn directory_created_text(target: Seq<char>) -> Seq<char> {
    "  Created directory: "@ + target
}

/// Builds what [`directory_created_text`] says.
pub fn directory_created(target: &str) -> (line: String)
    ensures
        line@ == directory_created_text(target@),
{
    concat2("  Created directory: ", target)
}

pub open spec fn copying_file_text(ordinal: usize, path: Seq<char>) -> Seq<char> {
    "  Copying file "@ + decimal(ordinal as nat) + "/?: "@ + path
}

/// Builds what [`copying_file_text`] says.
pub fn copying_file(ordinal: usize, path: &str) -> (line: String)
    ensures
        line@ == copying_file_text(ordinal, path@),
{
    let number = decimal_string(ordinal as u64);
    concat4("  Copying file ", number.as_str(), "/?: ", path)
}

pub open spec fn copied_bytes_text(bytes: u64) -> Seq<char> {
    "    Copied "@ + decimal(bytes as nat) + " bytes"@
}

/// Builds what [`copied_bytes_text`] says.
pub fn copied_bytes(bytes: u64) -> (line: String)
    ensures
        line@ == copied_bytes_text(bytes),
{
    let number = decimal_string(bytes);
    concat3("    Copied ", number.as_str(), " bytes")
}

pub open spec fn entry_mismatch_text(path: Seq<char>) -> Seq<char> {
    "Hash verification failed for: "@ + path
}

/// Builds what [`entry_mismatch_text`] says.
pub fn entry_mismatch(path: &str) -> (message: String)
    ensures
        message@ == entry_mismatch_text(path@),
{
    concat2("Hash verification failed for: ", path)
}

pub open spec fn entry_verification_error_text(path: Seq<char>, error: Seq<char>) -> Seq<char> {
    "Verification error for "@ + path + ": "@ + error
}

/// Builds what [`entry_verification_error_text`] says.
pub fn entry_verification_error(path: &str, error: &str) -> (message: String)
    ensures
        message@ == entry_verification_error_text(path@, error@),
{
    concat4("Verification error for ", path, ": ", error)
}

pub open spec fn entry_copy_failed_text(source: Seq<char>, target: Seq<char>, error: Seq<char>)
    -> Seq<char> {
    "Failed to copy "@ + source + " to "@ + target + ": "@ + error
}

/// Builds what [`entry_copy_failed_text`] says.
pub fn entry_copy_failed(source: &str, target: &str, error: &str) -> (message: String)
    ensures
        message@ == entry_copy_failed_text(source@, target@, error@),
{
    let head = concat4("Failed to copy ", source, " to ", target);
    concat3(head.as_str(), ": ", error)
}

pub open spec fn files_processed_text(count: usize) -> Seq<char> {
    "  Total files processed: "@ + decimal(count as nat)
}

/// Builds what [`files_processed_text`] says.
pub fn files_processed(count: usize) -> (line: String)
    ensures
        line@ == files_processed_text(count),
{
    let number = decimal_string(count as u64);
    concat2("  Total files processed: ", number.as_str())
}

pub open spec fn total_size_text(size: u64) -> Seq<char> {
    "  Total size: "@ + decimal(size as nat) + " bytes"@
}

/// Builds what [`total_size_text`] says.
pub fn total_size(size: u64) -> (line: String)
    ensures
        line@ == total_size_text(size),
{
    let number = decimal_string(size);
    concat3("  Total size: ", number.as_str(), " bytes")
}

pub open spec fn files_moved_text(count: usize) -> Seq<char> {
    "  Files moved: "@ + decimal(count as nat)
}

/// Builds what [`files_moved_text`] says.
pub fn files_moved(count: usize) -> (line: String)
    ensures
        line@ == files_moved_text(count),
{
    let number = decimal_string(count as u64);
    concat2("  Files moved: ", number.as_str())
}

pub open spec fn cannot_remove_text(error: Seq<char>) -> Seq<char> {
    "Cannot move: destination exists and cannot be removed: "@ + error
}

/// Builds what [`cannot_remove_text`] says.
pub fn cannot_remove(error: &str) -> (message: String)
    ensures
        message@ == cannot_remove_text(error@),
{
    concat2("Cannot move: destination exists and cannot be removed: ", error)
}

/// What the progress notice says once an operation is through.
pub open spec fn completed_text(name: Seq<char>) -> Seq<char> {
    "Completed: "@ + name
}

/// Builds what [`completed_text`] says.
pub fn completed(name: &str) -> (notice: String)
    ensures
        notice@ == completed_text(name@),
{
    concat2("Completed: ", name)
}

} // verus!
