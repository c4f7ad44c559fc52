//! What source control knows of the commit that is built: the questions to
//! put to it, and the reading of its answers.

use vstd::prelude::*;
use vstd::utf8::{decode_utf8, valid_utf8};

verus! {

/// The program that answers the two questions.
pub const SOURCE_CONTROL: &'static str = "git";

/// The text that a run of the program stands for. A run is `None` where the
/// program could not be started; otherwise it says whether the program ended
/// with success, and what it printed. The text is what a successful run
/// printed, where that is valid UTF-8, and there is none otherwise: a run
/// that failed, as in a directory that is no checkout, stands for no text,
/// whatever it printed.
pub open spec fn printed_text(run: Option<(bool, Seq<u8>)>) -> Option<Seq<char>> {
    match run {
        Some((succeeded, bytes)) => if succeeded && valid_utf8(bytes) {
            Some(decode_utf8(bytes))
        } else {
            None
        },
        None => None,
    }
}

/// A run that did not end with success stands for no text: one that could
/// not be started, and one that started and failed.
pub proof fn lemma_no_text_without_success(run: Option<(bool, Seq<u8>)>)
    requires
        run matches Some((succeeded, _)) ==> !succeeded,
    ensures
        printed_text(run) is None,
{
}

/// Calls `String::from_utf8`, of which nothing is proved here. The contract
/// is what the standard library documents: the call succeeds exactly on
/// valid UTF-8, and the string it gives then holds the characters that the
/// bytes encode.
#[verifier::external_body]
fn string_from_utf8(bytes: Vec<u8>) -> (text: Option<String>)
    ensures
        text is Some <==> valid_utf8(bytes@),
        text matches Some(t) ==> t@ == decode_utf8(bytes@),
{
    match String::from_utf8(bytes) {
        Ok(text) => Some(text),
        Err(_) => None,
    }
}

/// Reads what a run of the program printed.
fn read_output(run: Option<(bool, Vec<u8>)>) -> (text: Option<String>)
    ensures
        text.deep_view() == printed_text(run.deep_view()),
{
    match run {
        Some((succeeded, bytes)) => {
            assert(bytes.deep_view() =~= bytes@);
            if succeeded {
                string_from_utf8(bytes)
            } else {
                None
            }
        },
        None => None,
    }
}

/// The arguments that ask the program to describe the commit, with a mark
/// for a working tree that has changes.
pub fn describe_arguments() -> (arguments: Vec<&'static str>)
    ensures
        arguments.deep_view() == seq!["describe"@, "--dirty=dev"@],
{
    let arguments = vec!["describe", "--dirty=dev"];
    assert(arguments.deep_view() =~= seq!["describe"@, "--dirty=dev"@]);
    arguments
}

/// The arguments that ask the program for the date of the last commit, in
/// the short form and with nothing else on the line.
pub fn commit_date_arguments() -> (arguments: Vec<&'static str>)
    ensures
        arguments.deep_view() == seq!["log"@, "-1"@, "--date=short"@, "--pretty=format:%cd"@],
{
    let arguments = vec!["log", "-1", "--date=short", "--pretty=format:%cd"];
    assert(arguments.deep_view() =~= seq![
        "log"@,
        "-1"@,
        "--date=short"@,
        "--pretty=format:%cd"@,
    ]);
    arguments
}

/// The description of the commit, given the run of the program with
/// `describe_arguments`: `None` where it could not be started, and otherwise
/// whether it ended with success and what it printed. The description is
/// absent where the program did not start, where it failed, and where it
/// printed what is not UTF-8; it is otherwise the output as it is, untrimmed.
pub fn get_commit_describe(run: Option<(bool, Vec<u8>)>) -> (describe: Option<String>)
    ensures
        describe.deep_view() == printed_text(run.deep_view()),
{
    read_output(run)
}

/// The date of the commit, given the run of the program with
/// `commit_date_arguments`: `None` where it could not be started, and
/// otherwise whether it ended with success and what it printed. The date is
/// absent where the program did not start, where it failed, and where it
/// printed what is not UTF-8; it is otherwise the output as it is, untrimmed.
pub fn get_commit_date(run: Option<(bool, Vec<u8>)>) -> (date: Option<String>)
    ensures
        date.deep_view() == printed_text(run.deep_view()),
{
    read_output(run)
}

} // verus!
