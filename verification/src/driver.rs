use crate::error::Error;
use crate::response::{body_result_spec, transport_result_spec, FetchOutcome};
use vstd::prelude::*;

verus! {

/// What the driver does after one row: print a result line and go on, or
/// print a diagnostic and stop the whole run with the given exit code.
pub enum RowStep {
    /// One line of output; the run goes on with the next row.
    Output(String),
    /// A terminal diagnostic; the run stops, and the process exits with
    /// `exit_code`.
    Abort { message: String, exit_code: u8 },
}

/// The diagnostic for a rejected API key.
pub open spec fn invalid_key_message() -> Seq<char> {
    "Error: invalid API key!"@
}

/// The diagnostic for a failed transfer, a bad URL or an unreadable status.
pub open spec fn no_internet_message() -> Seq<char> {
    "Error: Are you connected to the internet?"@
}

/// The diagnostic for a body that could not be parsed, carrying the raw text.
pub open spec fn parse_failure_message(raw: Seq<char>) -> Seq<char> {
    "Error: failed to parse json!\n\t"@ + raw
}

/// The output line for one row: the label, a separating dash, the address.
pub open spec fn output_line_spec(label: Seq<char>, words: Seq<char>) -> Seq<char> {
    label + " - "@ + words
}

/// What `row_step` must decide for one row. A transport-level error aborts:
/// exit code 1 and the matching diagnostic, except that a body that was not
/// valid text aborts as a parse failure, exit code 0, with nothing to quote.
/// A body whose JSON does not parse aborts as a parse failure quoting the raw
/// text. Otherwise the row prints its output line and the run goes on.
pub open spec fn row_step_ok(label: Seq<char>, o: FetchOutcome, r: RowStep) -> bool {
    match transport_result_spec(o) {
        Err(e) => r matches RowStep::Abort { message, exit_code } && message@ == (if e
            == Error::ParseFailure {
            parse_failure_message(Seq::empty())
        } else if e == Error::InvalidApiKey {
            invalid_key_message()
        } else {
            no_internet_message()
        }) && exit_code == (if e == Error::ParseFailure {
            0u8
        } else {
            1u8
        }),
        Ok(text) => match body_result_spec(text) {
            Ok(words) => r matches RowStep::Output(line) && line@ == output_line_spec(
                label,
                words,
            ),
            Err(_) => r matches RowStep::Abort { message, exit_code } && message@
                == parse_failure_message(text) && exit_code == 0u8,
        },
    }
}

/// Builds the parse-failure diagnostic around the raw body text.
fn parse_failure_line(raw: &str) -> (r: String)
    ensures
        r@ == parse_failure_message(raw@),
{
    let mut m = String::new();
    m.append("Error: failed to parse json!\n\t");
    m.append(raw);
    proof {
        assert(m@ =~= parse_failure_message(raw@));
    }
    m
}

/// Decides one row of the run from its label and the outcome of its HTTP
/// call, as `row_step_ok` states: a 401 or a dead connection stops the run
/// with exit code 1, an unparsable body stops it with its diagnostic, and a
/// good response yields the row's output line.
pub fn row_step(label: &str, outcome: FetchOutcome) -> (r: RowStep)
    ensures
        row_step_ok(label@, outcome, r),
{
    match crate::response::interpret_transport(outcome) {
        Err(e) => {
            if e == Error::ParseFailure {
                proof {
                    reveal_strlit("");
                    assert(""@ =~= Seq::<char>::empty());
                }
                RowStep::Abort { message: parse_failure_line(""), exit_code: 0 }
            } else if e == Error::InvalidApiKey {
                let mut m = String::new();
                m.append("Error: invalid API key!");
                proof {
                    assert(m@ =~= invalid_key_message());
                }
                RowStep::Abort { message: m, exit_code: 1 }
            } else {
                let mut m = String::new();
                m.append("Error: Are you connected to the internet?");
                proof {
                    assert(m@ =~= no_internet_message());
                }
                RowStep::Abort { message: m, exit_code: 1 }
            }
        },
        Ok(text) => match crate::response::interpret_body(text.as_str()) {
            Ok(words) => {
                let mut line = String::new();
                line.append(label);
                line.append(" - ");
                line.append(words.as_str());
                proof {
                    assert(line@ =~= output_line_spec(label@, words@));
                }
                RowStep::Output(line)
            },
            Err(_) => RowStep::Abort { message: parse_failure_line(text.as_str()), exit_code: 0 },
        },
    }
}

/// The message printed when the environment holds no API key.
pub fn missing_key_message() -> (r: String)
    ensures
        r@ == "Error! Failed to find API key W3W_API"@,
{
    let mut m = String::new();
    m.append("Error! Failed to find API key W3W_API");
    proof {
        assert(m@ =~= "Error! Failed to find API key W3W_API"@);
    }
    m
}

} // verus!
