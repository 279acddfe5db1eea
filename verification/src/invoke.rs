//! Support for invoking the admin tool: the argument list addressing one
//! hub, the two subcommands, and the classification of the tool's outcome.
//! Starting the process and moving its bytes is the caller's business;
//! every decision about what to run and what an exit means is made here.

use vstd::prelude::*;
use vstd::string::{StringExecFns, StrSliceExecFns};

use crate::error::SoftEtherError;

verus! {

/// The two queries the admin tool answers per hub.
#[derive(Clone, Copy, PartialEq, Eq, Structural, Debug)]
pub enum QueryKind {
    /// The hub's status report.
    Status,
    /// The hub's session-list report.
    Sessions,
}

/// The subcommand name each query kind sends.
pub open spec fn spec_subcommand(kind: QueryKind) -> Seq<char> {
    match kind {
        QueryKind::Status => "StatusGet"@,
        QueryKind::Sessions => "SessionList"@,
    }
}

/// The subcommand to send for one query kind.
pub fn subcommand_name(kind: QueryKind) -> (r: &'static str)
    ensures
        r@ == spec_subcommand(kind),
{
    match kind {
        QueryKind::Status => "StatusGet",
        QueryKind::Sessions => "SessionList",
    }
}

/// The argument list addressing one hub of one server: the server address,
/// server-administration mode, the hub selection, the admin secret, the
/// tabular output switch, and the subcommand.
pub open spec fn spec_invocation_args(
    server: Seq<char>,
    hub: Seq<char>,
    password: Seq<char>,
    subcommand: Seq<char>,
) -> Seq<Seq<char>> {
    seq![
        server,
        "/SERVER"@,
        "/ADMINHUB:"@ + hub,
        "/PASSWORD:"@ + password,
        "/CSV"@,
        "/CMD"@,
        subcommand,
    ]
}

/// Build the admin tool's argument list for one hub query.
pub fn build_invocation_args(server: &str, hub: &str, password: &str, subcommand: &str) -> (r:
    Vec<String>)
    ensures
        r.deep_view() == spec_invocation_args(server@, hub@, password@, subcommand@),
{
    let mut args: Vec<String> = Vec::new();
    args.push(String::from_str(server));
    args.push(String::from_str("/SERVER"));
    args.push(String::from_str("/ADMINHUB:").concat(hub));
    args.push(String::from_str("/PASSWORD:").concat(password));
    args.push(String::from_str("/CSV"));
    args.push(String::from_str("/CMD"));
    args.push(String::from_str(subcommand));
    proof {
        assert(args.deep_view() =~= spec_invocation_args(server@, hub@, password@, subcommand@));
    }
    args
}

/// The control byte written to the tool's input channel to dismiss its
/// interactive password prompt: ASCII end-of-transmission.
pub fn prompt_release_byte() -> (r: u8)
    ensures
        r == 4u8,
{
    4
}

/// The text that undecodable byte sequences read as, named after
/// `String::from_utf8_lossy`: a function of the bytes alone.
pub uninterp spec fn lossy_utf8(bytes: Seq<u8>) -> Seq<char>;

/// Relies on `String::from_utf8_lossy`: decodes the bytes as UTF-8,
/// replacing undecodable sequences; the result depends on the bytes alone.
#[verifier::external_body]
fn utf8_lossy(bytes: &[u8]) -> (r: String)
    ensures
        r@ == lossy_utf8(bytes@),
{
    String::from_utf8_lossy(bytes).into_owned()
}

/// The diagnostic carried when the tool exits unsuccessfully: its own
/// captured output, verbatim, inside a fixed frame.
pub open spec fn spec_tool_failure_message(out: Seq<u8>) -> Seq<char> {
    "vpncmd failed ( "@ + lossy_utf8(out) + " )"@
}

/// Classify the admin tool's outcome: a successful exit hands the captured
/// output on to the decoders; any other exit surfaces the tool's own
/// diagnostic.
pub fn classify_tool_output(success: bool, stdout: Vec<u8>) -> (r: Result<Vec<u8>, SoftEtherError>)
    ensures
        success ==> (r matches Ok(b) && b@ == stdout@),
        !success ==> (r matches Err(e) && e@ == spec_tool_failure_message(stdout@)),
{
    if success {
        Ok(stdout)
    } else {
        let text = utf8_lossy(stdout.as_slice());
        let msg = String::from_str("vpncmd failed ( ").concat(text.as_str()).concat(" )");
        Err(SoftEtherError::new(msg))
    }
}

} // verus!
