//! How a connection comes about.

use vstd::prelude::*;

use crate::connect::{socket_path_from_output, Connector, Report, Task};
use crate::error::{other_error_of, EstablishError};
use crate::text::{
    debug_text, decimal, decimals, digit, lossy, only_newlines_are_cut, str_eq,
    without_trailing_newlines,
};

verus! {

/// Two strings are equal if they have the same characters.
pub proof fn strings_are_compared_by_character(a: &str, b: &str, r: bool)
    requires
        call_ensures(str_eq, (a, b), r),
    ensures
        r <==> a@.len() == b@.len() && forall|i: int| 0 <= i < a@.len() ==> a@[i] == b@[i],
{
    if a@.len() == b@.len() && forall|i: int| 0 <= i < a@.len() ==> a@[i] == b@[i] {
        assert(a@ =~= b@);
    }
}

/// Whether `path` is `text` without the newlines at its end: what follows the path is newlines
/// only, and the path does not end in one.
pub open spec fn is_path_in(path: Seq<char>, text: Seq<char>) -> bool {
    &&& path.len() <= text.len()
    &&& forall|i: int| 0 <= i < path.len() ==> path[i] == text[i]
    &&& forall|i: int| path.len() <= i < text.len() ==> text[i] == '\n'
    &&& path.len() > 0 ==> path[path.len() - 1] != '\n'
}

proof fn path_is_cut_out(text: Seq<char>)
    ensures
        is_path_in(without_trailing_newlines(text), text),
{
    only_newlines_are_cut(text);
    let kept = without_trailing_newlines(text);
    assert forall|i: int| 0 <= i < kept.len() implies kept[i] == text[i] by {
        assert(text.take(kept.len() as int)[i] == text[i]);
    }
}

/// There is only one path in a text.
pub proof fn path_is_the_only_one(a: Seq<char>, b: Seq<char>, text: Seq<char>)
    requires
        is_path_in(a, text),
        is_path_in(b, text),
    ensures
        a == b,
{
    if a.len() < b.len() {
        assert(b[b.len() - 1] == text[b.len() - 1]);
    } else if b.len() < a.len() {
        assert(a[a.len() - 1] == text[a.len() - 1]);
    }
    assert(a =~= b);
}

/// The number that some decimal digits are.
pub open spec fn value_of(digits: Seq<char>) -> nat
    decreases digits.len(),
{
    if digits.len() == 0 {
        0
    } else {
        10 * value_of(digits.drop_last()) + (digits.last() as nat - '0' as nat) as nat
    }
}

/// A number is written in decimal digits, without a zero before them.
pub proof fn number_is_written(n: nat)
    ensures
        value_of(decimal(n)) == n,
        decimal(n).len() > 0,
        forall|i: int| 0 <= i < decimal(n).len() ==> '0' <= #[trigger] decimal(n)[i] <= '9',
        n > 0 ==> decimal(n)[0] != '0',
    decreases n,
{
    reveal_with_fuel(value_of, 2);
    if n < 10 {
        assert(decimal(n).drop_last() =~= Seq::<char>::empty());
        assert(digit(n) as nat == '0' as nat + n);
    } else {
        let before = decimal(n / 10);
        number_is_written(n / 10);
        assert(decimal(n).drop_last() =~= before);
        assert(digit(n % 10) as nat == '0' as nat + n % 10);
        assert forall|i: int| 0 <= i < decimal(n).len() implies '0' <= #[trigger] decimal(n)[i]
            <= '9' by {
            if i < before.len() {
                assert(decimal(n)[i] == before[i]);
            }
        }
        assert(decimal(n)[0] == before[0]);
    }
}

/// Bytes are written one after the other, with a comma and a space between each two, in square
/// brackets.
pub proof fn bytes_are_written(a: Seq<u8>, b: Seq<u8>)
    ensures
        debug_text(a) == "["@ + decimals(a) + "]"@,
        a.len() == 0 ==> decimals(a).len() == 0,
        a.len() == 1 ==> decimals(a) == decimal(a[0] as nat),
        a.len() > 0 && b.len() > 0 ==> decimals(a + b) == decimals(a) + ", "@ + decimals(b),
    decreases b.len(),
{
    if a.len() > 0 && b.len() > 0 {
        let both = a + b;
        assert(both.drop_last() =~= a + b.drop_last());
        if b.len() == 1 {
            assert(both.drop_last() =~= a);
        } else {
            bytes_are_written(a, b.drop_last());
            assert(decimals(both) =~= decimals(a) + ", "@ + decimals(b));
        }
    }
}

/// What i3 printed is the path, up to the newlines at its end. If i3 failed there is no path,
/// whatever it printed: there is a complaint, with the bytes on its standard error if there are
/// any.
pub proof fn output_is_the_path(
    success: bool,
    stdout: &Vec<u8>,
    stderr: &Vec<u8>,
    r: Result<String, String>,
)
    requires
        call_ensures(socket_path_from_output, (success, stdout, stderr), r),
    ensures
        r is Ok <==> success,
        r matches Ok(path) ==> is_path_in(path@, lossy(stdout@)),
        r matches Err(complaint) ==> (stderr@.len() == 0 ==> complaint@
            == "i3 --getsocketpath didn't return 0"@),
        r matches Err(complaint) ==> (stderr@.len() > 0 ==> complaint@
            == "i3 --getsocketpath didn't return 0"@ + ". stderr: "@ + ("["@ + decimals(stderr@)
            + "]"@)),
{
    path_is_cut_out(lossy(stdout@));
}

/// A path in the environment is opened as it is, and i3 is asked for one if there is none there.
/// The path that i3 prints is opened too.
pub proof fn path_is_opened(connector: Connector, report: Report, r: (Connector, Task))
    requires
        call_ensures(Connector::step, (connector, report), r),
    ensures
        report matches Report::Environment(Some(path)) ==> r.1 == Task::Open(path),
        report matches Report::Environment(None) ==> r.1 == Task::AskI3,
        report matches Report::Answered { success, stdout, .. } ==> (success ==> (
        r.1 matches Task::Open(path) && is_path_in(path@, lossy(stdout@)))),
        report is Opened ==> r.1 == Task::Done,
        r.1 is Open <==> r.0 == Connector::Opening,
        r.1 is AskI3 <==> r.0 == Connector::Asking,
        r.1 is Done || r.1 is GiveUp <==> r.0 == Connector::Finished,
{
    if let Report::Answered { stdout, .. } = report {
        path_is_cut_out(lossy(stdout@));
    }
}

/// Whatever goes wrong before there is a path is told as such, and so is whatever goes wrong at the
/// socket. The error is the one that was reported, or carries the complaint about what i3 did.
pub proof fn failure_is_told(
    connector: Connector,
    report: Report,
    r: (Connector, Task),
    out: &Vec<u8>,
    complaint: String,
)
    requires
        call_ensures(Connector::step, (connector, report), r),
        report matches Report::Answered { stderr, .. } ==> call_ensures(
            socket_path_from_output,
            (false, out, &stderr),
            Err(complaint),
        ),
    ensures
        report matches Report::Failed(e) ==> (connector is Asking ==> r.1 == Task::GiveUp(
            EstablishError::GetSocketPathError(e),
        )),
        report matches Report::Failed(e) ==> (connector is Opening ==> r.1 == Task::GiveUp(
            EstablishError::SocketError(e),
        )),
        report matches Report::Answered { success, .. } ==> (!success ==> r.1 == Task::GiveUp(
            EstablishError::GetSocketPathError(other_error_of(complaint@)),
        )),
        r.1 is GiveUp ==> report is Failed || report is Answered,
{
}

/// A connector takes every report that its task can end in.
pub proof fn connector_takes_reports(
    path: Option<String>,
    success: bool,
    stdout: Vec<u8>,
    stderr: Vec<u8>,
    e: std::io::Error,
)
    ensures
        call_requires(Connector::step, (Connector::Environment, Report::Environment(path))),
        call_requires(
            Connector::step,
            (Connector::Asking, Report::Answered { success, stdout, stderr }),
        ),
        call_requires(Connector::step, (Connector::Asking, Report::Failed(e))),
        call_requires(Connector::step, (Connector::Opening, Report::Opened)),
        call_requires(Connector::step, (Connector::Opening, Report::Failed(e))),
{
}

} // verus!
