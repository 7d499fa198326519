//! What the control endpoints answer and write. Routing and serialisation
//! belong to the program; the decisions are here.

use vstd::prelude::*;
use vstd::string::*;
use vstd::utf8::encode_utf8;
use crate::store::{bytes_view, SettingKey, StoreOp, StoreWrite};

verus! {

/// The answer of a control endpoint.
#[derive(Debug, Default, PartialEq, Eq)]
pub struct HttpResult {
    pub success: bool,
    pub message: Option<String>,
}

/// The body of a request to end a process.
#[derive(Debug, Default)]
pub struct KilledInfo {
    pub pid: String,
}

/// The body of a request to replace the token.
#[derive(Debug, Default)]
pub struct TokenInfo {
    pub token: String,
}

/// What came of an attempt to end a process.
#[derive(Clone, Copy, Debug, PartialEq, Eq, Structural)]
pub enum KillOutcome {
    /// The request's process id could not be read.
    Malformed,
    /// No process has that id.
    NotFound,
    /// The process was found and gone before it could be signalled.
    Vanished,
    /// The process was signalled; the flag says whether the signal was sent.
    Signalled(bool),
}

/// What an answer holds.
pub struct Answer {
    pub success: bool,
    pub message: Option<Seq<char>>,
}

/// The answer to a request to end a process.
pub open spec fn kill_answer(outcome: KillOutcome) -> Answer {
    match outcome {
        KillOutcome::Malformed => Answer { success: false, message: Some("invalid pid"@) },
        KillOutcome::NotFound => Answer { success: false, message: Some("进程不存在"@) },
        KillOutcome::Vanished => Answer { success: false, message: None },
        KillOutcome::Signalled(sent) => Answer { success: sent, message: None },
    }
}

/// The answer to a request that wrote to the store.
pub open spec fn write_answer(stored: bool) -> Answer {
    if stored {
        Answer { success: true, message: None }
    } else {
        Answer { success: false, message: Some("store write failed"@) }
    }
}

impl View for HttpResult {
    type V = Answer;

    open spec fn view(&self) -> Answer {
        Answer {
            success: self.success,
            message: match self.message {
                Some(m) => Some(m@),
                None => None,
            },
        }
    }
}

impl HttpResult {
    pub fn new(success: bool) -> (r: HttpResult)
        ensures
            r@ == (Answer { success, message: None }),
    {
        HttpResult { success, message: None }
    }

    pub fn new_msg(success: bool, message: String) -> (r: HttpResult)
        ensures
            r@ == (Answer { success, message: Some(message@) }),
    {
        HttpResult { success, message: Some(message) }
    }

    /// The answer to a request whose write to the store succeeded or
    /// failed: a failed write never reports success.
    pub fn for_write(stored: bool) -> (r: HttpResult)
        ensures
            r@ == write_answer(stored),
    {
        if stored {
            HttpResult::new(true)
        } else {
            HttpResult::new_msg(false, String::from_str("store write failed"))
        }
    }
}

/// Whether a character is one of the ten ASCII digits.
pub open spec fn is_digit(c: char) -> bool {
    48 <= c as int <= 57
}

/// The number that a text of digits writes in base ten.
pub open spec fn decimal_value(text: Seq<char>) -> nat
    decreases text.len(),
{
    if text.len() == 0 {
        0
    } else {
        decimal_value(text.drop_last()) * 10 + (text.last() as int - 48) as nat
    }
}

/// A text that names a process id on every host: one to nine digits and
/// nothing else. Its number fits every host's id type.
pub open spec fn is_plain_number(text: Seq<char>) -> bool {
    &&& 1 <= text.len() <= 9
    &&& forall|i: int| 0 <= i < text.len() ==> is_digit(#[trigger] text[i])
}

/// A text that names a process id on no host: it is empty, or holds a
/// character that is neither a digit nor a sign.
pub open spec fn is_no_number(text: Seq<char>) -> bool {
    ||| text.len() == 0
    ||| exists|i: int|
        0 <= i < text.len() && !is_digit(#[trigger] text[i]) && text[i] != '+' && text[i] != '-'
}

/// Reads a process id with `sysinfo::Pid`'s `FromStr` and hands it on as a
/// number, through `usize::from`. `Pid` parses its text as the host's id
/// type, a signed 32-bit integer or `usize`, by the standard library's
/// integer `from_str`: an optional sign, then decimal digits only. So on
/// every host one to nine digits give their number, and an empty text or
/// one with any other character than digits and signs gives none. Of the
/// remaining texts nothing is claimed: the hosts differ on them.
#[verifier::external_body]
fn parse_pid(text: &str) -> (r: Option<usize>)
    ensures
        match r {
            Some(pid) => !is_no_number(text@) && (is_plain_number(text@) ==> pid as nat
                == decimal_value(text@)),
            None => !is_plain_number(text@),
        },
{
    match text.parse::<sysinfo::Pid>() {
        Ok(pid) => Some(usize::from(pid)),
        Err(_) => None,
    }
}

/// The process id that was read, or the answer to give where none was.
pub fn pid_or_answer(parsed: Option<usize>) -> (r: Result<usize, HttpResult>)
    ensures
        match parsed {
            Some(pid) => r == Ok::<usize, HttpResult>(pid),
            None => r matches Err(answer) && answer@ == kill_answer(KillOutcome::Malformed),
        },
{
    match parsed {
        Some(pid) => Ok(pid),
        None => Err(kill_process(KillOutcome::Malformed)),
    }
}

/// The process that a request asks to end, or the answer to give where the
/// request names none. One to nine digits name the process of that number;
/// an empty text, or one with a character that is neither digit nor sign,
/// names none. Whether any other text names a process is for the host's
/// process id type to say.
pub fn requested_pid(info: &KilledInfo) -> (r: Result<usize, HttpResult>)
    ensures
        r matches Err(answer) ==> answer@ == kill_answer(KillOutcome::Malformed),
        is_plain_number(info.pid@) ==> (r matches Ok(pid) && pid as nat == decimal_value(
            info.pid@,
        )),
        is_no_number(info.pid@) ==> r is Err,
{
    pid_or_answer(parse_pid(info.pid.as_str()))
}

/// Answers a request to end a process, from what came of the attempt.
pub fn kill_process(outcome: KillOutcome) -> (r: HttpResult)
    ensures
        r@ == kill_answer(outcome),
{
    match outcome {
        KillOutcome::Malformed => HttpResult::new_msg(false, String::from_str("invalid pid")),
        KillOutcome::NotFound => HttpResult::new_msg(false, String::from_str("进程不存在")),
        KillOutcome::Vanished => HttpResult::new(false),
        KillOutcome::Signalled(sent) => HttpResult::new(sent),
    }
}

/// The write that replaces the stored token by the one in the request.
pub fn rest_token(info: &TokenInfo) -> (op: StoreOp)
    ensures
        op@ == (StoreWrite::Put { key: SettingKey::Token, value: encode_utf8(info.token@) }),
{
    StoreOp::Put { key: SettingKey::Token, value: info.token.as_str().as_bytes_vec() }
}

/// The body that shows the stored token: its bytes, or nothing where no
/// token is stored.
pub fn view_token(stored: &Option<Vec<u8>>) -> (r: Vec<u8>)
    ensures
        r@ == match bytes_view(*stored) {
            Some(token) => token,
            None => Seq::<u8>::empty(),
        },
{
    match stored {
        Some(token) => token.clone(),
        None => Vec::new(),
    }
}

/// The write that removes the stored token.
pub fn clear_token() -> (op: StoreOp)
    ensures
        op@ == (StoreWrite::Remove { key: SettingKey::Token }),
{
    StoreOp::Remove { key: SettingKey::Token }
}

} // verus!
