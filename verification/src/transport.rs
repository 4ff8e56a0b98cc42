//! The transport configuration and the behaviour of one send.

use vstd::prelude::*;
use vstd::utf8::{decode_utf8, valid_utf8};
use crate::envelope::Envelope;
use crate::error::{Error, SendmailResult};

verus! {

/// The flag that tells the MDA not to treat a line holding only a period
/// as end-of-input.
pub open spec fn dot_flag() -> Seq<char> {
    "-i"@
}

/// The flag that sets the envelope sender; always emitted.
pub open spec fn sender_flag() -> Seq<char> {
    "-f"@
}

/// The literal empty-quoted-string token passed as the sender value when
/// the envelope carries no sender.
pub open spec fn empty_sender_token() -> Seq<char> {
    "\"\""@
}

/// The value following the sender flag: the sender address when one is
/// present, the literal empty-quoted-string token otherwise.
pub open spec fn sender_arg(from: Option<Seq<char>>) -> Seq<char> {
    match from {
        Some(s) => s,
        None => empty_sender_token(),
    }
}

/// The argument vector of a sendmail-style invocation for an envelope
/// with sender `from` and recipients `to`: the dot flag, the sender flag
/// followed by the sender value, then each recipient in envelope order,
/// one argument per recipient.
pub open spec fn spec_args(from: Option<Seq<char>>, to: Seq<Seq<char>>) -> Seq<Seq<char>> {
    seq![dot_flag(), sender_flag(), sender_arg(from)] + to
}

/// Builds the argument vector with which the MDA is invoked for
/// `envelope`. The recipients are passed exactly as given, with no
/// deduplication, sorting or validation.
pub fn build_args(envelope: &Envelope) -> (args: Vec<String>)
    ensures
        args.deep_view() == spec_args(envelope.sender_view(), envelope.recipients_view()),
{
    let mut args: Vec<String> = Vec::new();
    args.push(String::from_str("-i"));
    args.push(String::from_str("-f"));
    match envelope.sender() {
        Some(s) => args.push(s.clone()),
        None => args.push(String::from_str("\"\"")),
    }
    proof {
        assert(args.deep_view() =~~= seq![
            dot_flag(),
            sender_flag(),
            sender_arg(envelope.sender_view()),
        ]);
    }
    let to: &Vec<String> = envelope.recipients();
    let mut i: usize = 0;
    while i < to.len()
        invariant
            i <= to.len(),
            to.deep_view() == envelope.recipients_view(),
            args.deep_view() == seq![
                dot_flag(),
                sender_flag(),
                sender_arg(envelope.sender_view()),
            ] + envelope.recipients_view().take(i as int),
        decreases to.len() - i,
    {
        let ghost prev = args.deep_view();
        args.push(to[i].clone());
        proof {
            assert(args.deep_view() =~~= prev.push(envelope.recipients_view()[i as int]));
            assert(envelope.recipients_view().take(i as int + 1) =~= envelope
                .recipients_view()
                .take(i as int)
                .push(envelope.recipients_view()[i as int]));
            assert(args.deep_view() =~~= seq![
                dot_flag(),
                sender_flag(),
                sender_arg(envelope.sender_view()),
            ] + envelope.recipients_view().take(i as int + 1));
        }
        i = i + 1;
    }
    proof {
        assert(envelope.recipients_view().take(i as int) =~= envelope.recipients_view());
    }
    args
}

/// Sends an email using a local sendmail-style MDA command.
///
/// Holds the path or name of the MDA executable to invoke. The value is
/// immutable after construction and may be reused across many sends; no
/// existence or permission check is made at construction time, so a bad
/// command surfaces only when a send is attempted.
#[derive(Debug)]
pub struct SendmailTransport {
    command: String,
}

impl SendmailTransport {
    /// The configured MDA command, as a mathematical value.
    pub closed spec fn command_view(&self) -> Seq<char> {
        self.command@
    }

    /// Creates a new transport with the default `/usr/sbin/sendmail`
    /// command.
    pub fn new() -> (t: SendmailTransport)
        ensures
            t.command_view() == "/usr/sbin/sendmail"@,
    {
        SendmailTransport { command: String::from_str("/usr/sbin/sendmail") }
    }

    /// Creates a new transport to the given sendmail command, used
    /// verbatim as the executable to invoke.
    pub fn new_with_command(command: String) -> (t: SendmailTransport)
        ensures
            t.command_view() == command@,
    {
        SendmailTransport { command }
    }

    /// The command that a send will invoke.
    pub fn command(&self) -> (c: &String)
        ensures
            c@ == self.command_view(),
    {
        &self.command
    }
}

impl Default for SendmailTransport {
    /// A transport with an empty command; prefer `new` for the
    /// conventional system path.
    fn default() -> (t: SendmailTransport)
        ensures
            t.command_view() == Seq::<char>::empty(),
    {
        SendmailTransport { command: String::new() }
    }
}

/// For any sender (possibly absent) and any recipients, the built
/// argument sequence is exactly the dot flag, the sender flag, the sender
/// value, and then the recipients in envelope order, one argument per
/// recipient.
pub proof fn lemma_args_shape(from: Option<Seq<char>>, to: Seq<Seq<char>>)
    ensures
        spec_args(from, to).len() == 3 + to.len(),
        spec_args(from, to)[0] == dot_flag(),
        spec_args(from, to)[1] == sender_flag(),
        spec_args(from, to)[2] == sender_arg(from),
        forall|i: int| 0 <= i < to.len() ==> spec_args(from, to)[3 + i] == #[trigger] to[i],
{
}

/// An absent sender never omits the sender flag: the flag is still
/// emitted, followed by the literal empty-quoted-string token.
pub proof fn lemma_absent_sender(to: Seq<Seq<char>>)
    ensures
        spec_args(None, to)[1] == sender_flag(),
        spec_args(None, to)[2] == empty_sender_token(),
{
}

/// What one run of the child process reported back: whether its exit
/// status was the success status (code zero), and the bytes collected on
/// its output and error-diagnostic channels.
pub struct ProcessOutput {
    /// True exactly when the exit status reported status code zero.
    pub exit_zero: bool,
    /// The bytes written to the child's standard output; collected but
    /// never interpreted.
    pub stdout: Vec<u8>,
    /// The bytes captured on the child's error-diagnostic channel.
    pub stderr: Vec<u8>,
}

/// Relies on `String::from_utf8`: decodes the bytes as UTF-8 text when
/// they are valid UTF-8, and hands the bytes back unchanged otherwise.
#[verifier::external_body]
fn decode_diagnostic(bytes: Vec<u8>) -> (r: Result<String, Vec<u8>>)
    ensures
        r matches Ok(s) ==> valid_utf8(bytes@) && s@ == decode_utf8(bytes@),
        r matches Err(b) ==> !valid_utf8(bytes@) && b@ == bytes@,
{
    match String::from_utf8(bytes) {
        Ok(s) => Ok(s),
        Err(e) => Err(e.into_bytes()),
    }
}

/// Translates the child process's outcome into the typed send result.
///
/// Exit status zero means success, regardless of anything the child wrote
/// to its output channels. On a non-zero exit status the diagnostic bytes
/// are decoded as UTF-8 into the client failure's message; bytes that are
/// not valid UTF-8 yield a decoding failure instead of a client failure.
pub fn map_output(output: ProcessOutput) -> (r: SendmailResult)
    ensures
        output.exit_zero ==> r is Ok,
        !output.exit_zero && valid_utf8(output.stderr@) ==> (r matches Err(Error::Client(m))
            && m@ == decode_utf8(output.stderr@)),
        !output.exit_zero && !valid_utf8(output.stderr@) ==> (r matches Err(Error::Utf8(b))
            && b@ == output.stderr@),
{
    if output.exit_zero {
        Ok(())
    } else {
        match decode_diagnostic(output.stderr) {
            Ok(text) => Err(Error::Client(text)),
            Err(bytes) => Err(Error::Utf8(bytes)),
        }
    }
}

} // verus!
