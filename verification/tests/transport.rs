use sendmail_transport::envelope::Envelope;
use sendmail_transport::error::Error;
use sendmail_transport::transport::{build_args, map_output, ProcessOutput, SendmailTransport};

fn envelope(from: Option<&str>, to: &[&str]) -> Envelope {
    Envelope::new(
        from.map(|s| s.to_string()),
        to.iter().map(|s| s.to_string()).collect(),
    )
}

#[test]
fn default_command_is_usr_sbin_sendmail() {
    let t = SendmailTransport::new();
    assert_eq!(t.command().as_str(), "/usr/sbin/sendmail");
}

#[test]
fn custom_command_is_kept_verbatim() {
    let t = SendmailTransport::new_with_command("/usr/bin/msmtp -t".to_string());
    assert_eq!(t.command().as_str(), "/usr/bin/msmtp -t");
}

#[test]
fn defaulted_transport_has_empty_command() {
    let t = SendmailTransport::default();
    assert_eq!(t.command().as_str(), "");
}

#[test]
fn envelope_hands_back_what_it_was_built_from() {
    let e = envelope(Some("s@x.com"), &["a@x.com", "b@x.com"]);
    assert_eq!(e.sender().as_deref(), Some("s@x.com"));
    assert_eq!(e.recipients(), &vec!["a@x.com".to_string(), "b@x.com".to_string()]);
}

#[test]
fn args_with_sender_and_recipients() {
    let e = envelope(Some("s@x.com"), &["a@x.com", "b@y.org", "c@z.net"]);
    let args = build_args(&e);
    assert_eq!(
        args,
        vec!["-i", "-f", "s@x.com", "a@x.com", "b@y.org", "c@z.net"]
    );
}

#[test]
fn absent_sender_yields_empty_quoted_token() {
    let e = envelope(None, &["a@x.com"]);
    let args = build_args(&e);
    assert_eq!(args, vec!["-i", "-f", "\"\"", "a@x.com"]);
}

#[test]
fn args_with_no_recipients_are_the_three_fixed_ones() {
    let e = envelope(Some("s@x.com"), &[]);
    let args = build_args(&e);
    assert_eq!(args, vec!["-i", "-f", "s@x.com"]);
}

#[test]
fn recipients_keep_order_and_duplicates() {
    let e = envelope(None, &["b@x.com", "a@x.com", "b@x.com"]);
    let args = build_args(&e);
    assert_eq!(args[3..], ["b@x.com", "a@x.com", "b@x.com"]);
}

#[test]
fn exit_zero_is_success_regardless_of_output() {
    let r = map_output(ProcessOutput {
        exit_zero: true,
        stdout: b"queued as 4AB1C".to_vec(),
        stderr: b"warning: something".to_vec(),
    });
    assert!(matches!(r, Ok(())));
}

#[test]
fn exit_zero_is_success_even_with_invalid_utf8_diagnostic() {
    let r = map_output(ProcessOutput {
        exit_zero: true,
        stdout: Vec::new(),
        stderr: vec![0xff, 0xfe],
    });
    assert!(matches!(r, Ok(())));
}

#[test]
fn nonzero_exit_is_client_failure_with_decoded_text() {
    let r = map_output(ProcessOutput {
        exit_zero: false,
        stdout: Vec::new(),
        stderr: b"mailbox full".to_vec(),
    });
    match r {
        Err(Error::Client(m)) => assert_eq!(m, "mailbox full"),
        other => panic!("expected a client failure, got {:?}", other),
    }
}

#[test]
fn nonzero_exit_decodes_multibyte_diagnostic_text() {
    let text = "bo\u{ee}te pleine";
    let r = map_output(ProcessOutput {
        exit_zero: false,
        stdout: Vec::new(),
        stderr: text.as_bytes().to_vec(),
    });
    match r {
        Err(Error::Client(m)) => assert_eq!(m, text),
        other => panic!("expected a client failure, got {:?}", other),
    }
}

#[test]
fn nonzero_exit_with_empty_diagnostic_is_client_failure_with_empty_text() {
    let r = map_output(ProcessOutput {
        exit_zero: false,
        stdout: Vec::new(),
        stderr: Vec::new(),
    });
    match r {
        Err(Error::Client(m)) => assert_eq!(m, ""),
        other => panic!("expected a client failure, got {:?}", other),
    }
}

#[test]
fn invalid_utf8_diagnostic_is_decoding_failure_not_client_failure() {
    let bytes = vec![0x6d, 0x61, 0xff, 0x69, 0x6c];
    let r = map_output(ProcessOutput {
        exit_zero: false,
        stdout: Vec::new(),
        stderr: bytes.clone(),
    });
    match r {
        Err(Error::Utf8(b)) => assert_eq!(b, bytes),
        other => panic!("expected a decoding failure, got {:?}", other),
    }
}
