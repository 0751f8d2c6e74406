//! The rebuild command: its argument vector, and the synthetic completion
//! messages together with the sentinel predicate that detects them.
//!
//! Completion is signalled in-band: a fixed sentinel substring inside the
//! output byte stream marks the end of a build. The sole decision point is
//! [`chunk_signals_completion`]; the message builders below are proven to
//! produce chunks that satisfy it.

use vstd::prelude::*;

verus! {

use vstd::utf8::encode_utf8;
use crate::hosts::Connection;
use crate::session::RebuildOperation;
use crate::text::{contains_bytes, dec_digits, has_subseq, is_match_at, push_decimal};

/// Everything needed to launch one rebuild attempt.
pub struct RebuildCommand {
    pub operation: RebuildOperation,
    pub flake_path: Option<String>,
    pub config_name: String,
    pub connection: Connection,
    pub extra_args: Vec<String>,
    pub pty_cols: u16,
    pub pty_rows: u16,
}

impl RebuildCommand {
    pub fn new(
        operation: RebuildOperation,
        flake_path: Option<String>,
        config_name: String,
        connection: Connection,
        extra_args: Vec<String>,
        pty_cols: u16,
        pty_rows: u16,
    ) -> (r: Self)
        ensures
            r.operation == operation,
            r.flake_path == flake_path,
            r.config_name == config_name,
            r.connection == connection,
            r.extra_args == extra_args,
            r.pty_cols == pty_cols,
            r.pty_rows == pty_rows,
    {
        RebuildCommand { operation, flake_path, config_name, connection, extra_args, pty_cols, pty_rows }
    }

    /// The argument vector handed to the external rebuild tool: the
    /// operation, then the flake reference if one is set, then the target
    /// (remote host with remote sudo, or plain sudo locally; an unconfigured
    /// target contributes nothing), then the extra arguments.
    pub open spec fn spec_args(self) -> Seq<Seq<char>> {
        let base = seq![self.operation.name_spec()];
        let with_flake = if self.flake_path is Some {
            base + seq!["--flake"@, self.flake_path->0@ + "#"@ + self.config_name@]
        } else {
            base
        };
        let with_target = match self.connection {
            Connection::Remote(addr) => with_flake + seq![
                "--target-host"@,
                addr@,
                "--use-remote-sudo"@,
            ],
            Connection::Local => with_flake + seq!["--sudo"@],
            Connection::Unconfigured => with_flake,
        };
        with_target + self.extra_args@.map_values(|s: String| s@)
    }

    /// Builds the argument vector for the external rebuild tool.
    pub fn build_args(&self) -> (r: Vec<String>)
        ensures
            r@.map_values(|s: String| s@) == self.spec_args(),
    {
        let mut args: Vec<String> = Vec::new();
        args.push(self.operation.as_str().to_owned());
        match &self.flake_path {
            Some(fp) => {
                args.push("--flake".to_owned());
                let mut fr = fp.clone();
                fr.append("#");
                fr.append(self.config_name.as_str());
                args.push(fr);
            },
            None => {},
        }
        match &self.connection {
            Connection::Remote(addr) => {
                args.push("--target-host".to_owned());
                args.push(addr.clone());
                args.push("--use-remote-sudo".to_owned());
            },
            Connection::Local => {
                args.push("--sudo".to_owned());
            },
            Connection::Unconfigured => {},
        }
        let ghost head = args@.map_values(|s: String| s@);
        let mut i: usize = 0;
        while i < self.extra_args.len()
            invariant
                i <= self.extra_args@.len(),
                args@.map_values(|s: String| s@) =~= head + self.extra_args@.take(
                    i as int,
                ).map_values(|s: String| s@),
            decreases self.extra_args@.len() - i,
        {
            let ghost prev = args@;
            args.push(self.extra_args[i].clone());
            proof {
                assert(args@.map_values(|s: String| s@) =~= prev.map_values(|s: String| s@).push(
                    self.extra_args@[i as int]@,
                ));
                assert(self.extra_args@.take(i as int + 1).map_values(|s: String| s@) =~= self
                    .extra_args@.take(i as int).map_values(|s: String| s@).push(
                    self.extra_args@[i as int]@,
                ));
                assert(args@.map_values(|s: String| s@) =~= head + self.extra_args@.take(
                    i as int + 1,
                ).map_values(|s: String| s@));
            }
            i += 1;
        }
        proof {
            assert(self.extra_args@.take(self.extra_args@.len() as int) =~= self.extra_args@);
            assert(args@.map_values(|s: String| s@) =~= self.spec_args());
        }
        args
    }
}

/// The sentinel marking a successful build.
pub open spec fn sentinel_success() -> Seq<u8> {
    encode_utf8("Build completed successfully!"@)
}

/// The sentinel marking a failed build.
pub open spec fn sentinel_failure() -> Seq<u8> {
    encode_utf8("Build failed with exit code"@)
}

/// The sentinel marking a process-level error.
pub open spec fn sentinel_error() -> Seq<u8> {
    encode_utf8("Process error:"@)
}

/// True when the chunk carries any completion sentinel, wherever it stands.
pub open spec fn spec_is_completion(bs: Seq<u8>) -> bool {
    has_subseq(bs, sentinel_success()) || has_subseq(bs, sentinel_failure()) || has_subseq(
        bs,
        sentinel_error(),
    )
}

/// Decides whether an output chunk signals the end of the build. The
/// sentinels are plain text, so a byte-level search finds them exactly when
/// the chunk's decoded text contains them.
pub fn chunk_signals_completion(data: &[u8]) -> (r: bool)
    ensures
        r == spec_is_completion(data@),
{
    contains_bytes(data, "Build completed successfully!".as_bytes()) || contains_bytes(
        data,
        "Build failed with exit code".as_bytes(),
    ) || contains_bytes(data, "Process error:".as_bytes())
}

/// Appends a byte slice.
fn push_bytes(out: &mut Vec<u8>, s: &[u8])
    ensures
        final(out)@ == old(out)@ + s@,
{
    let mut i: usize = 0;
    while i < s.len()
        invariant
            i <= s@.len(),
            out@ =~= old(out)@ + s@.take(i as int),
        decreases s@.len() - i,
    {
        out.push(s[i]);
        i += 1;
    }
    proof {
        assert(out@ =~= old(out)@ + s@);
    }
}

/// The chunk announcing a successful build.
pub open spec fn spec_success_message() -> Seq<u8> {
    encode_utf8("\n\u{2713} "@) + sentinel_success() + encode_utf8("\n"@)
}

/// Builds the chunk announcing a successful build; it carries the success
/// sentinel.
pub fn success_message() -> (r: Vec<u8>)
    ensures
        r@ == spec_success_message(),
        spec_is_completion(r@),
{
    let mut v: Vec<u8> = Vec::new();
    push_bytes(&mut v, "\n\u{2713} ".as_bytes());
    let ghost p = v@;
    push_bytes(&mut v, "Build completed successfully!".as_bytes());
    push_bytes(&mut v, "\n".as_bytes());
    proof {
        assert(v@ =~= spec_success_message());
        assert(v@.subrange(p.len() as int, p.len() + sentinel_success().len() as int)
            =~= sentinel_success());
        assert(is_match_at(v@, sentinel_success(), p.len() as int));
    }
    v
}

/// The chunk announcing a failed build with the given exit code.
pub open spec fn spec_failure_message(code: nat) -> Seq<u8> {
    encode_utf8("\n\u{2717} "@) + sentinel_failure() + encode_utf8(": "@) + dec_digits(code)
        + encode_utf8("\n"@)
}

/// Builds the chunk announcing a failed build; it carries the failure
/// sentinel.
pub fn failure_message(code: u32) -> (r: Vec<u8>)
    ensures
        r@ == spec_failure_message(code as nat),
        spec_is_completion(r@),
{
    let mut v: Vec<u8> = Vec::new();
    push_bytes(&mut v, "\n\u{2717} ".as_bytes());
    let ghost p = v@;
    push_bytes(&mut v, "Build failed with exit code".as_bytes());
    push_bytes(&mut v, ": ".as_bytes());
    push_decimal(&mut v, code);
    push_bytes(&mut v, "\n".as_bytes());
    proof {
        assert(v@ =~= spec_failure_message(code as nat));
        assert(v@.subrange(p.len() as int, p.len() + sentinel_failure().len() as int)
            =~= sentinel_failure());
        assert(is_match_at(v@, sentinel_failure(), p.len() as int));
    }
    v
}

/// The chunk announcing a process-level error with the given detail text.
pub open spec fn spec_process_error_message(detail: Seq<char>) -> Seq<u8> {
    encode_utf8("\n\u{2717} "@) + sentinel_error() + encode_utf8(" "@) + encode_utf8(detail)
        + encode_utf8("\n"@)
}

/// Builds the chunk announcing a process-level error (a failed wait, a failed
/// pseudo-terminal allocation, or a failed spawn); it carries the error
/// sentinel, so the session observes such a build as immediately failed.
pub fn process_error_message(detail: &str) -> (r: Vec<u8>)
    ensures
        r@ == spec_process_error_message(detail@),
        spec_is_completion(r@),
{
    let mut v: Vec<u8> = Vec::new();
    push_bytes(&mut v, "\n\u{2717} ".as_bytes());
    let ghost p = v@;
    push_bytes(&mut v, "Process error:".as_bytes());
    push_bytes(&mut v, " ".as_bytes());
    push_bytes(&mut v, detail.as_bytes());
    push_bytes(&mut v, "\n".as_bytes());
    proof {
        assert(v@ =~= spec_process_error_message(detail@));
        assert(v@.subrange(p.len() as int, p.len() + sentinel_error().len() as int)
            =~= sentinel_error());
        assert(is_match_at(v@, sentinel_error(), p.len() as int));
    }
    v
}

} // verus!
