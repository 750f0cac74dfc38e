//! How a failure is reported to the calling process.
//!
//! A failure is classified by what kind of error it is and, failing that, by
//! what its messages say. The kinds follow the BSD conventions of `sysexits.h`.

use vstd::prelude::*;
use vstd::string::*;
use crate::split::{contains_text, has_substring};
use crate::text::{join, joined, texts_of};

verus! {

/// What is known of a failure.
#[derive(Debug, Clone)]
pub struct Failure {
    /// The message of the error and those of its causes, outermost first.
    pub chain: Vec<String>,
    /// The error or one of its causes is an I/O error of the kind "not found".
    pub io_not_found: bool,
    /// The error itself is an I/O error.
    pub is_io: bool,
    /// The error itself is an error of the HTTP client.
    pub is_network: bool,
}

/// The kinds of exit.
#[derive(Debug, Clone, Copy, PartialEq, Eq, Structural)]
pub enum ExitKind {
    /// The command was used incorrectly.
    Usage,
    /// An input file did not exist or was not readable.
    NoInput,
    /// A service is unavailable.
    Unavailable,
    /// An internal software error.
    Software,
    /// An error occurred while doing I/O.
    IoError,
    /// Insufficient permission.
    NoPermission,
    /// Something was found unconfigured or misconfigured.
    Config,
}

impl ExitKind {
    /// The exit code of the kind.
    pub fn code(&self) -> (code: i32)
        ensures
            code == match *self {
                ExitKind::Usage => 64i32,
                ExitKind::NoInput => 66i32,
                ExitKind::Unavailable => 69i32,
                ExitKind::Software => 70i32,
                ExitKind::IoError => 74i32,
                ExitKind::NoPermission => 77i32,
                ExitKind::Config => 78i32,
            },
    {
        match self {
            ExitKind::Usage => 64,
            ExitKind::NoInput => 66,
            ExitKind::Unavailable => 69,
            ExitKind::Software => 70,
            ExitKind::IoError => 74,
            ExitKind::NoPermission => 77,
            ExitKind::Config => 78,
        }
    }
}

/// `text` in lower case, as Unicode defines it.
pub uninterp spec fn lowercase_of(text: Seq<char>) -> Seq<char>;

/// Converts a text to lower case.
///
/// Calls `str::to_lowercase`. Trusted: the result depends on the text alone.
#[verifier::external_body]
pub(crate) fn lowercase(text: &str) -> (lower: String)
    ensures
        lower@ == lowercase_of(text@),
{
    text.to_lowercase()
}

/// The messages in lower case.
pub open spec fn lowered(chain: Seq<String>) -> Seq<Seq<char>> {
    chain.map_values(|message: String| lowercase_of(message@))
}

impl Failure {
    /// The outermost message in lower case; empty if there is no message.
    pub open spec fn message_text(self) -> Seq<char> {
        if self.chain@.len() > 0 {
            lowercase_of(self.chain@[0]@)
        } else {
            Seq::empty()
        }
    }

    /// All messages in lower case, separated by single spaces.
    pub open spec fn chain_text(self) -> Seq<char> {
        joined(lowered(self.chain@), " "@)
    }
}

/// The kind of exit for what a failure is and what its messages say in lower
/// case. The first rule that applies decides:
///
/// 1. a missing file, by kind or by message, or empty input: `NoInput`;
/// 2. another I/O error, by kind or by message: `IoError`;
/// 3. a problem with the credential: `NoPermission`;
/// 4. a problem with the network: `Unavailable`;
/// 5. a problem with the configuration: `Config`;
/// 6. invalid or missing arguments: `Usage`;
/// 7. anything else: `Software`.
pub open spec fn exit_kind(
    message: Seq<char>,
    chain: Seq<char>,
    io_not_found: bool,
    is_io: bool,
    is_network: bool,
) -> ExitKind {
    if io_not_found {
        ExitKind::NoInput
    } else if has_substring(chain, "no such file"@) || has_substring(chain, "failed to read"@)
        || has_substring(chain, "failed to open"@) || (has_substring(message, "input"@)
        && has_substring(message, "empty"@)) {
        ExitKind::NoInput
    } else if is_io || has_substring(chain, "permission denied"@) || has_substring(
        chain,
        "failed to write"@,
    ) || has_substring(chain, "failed to create"@) {
        ExitKind::IoError
    } else if has_substring(message, "api key"@) || has_substring(message, "api_key"@)
        || has_substring(message, "unauthorized"@) || has_substring(message, "authentication"@)
        || has_substring(message, "401"@) || has_substring(chain, "api key"@) {
        ExitKind::NoPermission
    } else if is_network || has_substring(message, "connection"@) || has_substring(
        message,
        "timeout"@,
    ) || has_substring(message, "network"@) || has_substring(message, "dns"@) || has_substring(
        message,
        "failed to connect"@,
    ) || has_substring(chain, "connection refused"@) {
        ExitKind::Unavailable
    } else if has_substring(chain, "config"@) || has_substring(message, "provider"@)
        || has_substring(message, "not configured"@) {
        ExitKind::Config
    } else if has_substring(message, "invalid"@) || has_substring(message, "missing"@)
        || has_substring(message, "not found"@) || has_substring(message, "required"@)
        || has_substring(message, "unsupported language"@) {
        ExitKind::Usage
    } else {
        ExitKind::Software
    }
}

/// Classifies what the messages say, given what the error is.
pub fn classify_messages(
    message: &str,
    chain: &str,
    io_not_found: bool,
    is_io: bool,
    is_network: bool,
) -> (kind: ExitKind)
    ensures
        kind == exit_kind(message@, chain@, io_not_found, is_io, is_network),
{
    if io_not_found {
        return ExitKind::NoInput;
    }
    if contains_text(chain, "no such file") || contains_text(chain, "failed to read")
        || contains_text(chain, "failed to open") || (contains_text(message, "input")
        && contains_text(message, "empty")) {
        return ExitKind::NoInput;
    }
    if is_io || contains_text(chain, "permission denied") || contains_text(
        chain,
        "failed to write",
    ) || contains_text(chain, "failed to create") {
        return ExitKind::IoError;
    }
    if contains_text(message, "api key") || contains_text(message, "api_key") || contains_text(
        message,
        "unauthorized",
    ) || contains_text(message, "authentication") || contains_text(message, "401")
        || contains_text(chain, "api key") {
        return ExitKind::NoPermission;
    }
    if is_network || contains_text(message, "connection") || contains_text(message, "timeout")
        || contains_text(message, "network") || contains_text(message, "dns") || contains_text(
        message,
        "failed to connect",
    ) || contains_text(chain, "connection refused") {
        return ExitKind::Unavailable;
    }
    if contains_text(chain, "config") || contains_text(message, "provider") || contains_text(
        message,
        "not configured",
    ) {
        return ExitKind::Config;
    }
    if contains_text(message, "invalid") || contains_text(message, "missing") || contains_text(
        message,
        "not found",
    ) || contains_text(message, "required") || contains_text(message, "unsupported language") {
        return ExitKind::Usage;
    }
    ExitKind::Software
}

/// Classify a failure and return the kind of exit.
pub fn classify_error(failure: &Failure) -> (kind: ExitKind)
    ensures
        kind == exit_kind(
            failure.message_text(),
            failure.chain_text(),
            failure.io_not_found,
            failure.is_io,
            failure.is_network,
        ),
{
    let mut lower: Vec<String> = Vec::new();
    let mut i: usize = 0;
    assert(texts_of(lower@) =~= lowered(failure.chain@).take(0));
    while i < failure.chain.len()
        invariant
            i <= failure.chain@.len(),
            texts_of(lower@) == lowered(failure.chain@).take(i as int),
        decreases failure.chain@.len() - i,
    {
        let ghost listed = texts_of(lower@);
        lower.push(lowercase(failure.chain[i].as_str()));
        assert(texts_of(lower@) =~= listed.push(lowercase_of(failure.chain@[i as int]@)));
        assert(lowered(failure.chain@).take(i + 1) =~= lowered(failure.chain@).take(i as int).push(
            lowered(failure.chain@)[i as int],
        ));
        i += 1;
    }
    assert(lowered(failure.chain@).take(i as int) =~= lowered(failure.chain@));
    let chain = join(&lower, " ");
    assert(texts_of(lower@).len() == lower@.len());
    assert(lowered(failure.chain@).len() == failure.chain@.len());
    proof {
        reveal_strlit("");
        assert(""@ =~= Seq::<char>::empty());
    }
    if lower.len() > 0 {
        assert(texts_of(lower@)[0] == lower@[0]@);
        assert(lowered(failure.chain@)[0] == lowercase_of(failure.chain@[0]@));
        classify_messages(
            lower[0].as_str(),
            chain.as_str(),
            failure.io_not_found,
            failure.is_io,
            failure.is_network,
        )
    } else {
        classify_messages(
            "",
            chain.as_str(),
            failure.io_not_found,
            failure.is_io,
            failure.is_network,
        )
    }
}

} // verus!
