//! The catalogue of intercepted operations.
//!
//! Each operation has a name, by which the configuration refers to it, the
//! error that an injected failure of it reports, and for some an exclusion
//! rule over the descriptor it is called on.

use vstd::prelude::*;
use crate::config::{is_plain, is_whitespace, lemma_single_token, lemma_trim, lists};
use crate::failure::ErrorCode;

verus! {

/// The highest of the descriptors of the standard streams.
pub const LAST_STANDARD_STREAM: i32 = 2;

/// An intercepted operation.
#[derive(Clone, Copy, Debug, PartialEq, Eq, Structural)]
pub enum Operation {
    Open,
    Read,
    Write,
    Socket,
    Connect,
    Sendto,
}

impl Operation {
    /// The name of the operation, as the configuration writes it.
    pub open spec fn spec_name(self) -> Seq<char> {
        match self {
            Operation::Open => "open"@,
            Operation::Read => "read"@,
            Operation::Write => "write"@,
            Operation::Socket => "socket"@,
            Operation::Connect => "connect"@,
            Operation::Sendto => "sendto"@,
        }
    }

    /// The error that an injected failure of the operation reports.
    pub open spec fn spec_error_code(self) -> ErrorCode {
        match self {
            Operation::Open => ErrorCode::Interrupted,
            Operation::Read => ErrorCode::Interrupted,
            Operation::Write => ErrorCode::Interrupted,
            Operation::Socket => ErrorCode::NoBufferSpace,
            Operation::Connect => ErrorCode::Interrupted,
            Operation::Sendto => ErrorCode::NoBufferSpace,
        }
    }

    /// Whether a call of the operation on descriptor `fd` is excluded from
    /// injection: reads and writes on the standard streams are.
    pub open spec fn spec_spares(self, fd: i32) -> bool {
        (self == Operation::Read || self == Operation::Write) && fd <= LAST_STANDARD_STREAM
    }

    /// The name of the operation, as the configuration writes it.
    pub fn name(self) -> (name: &'static str)
        ensures
            name@ == self.spec_name(),
            !name@.contains('\0'),
    {
        proof {
            self.lemma_name_is_a_word();
        }
        match self {
            Operation::Open => "open",
            Operation::Read => "read",
            Operation::Write => "write",
            Operation::Socket => "socket",
            Operation::Connect => "connect",
            Operation::Sendto => "sendto",
        }
    }

    /// The error that an injected failure of the operation reports.
    #[verifier::when_used_as_spec(spec_error_code)]
    pub fn error_code(self) -> (code: ErrorCode)
        ensures
            code == self.spec_error_code(),
    {
        match self {
            Operation::Open | Operation::Read | Operation::Write | Operation::Connect => {
                ErrorCode::Interrupted
            },
            Operation::Socket | Operation::Sendto => ErrorCode::NoBufferSpace,
        }
    }

    /// Tells whether a call of the operation on descriptor `fd` is excluded
    /// from injection.
    #[verifier::when_used_as_spec(spec_spares)]
    pub fn spares(self, fd: i32) -> (spared: bool)
        ensures
            spared == self.spec_spares(fd),
    {
        match self {
            Operation::Read | Operation::Write => fd <= LAST_STANDARD_STREAM,
            _ => false,
        }
    }
}

impl Operation {
    /// A name is a word of lower-case ASCII letters: it is not empty and
    /// holds no separator, no whitespace and no NUL.
    pub proof fn lemma_name_is_a_word(self)
        ensures
            self.spec_name().len() > 0,
            forall|k: int|
                0 <= k < self.spec_name().len() ==> 'a' <= #[trigger] self.spec_name()[k] <= 'z',
            is_plain(self.spec_name()),
            !self.spec_name().contains('\0'),
            forall|k: int|
                0 <= k < self.spec_name().len() ==> !is_whitespace(#[trigger] self.spec_name()[k]),
    {
        reveal_strlit("open");
        reveal_strlit("read");
        reveal_strlit("write");
        reveal_strlit("socket");
        reveal_strlit("connect");
        reveal_strlit("sendto");
    }

    /// No two operations share a name.
    pub proof fn lemma_names_differ(self, other: Operation)
        ensures
            self.spec_name() == other.spec_name() <==> self == other,
    {
        reveal_strlit("open");
        reveal_strlit("read");
        reveal_strlit("write");
        reveal_strlit("socket");
        reveal_strlit("connect");
        reveal_strlit("sendto");
        if self != other {
            let a = self.spec_name();
            let b = other.spec_name();
            assert(a.len() != b.len() || a[0] != b[0] || a[1] != b[1]);
        }
    }

    /// A configuration that consists of one operation's name enables that
    /// operation and no other.
    pub proof fn lemma_name_enables_itself_alone(self, other: Operation)
        ensures
            lists(self.spec_name(), other.spec_name()) <==> self == other,
    {
        let name = self.spec_name();
        self.lemma_name_is_a_word();
        self.lemma_names_differ(other);
        lemma_single_token(name, other.spec_name());
        lemma_trim(name, 0, name.len() as int);
        assert(name.subrange(0, name.len() as int) =~= name);
    }
}

} // verus!
