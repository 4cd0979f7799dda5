//! Severity levels and their textual tags.

use vstd::prelude::*;

verus! {

/// The severity of a log record.
#[allow(clippy::upper_case_acronyms)]
#[derive(Debug, Clone, Copy, PartialEq, Eq, Structural)]
pub enum LogLevel {
    INFO,
    WARN,
    ERROR,
    DEBUG,
}

impl LogLevel {
    /// The tag of a level: its own name, letter for letter.
    pub open spec fn tag(self) -> Seq<char> {
        match self {
            LogLevel::INFO => seq!['I', 'N', 'F', 'O'],
            LogLevel::WARN => seq!['W', 'A', 'R', 'N'],
            LogLevel::ERROR => seq!['E', 'R', 'R', 'O', 'R'],
            LogLevel::DEBUG => seq!['D', 'E', 'B', 'U', 'G'],
        }
    }

    /// The tag as a string slice.
    pub fn as_str(&self) -> (s: &'static str)
        ensures
            s@ == self.tag(),
    {
        proof {
            reveal_strlit("INFO");
            reveal_strlit("WARN");
            reveal_strlit("ERROR");
            reveal_strlit("DEBUG");
        }
        match self {
            LogLevel::INFO => {
                assert("INFO"@ =~= LogLevel::INFO.tag());
                "INFO"
            },
            LogLevel::WARN => {
                assert("WARN"@ =~= LogLevel::WARN.tag());
                "WARN"
            },
            LogLevel::ERROR => {
                assert("ERROR"@ =~= LogLevel::ERROR.tag());
                "ERROR"
            },
            LogLevel::DEBUG => {
                assert("DEBUG"@ =~= LogLevel::DEBUG.tag());
                "DEBUG"
            },
        }
    }

    /// The tag as an owned string: what the level reads as when it is shown.
    #[allow(clippy::inherent_to_string)]
    pub fn to_string(&self) -> (s: String)
        ensures
            s@ == self.tag(),
    {
        self.as_str().to_owned()
    }

    /// Two levels with the same tag are the same level.
    pub proof fn lemma_tag_injective(a: LogLevel, b: LogLevel)
        requires
            a.tag() == b.tag(),
        ensures
            a == b,
    {
        assert(a.tag().len() == b.tag().len());
        assert(a.tag()[0] == b.tag()[0]);
    }
}

} // verus!
