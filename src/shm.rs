use vstd::prelude::*;
use crate::error::Error;

verus! {

/// The character of decimal digit `d`.
pub open spec fn digit_char(d: nat) -> char {
    if d == 0 {
        '0'
    } else if d == 1 {
        '1'
    } else if d == 2 {
        '2'
    } else if d == 3 {
        '3'
    } else if d == 4 {
        '4'
    } else if d == 5 {
        '5'
    } else if d == 6 {
        '6'
    } else if d == 7 {
        '7'
    } else if d == 8 {
        '8'
    } else {
        '9'
    }
}

/// The decimal digits of `n`, most significant first, without leading zeros.
pub open spec fn decimal(n: nat) -> Seq<char>
    decreases n,
{
    if n < 10 {
        seq![digit_char(n)]
    } else {
        decimal(n / 10).push(digit_char(n % 10))
    }
}

fn digit_str(d: u32) -> (r: &'static str)
    requires
        d < 10,
    ensures
        r@ == seq![digit_char(d as nat)],
{
    proof {
        reveal_strlit("0");
        reveal_strlit("1");
        reveal_strlit("2");
        reveal_strlit("3");
        reveal_strlit("4");
        reveal_strlit("5");
        reveal_strlit("6");
        reveal_strlit("7");
        reveal_strlit("8");
        reveal_strlit("9");
    }
    let r = if d == 0 {
        "0"
    } else if d == 1 {
        "1"
    } else if d == 2 {
        "2"
    } else if d == 3 {
        "3"
    } else if d == 4 {
        "4"
    } else if d == 5 {
        "5"
    } else if d == 6 {
        "6"
    } else if d == 7 {
        "7"
    } else if d == 8 {
        "8"
    } else {
        "9"
    };
    assert(r@ =~= seq![digit_char(d as nat)]);
    r
}

fn decimal_string(n: u32) -> (r: String)
    ensures
        r@ == decimal(n as nat),
    decreases n,
{
    if n < 10 {
        String::from_str(digit_str(n))
    } else {
        let mut s = decimal_string(n / 10);
        s.append(digit_str(n % 10));
        s
    }
}

/// The name of the shared-memory object for a fallback allocation:
/// `/libwayshot-` followed by the sub-second nanoseconds of the clock, or by
/// `unknown` when the clock could not be read.
pub open spec fn mem_file_name(nanos: Option<u32>) -> Seq<char> {
    "/libwayshot-"@ + match nanos {
        Some(n) => decimal(n as nat),
        None => "unknown"@,
    }
}

/// Builds the shared-memory object name from the sub-second nanoseconds of
/// the clock, if it could be read.
pub fn get_mem_file_handle(nanos: Option<u32>) -> (r: String)
    ensures
        r@ == mem_file_name(nanos),
{
    let mut name = String::from_str("/libwayshot-");
    match nanos {
        Some(n) => {
            let digits = decimal_string(n);
            name.append(digits.as_str());
        },
        None => {
            name.append("unknown");
        },
    }
    name
}

/// What one attempt to create an anonymous shared-memory file came to.
#[derive(Debug, Clone, Copy, PartialEq, Eq, Structural)]
pub enum ShmOutcome {
    /// The file exists and is ready to be handed over.
    Created,
    /// The call was interrupted; carries the OS error code.
    Interrupted(i32),
    /// The primitive is not available on this system; carries the OS error code.
    Unsupported(i32),
    /// A shared-memory object of that name exists; carries the OS error code.
    NameTaken(i32),
    /// Any other failure; carries the OS error code.
    Failed(i32),
}

/// What to do next while creating a shared-memory file.
#[derive(Debug, Clone, Copy, PartialEq, Eq, Structural)]
pub enum ShmAction {
    /// Create an unlinked, sealable in-memory file.
    TryMemfd,
    /// Open a named shared-memory object and unlink it at once; with
    /// `new_name`, under a freshly generated name.
    TryShmOpen { new_name: bool },
    /// The file is created.
    Done,
    /// Creation failed for good.
    Fail(Error),
}

/// The retry policy for creating a shared-memory file: in-memory files are
/// preferred, named objects are the fallback, and interruptions and name
/// collisions are retried at most `max_retries` times in all.
#[derive(Debug, Clone, Copy, PartialEq, Eq, Structural)]
pub struct ShmCreation {
    pub using_memfd: bool,
    pub retries: u32,
    pub max_retries: u32,
}

/// The policy's answer to `o` in state `s`: the next state and the action.
pub open spec fn shm_step(s: ShmCreation, o: ShmOutcome) -> (ShmCreation, ShmAction) {
    let retry_left = s.retries < s.max_retries;
    let counted = ShmCreation { retries: (s.retries + 1) as u32, ..s };
    match o {
        ShmOutcome::Created => (s, ShmAction::Done),
        ShmOutcome::Failed(e) => (s, ShmAction::Fail(Error::ShmError(e))),
        ShmOutcome::Unsupported(e) => if s.using_memfd {
            (ShmCreation { using_memfd: false, ..s }, ShmAction::TryShmOpen { new_name: true })
        } else {
            (s, ShmAction::Fail(Error::ShmError(e)))
        },
        ShmOutcome::Interrupted(e) => if !retry_left {
            (s, ShmAction::Fail(Error::ShmError(e)))
        } else if s.using_memfd {
            (counted, ShmAction::TryMemfd)
        } else {
            (counted, ShmAction::TryShmOpen { new_name: false })
        },
        ShmOutcome::NameTaken(e) => if !retry_left || s.using_memfd {
            (s, ShmAction::Fail(Error::ShmError(e)))
        } else {
            (counted, ShmAction::TryShmOpen { new_name: true })
        },
    }
}

impl ShmCreation {
    /// A fresh policy; `memfd_available` says whether this system has
    /// in-memory files.
    pub fn new(memfd_available: bool, max_retries: u32) -> (r: ShmCreation)
        ensures
            r == (ShmCreation { using_memfd: memfd_available, retries: 0, max_retries }),
    {
        ShmCreation { using_memfd: memfd_available, retries: 0, max_retries }
    }

    /// The first attempt to make.
    pub fn first_action(&self) -> (r: ShmAction)
        ensures
            r == (if self.using_memfd {
                ShmAction::TryMemfd
            } else {
                ShmAction::TryShmOpen { new_name: true }
            }),
    {
        if self.using_memfd {
            ShmAction::TryMemfd
        } else {
            ShmAction::TryShmOpen { new_name: true }
        }
    }

    /// Records the outcome of the last attempt and says what to do next.
    pub fn step(&mut self, outcome: ShmOutcome) -> (r: ShmAction)
        requires
            old(self).retries <= old(self).max_retries,
        ensures
            (*final(self), r) == shm_step(*old(self), outcome),
    {
        let retry_left = self.retries < self.max_retries;
        match outcome {
            ShmOutcome::Created => ShmAction::Done,
            ShmOutcome::Failed(e) => ShmAction::Fail(Error::ShmError(e)),
            ShmOutcome::Unsupported(e) => {
                if self.using_memfd {
                    self.using_memfd = false;
                    ShmAction::TryShmOpen { new_name: true }
                } else {
                    ShmAction::Fail(Error::ShmError(e))
                }
            },
            ShmOutcome::Interrupted(e) => {
                if !retry_left {
                    ShmAction::Fail(Error::ShmError(e))
                } else {
                    self.retries = self.retries + 1;
                    if self.using_memfd {
                        ShmAction::TryMemfd
                    } else {
                        ShmAction::TryShmOpen { new_name: false }
                    }
                }
            },
            ShmOutcome::NameTaken(e) => {
                if !retry_left || self.using_memfd {
                    ShmAction::Fail(Error::ShmError(e))
                } else {
                    self.retries = self.retries + 1;
                    ShmAction::TryShmOpen { new_name: true }
                }
            },
        }
    }
}

/// How many more attempts the policy may still ask for.
pub open spec fn attempts_left(s: ShmCreation) -> int {
    2 * (s.max_retries - s.retries) + if s.using_memfd {
        1int
    } else {
        0int
    }
}

/// The retry policy is bounded: every step either ends creation or asks for
/// another attempt with strictly fewer attempts left, which never go below
/// zero.
pub proof fn lemma_shm_creation_bounded(s: ShmCreation, o: ShmOutcome)
    requires
        s.retries <= s.max_retries,
    ensures
        ({
            let (n, a) = shm_step(s, o);
            &&& n.retries <= n.max_retries
            &&& n.max_retries == s.max_retries
            &&& attempts_left(n) >= 0
            &&& (a is TryMemfd || a is TryShmOpen) ==> attempts_left(n) < attempts_left(s)
        }),
{
}

} // verus!
