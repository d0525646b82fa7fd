//! The single-instance lock's pure half: given what the daemon
//! observed about the lock file, decide whether to claim the lock or
//! give up, and render the process id that a claimed lock records.
use vstd::prelude::*;
use vstd::string::StringExecFns;

verus! {

/// What an acquisition attempt observed about the lock file.
#[derive(PartialEq, Eq, Structural, Clone, Copy, Debug)]
pub enum LockObservation {
    /// No lock file exists.
    Absent,
    /// A lock file exists but its content could not be read.
    Unreadable,
    /// A lock file names a process; `owner_alive` says whether that
    /// process still exists.
    Held { owner_alive: bool },
}

/// The outcome of an acquisition attempt.
#[derive(PartialEq, Eq, Structural, Clone, Copy, Debug)]
pub enum LockDecision {
    /// Claim the lock: write the current process id over whatever is
    /// there.
    WriteOwnPid,
    /// Another live instance holds the lock; the caller must exit.
    AlreadyRunning,
}

/// Acquisition fails exactly when the lock file names a live process;
/// an absent file, an unreadable one, and a stale lock are all
/// claimed.
pub open spec fn spec_lock_decision(obs: LockObservation) -> LockDecision {
    if obs == (LockObservation::Held { owner_alive: true }) {
        LockDecision::AlreadyRunning
    } else {
        LockDecision::WriteOwnPid
    }
}

/// Decide one acquisition attempt.
pub fn lock_decision(obs: LockObservation) -> (d: LockDecision)
    ensures
        d == spec_lock_decision(obs),
        (d == LockDecision::AlreadyRunning) <==> (obs == LockObservation::Held { owner_alive: true }),
{
    match obs {
        LockObservation::Held { owner_alive: true } => LockDecision::AlreadyRunning,
        _ => LockDecision::WriteOwnPid,
    }
}

/// The decimal digits of `n`, most significant first.
pub open spec fn spec_decimal(n: nat) -> Seq<char>
    decreases n,
{
    if n < 10 {
        seq![spec_digit_char(n)]
    } else {
        spec_decimal(n / 10) + seq![spec_digit_char(n % 10)]
    }
}

/// The digit character for a value below ten.
pub open spec fn spec_digit_char(d: nat) -> char {
    if d == 0 {
        '0'
    } else if d == 1 {
        '1'
    } else if d == 2 {
        '2'
    } else if d == 3 {
        '3'
    } else if d == 4 {
        '4'
    } else if d == 5 {
        '5'
    } else if d == 6 {
        '6'
    } else if d == 7 {
        '7'
    } else if d == 8 {
        '8'
    } else {
        '9'
    }
}

fn digit_string(d: u64) -> (s: String)
    requires
        d < 10,
    ensures
        s@ == seq![spec_digit_char(d as nat)],
{
    let s: &str = if d == 0 {
        "0"
    } else if d == 1 {
        "1"
    } else if d == 2 {
        "2"
    } else if d == 3 {
        "3"
    } else if d == 4 {
        "4"
    } else if d == 5 {
        "5"
    } else if d == 6 {
        "6"
    } else if d == 7 {
        "7"
    } else if d == 8 {
        "8"
    } else {
        "9"
    };
    proof {
        reveal_strlit("0");
        reveal_strlit("1");
        reveal_strlit("2");
        reveal_strlit("3");
        reveal_strlit("4");
        reveal_strlit("5");
        reveal_strlit("6");
        reveal_strlit("7");
        reveal_strlit("8");
        reveal_strlit("9");
        assert(s@ =~= seq![spec_digit_char(d as nat)]);
    }
    s.to_owned()
}

/// Render a process id as the decimal text a claimed lock file holds.
pub fn pid_text(pid: u64) -> (s: String)
    ensures
        s@ == spec_decimal(pid as nat),
    decreases pid,
{
    if pid < 10 {
        digit_string(pid)
    } else {
        let mut s = pid_text(pid / 10);
        let last = digit_string(pid % 10);
        s.append(last.as_str());
        proof {
            assert(s@ =~= spec_decimal(pid as nat));
        }
        s
    }
}

} // verus!
