use vstd::prelude::*;

verus! {

/// The numbers that the platform gives the four signals a service reacts to.
#[derive(Clone, Copy, Debug)]
pub struct SignalNumbers {
    pub interrupt: i32,
    pub terminate: i32,
    pub user1: i32,
    pub user2: i32,
}

/// The values libc gives `SIGUSR1` over the targets it supports.
pub open spec fn is_user1_number(n: i32) -> bool {
    n == 10 || n == 16 || n == 18 || n == 25 || n == 30
}

/// The values libc gives `SIGUSR2` over the targets it supports.
pub open spec fn is_user2_number(n: i32) -> bool {
    n == 12 || n == 17 || n == 19 || n == 26 || n == 31
}

/// `signal_hook::consts::SIGINT`, which re-exports `libc::SIGINT`: 2 on every target of libc.
#[verifier::external_body]
fn sigint_number() -> (n: i32)
    ensures
        n == 2,
{
    signal_hook::consts::SIGINT
}

/// `signal_hook::consts::SIGTERM`, which re-exports `libc::SIGTERM`: 15 on every target of libc.
#[verifier::external_body]
fn sigterm_number() -> (n: i32)
    ensures
        n == 15,
{
    signal_hook::consts::SIGTERM
}

/// `signal_hook::consts::SIGUSR1`, which re-exports `libc::SIGUSR1`; its value depends on
/// the target, and is one of those that libc defines for its targets.
#[verifier::external_body]
fn sigusr1_number() -> (n: i32)
    ensures
        is_user1_number(n),
{
    signal_hook::consts::SIGUSR1
}

/// `signal_hook::consts::SIGUSR2`, which re-exports `libc::SIGUSR2`; its value depends on
/// the target, and is one of those that libc defines for its targets.
#[verifier::external_body]
fn sigusr2_number() -> (n: i32)
    ensures
        is_user2_number(n),
{
    signal_hook::consts::SIGUSR2
}

impl SignalNumbers {
    /// Every number is positive and no two signals share one, so that 0 is left for
    /// "no signal".
    pub open spec fn valid(self) -> bool {
        &&& self.interrupt > 0
        &&& self.terminate > 0
        &&& self.user1 > 0
        &&& self.user2 > 0
        &&& self.interrupt != self.terminate
        &&& self.interrupt != self.user1
        &&& self.interrupt != self.user2
        &&& self.terminate != self.user1
        &&& self.terminate != self.user2
        &&& self.user1 != self.user2
    }

    /// What is known of the numbers of the platform the crate runs on.
    pub open spec fn platform_like(self) -> bool {
        &&& self.interrupt == 2
        &&& self.terminate == 15
        &&& is_user1_number(self.user1)
        &&& is_user2_number(self.user2)
    }

    /// The signal numbers of the platform.
    pub fn platform() -> (t: SignalNumbers)
        ensures
            t.platform_like(),
            t.valid(),
    {
        SignalNumbers {
            interrupt: sigint_number(),
            terminate: sigterm_number(),
            user1: sigusr1_number(),
            user2: sigusr2_number(),
        }
    }
}

/// A signal a service can be sent.
#[allow(non_camel_case_types)]
#[derive(Clone, Copy, Debug, PartialEq, Eq, Structural)]
pub enum Signal {
    UNKNOWN,
    SIGINT,
    SIGTERM,
    SIGUSR_1,
    SIGUSR_2,
}

impl Signal {
    /// The number of the signal under a table; `UNKNOWN` has 0.
    pub open spec fn spec_number(self, t: SignalNumbers) -> i32 {
        match self {
            Signal::UNKNOWN => 0,
            Signal::SIGINT => t.interrupt,
            Signal::SIGTERM => t.terminate,
            Signal::SIGUSR_1 => t.user1,
            Signal::SIGUSR_2 => t.user2,
        }
    }

    /// The signal that a number stands for under a table; a number of no signal is `UNKNOWN`.
    pub open spec fn spec_from_number(n: i32, t: SignalNumbers) -> Signal {
        if n == t.interrupt {
            Signal::SIGINT
        } else if n == t.terminate {
            Signal::SIGTERM
        } else if n == t.user1 {
            Signal::SIGUSR_1
        } else if n == t.user2 {
            Signal::SIGUSR_2
        } else {
            Signal::UNKNOWN
        }
    }

    /// The signals that stop a service.
    pub open spec fn spec_is_terminate(self) -> bool {
        self is SIGINT || self is SIGTERM
    }

    pub fn is_unknown(&self) -> (r: bool)
        ensures
            r == (*self is UNKNOWN),
    {
        match self {
            Signal::UNKNOWN => true,
            _ => false,
        }
    }

    pub fn is_terminate(&self) -> (r: bool)
        ensures
            r == self.spec_is_terminate(),
    {
        match self {
            Signal::SIGINT | Signal::SIGTERM => true,
            _ => false,
        }
    }

    /// The number of the signal under the given table.
    pub fn number(&self, t: &SignalNumbers) -> (n: i32)
        ensures
            n == self.spec_number(*t),
    {
        match self {
            Signal::UNKNOWN => 0,
            Signal::SIGINT => t.interrupt,
            Signal::SIGTERM => t.terminate,
            Signal::SIGUSR_1 => t.user1,
            Signal::SIGUSR_2 => t.user2,
        }
    }

    /// The signal a number stands for under the given table.
    pub fn from_number(n: i32, t: &SignalNumbers) -> (s: Signal)
        ensures
            s == Signal::spec_from_number(n, *t),
    {
        if n == t.interrupt {
            Signal::SIGINT
        } else if n == t.terminate {
            Signal::SIGTERM
        } else if n == t.user1 {
            Signal::SIGUSR_1
        } else if n == t.user2 {
            Signal::SIGUSR_2
        } else {
            Signal::UNKNOWN
        }
    }
}

impl Signal {
    /// The number of the signal, widened as a `usize`; a valid table has no negative number.
    pub fn number_as_usize(&self, t: &SignalNumbers) -> (n: usize)
        requires
            t.valid(),
        ensures
            n as int == self.spec_number(*t) as int,
    {
        self.number(t) as usize
    }

    /// The signal that a `usize` stands for: the value is cut to a `c_int` first.
    pub fn from_usize_number(n: usize, t: &SignalNumbers) -> (s: Signal)
        ensures
            s == Signal::spec_from_number(n as i32, *t),
    {
        Signal::from_number(n as i32, t)
    }

    /// The text of the signal under a table: `signal: ` and its number.
    pub open spec fn spec_description(self, t: SignalNumbers) -> Seq<char> {
        "signal: "@ + signed_decimal(self.spec_number(t) as int)
    }

    /// The text of the signal under a table.
    pub fn description(&self, t: &SignalNumbers) -> (text: String)
        ensures
            text@ == self.spec_description(*t),
    {
        let prefix = String::from_str("signal: ");
        let digits = signed_decimal_string(self.number(t));
        prefix.concat(digits.as_str())
    }

    /// The platform's number of the signal.
    pub fn to_c_int(&self) -> (n: i32)
        ensures
            exists|t: SignalNumbers| #[trigger] t.platform_like() && n == self.spec_number(t),
            *self is UNKNOWN ==> n == 0,
            *self is SIGINT ==> n == 2,
            *self is SIGTERM ==> n == 15,
            *self is SIGUSR_1 ==> is_user1_number(n),
            *self is SIGUSR_2 ==> is_user2_number(n),
    {
        let t = SignalNumbers::platform();
        self.number(&t)
    }

    /// The signal that a platform number stands for.
    pub fn from_c_int(n: i32) -> (s: Signal)
        ensures
            exists|t: SignalNumbers| #[trigger] t.platform_like() && s == Signal::spec_from_number(n, t),
            n == 2 ==> s is SIGINT,
            n == 15 ==> s is SIGTERM,
            s is SIGUSR_1 ==> is_user1_number(n),
            s is SIGUSR_2 ==> is_user2_number(n),
            !(n == 2 || n == 15 || is_user1_number(n) || is_user2_number(n)) ==> s is UNKNOWN,
    {
        let t = SignalNumbers::platform();
        Signal::from_number(n, &t)
    }

    /// The platform's number of the signal, as a `usize`.
    pub fn to_usize(&self) -> (n: usize)
        ensures
            exists|t: SignalNumbers| #[trigger] t.platform_like() && n as int == self.spec_number(t) as int,
            *self is UNKNOWN ==> n == 0,
            *self is SIGINT ==> n == 2,
            *self is SIGTERM ==> n == 15,
            *self is SIGUSR_1 ==> is_user1_number(n as i32),
            *self is SIGUSR_2 ==> is_user2_number(n as i32),
    {
        let t = SignalNumbers::platform();
        self.number_as_usize(&t)
    }

    /// The signal that a `usize` stands for on the platform.
    pub fn from_usize(n: usize) -> (s: Signal)
        ensures
            exists|t: SignalNumbers| #[trigger] t.platform_like() && s == Signal::spec_from_number(n as i32, t),
            n == 0 ==> s is UNKNOWN,
            n == 2 ==> s is SIGINT,
            n == 15 ==> s is SIGTERM,
    {
        let t = SignalNumbers::platform();
        Signal::from_usize_number(n, &t)
    }

    /// The text of the signal: `signal: ` and its platform number.
    pub fn to_string(&self) -> (text: String)
        ensures
            exists|t: SignalNumbers| #[trigger] t.platform_like() && text@ == self.spec_description(t),
    {
        let t = SignalNumbers::platform();
        self.description(&t)
    }
}

/// A signal stored as a `usize` and read back is the same signal, under any valid table.
pub proof fn lemma_usize_round_trip(s: Signal, t: SignalNumbers)
    requires
        t.valid(),
    ensures
        Signal::spec_from_number((s.spec_number(t) as usize) as i32, t) == s,
{
    assert((s.spec_number(t) as usize) as i32 == s.spec_number(t));
}

/// Only the two stopping signals terminate, and a signal with a number is never unknown.
pub proof fn lemma_terminate_is_known(s: Signal, t: SignalNumbers)
    requires
        t.valid(),
    ensures
        s.spec_is_terminate() ==> !(s is UNKNOWN),
        s.spec_is_terminate() <==> (s.spec_number(t) == t.interrupt || s.spec_number(t) == t.terminate),
{
}

/// Reading the number of a signal back gives the signal, under any valid table.
pub proof fn lemma_number_round_trip(s: Signal, t: SignalNumbers)
    requires
        t.valid(),
    ensures
        Signal::spec_from_number(s.spec_number(t), t) == s,
{
}

/// A number read as a signal and written back is unchanged, unless it stands for no
/// signal, and then it becomes 0.
pub proof fn lemma_from_number_round_trip(n: i32, t: SignalNumbers)
    requires
        t.valid(),
    ensures
        Signal::spec_from_number(n, t) is UNKNOWN ==> Signal::spec_from_number(n, t).spec_number(t) == 0,
        !(Signal::spec_from_number(n, t) is UNKNOWN) ==> Signal::spec_from_number(n, t).spec_number(t) == n,
{
}


/// The character of a decimal digit.
pub open spec fn digit_char(d: nat) -> char {
    (d + 48) as char
}

/// The decimal numeral of a natural number, without leading zeros.
pub open spec fn decimal(n: nat) -> Seq<char>
    decreases n,
{
    if n < 10 {
        seq![digit_char(n)]
    } else {
        decimal(n / 10).push(digit_char(n % 10))
    }
}

/// The decimal numeral of an integer, with a minus sign when it is negative.
pub open spec fn signed_decimal(n: int) -> Seq<char> {
    if n < 0 {
        seq!['-'] + decimal((-n) as nat)
    } else {
        decimal(n as nat)
    }
}

fn digit_str(d: u32) -> (s: &'static str)
    requires
        d < 10,
    ensures
        s@ == seq![digit_char(d as nat)],
{
    proof {
        reveal_strlit("0");
        reveal_strlit("1");
        reveal_strlit("2");
        reveal_strlit("3");
        reveal_strlit("4");
        reveal_strlit("5");
        reveal_strlit("6");
        reveal_strlit("7");
        reveal_strlit("8");
        reveal_strlit("9");
    }
    match d {
        0 => "0",
        1 => "1",
        2 => "2",
        3 => "3",
        4 => "4",
        5 => "5",
        6 => "6",
        7 => "7",
        8 => "8",
        _ => "9",
    }
}

fn unsigned_decimal(n: u32) -> (s: String)
    ensures
        s@ == decimal(n as nat),
    decreases n,
{
    if n < 10 {
        String::from_str(digit_str(n))
    } else {
        let mut s = unsigned_decimal(n / 10);
        s.append(digit_str(n % 10));
        s
    }
}

/// The decimal numeral of a number, as `Display` writes it.
pub fn signed_decimal_string(n: i32) -> (s: String)
    ensures
        s@ == signed_decimal(n as int),
{
    if n < 0 {
        let magnitude: u32 = (0i64 - n as i64) as u32;
        let digits = unsigned_decimal(magnitude);
        let minus = String::from_str("-");
        proof {
            reveal_strlit("-");
        }
        minus.concat(digits.as_str())
    } else {
        unsigned_decimal(n as u32)
    }
}

} // verus!
