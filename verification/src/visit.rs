//! The visit endpoint: count the visit, then, after a fixed pause, greet.

use vstd::prelude::*;
use crate::counter::SharedCounter;
use crate::reply::{Reply, STATUS_OK};

verus! {

/// Seconds between counting a visit and answering it.
pub const VISIT_DELAY_SECS: u64 = 5;

/// The character that writes the digit `d`.
pub open spec fn spec_digit(d: nat) -> char {
    if d == 0 {
        '0'
    } else if d == 1 {
        '1'
    } else if d == 2 {
        '2'
    } else if d == 3 {
        '3'
    } else if d == 4 {
        '4'
    } else if d == 5 {
        '5'
    } else if d == 6 {
        '6'
    } else if d == 7 {
        '7'
    } else if d == 8 {
        '8'
    } else {
        '9'
    }
}

/// `n` in decimal, most significant digit first, without leading zeros.
pub open spec fn spec_decimal(n: nat) -> Seq<char>
    decreases n,
{
    if n < 10 {
        seq![spec_digit(n)]
    } else {
        spec_decimal(n / 10).push(spec_digit(n % 10))
    }
}

/// The greeting of the service called `name` on its `visits`-th visit.
pub open spec fn spec_greeting(name: Seq<char>, visits: nat) -> Seq<char> {
    "Hello, this is "@ + name + " and it has been visited "@ + spec_decimal(visits) + " times!"@
}

fn digit_text(d: usize) -> (text: &'static str)
    requires
        d < 10,
    ensures
        text@ == seq![spec_digit(d as nat)],
{
    proof {
        reveal_strlit("0");
        reveal_strlit("1");
        reveal_strlit("2");
        reveal_strlit("3");
        reveal_strlit("4");
        reveal_strlit("5");
        reveal_strlit("6");
        reveal_strlit("7");
        reveal_strlit("8");
        reveal_strlit("9");
    }
    if d == 0 {
        "0"
    } else if d == 1 {
        "1"
    } else if d == 2 {
        "2"
    } else if d == 3 {
        "3"
    } else if d == 4 {
        "4"
    } else if d == 5 {
        "5"
    } else if d == 6 {
        "6"
    } else if d == 7 {
        "7"
    } else if d == 8 {
        "8"
    } else {
        "9"
    }
}

fn append_decimal(out: &mut String, n: usize)
    ensures
        final(out)@ == old(out)@ + spec_decimal(n as nat),
    decreases n,
{
    if n >= 10 {
        append_decimal(out, n / 10);
    }
    out.append(digit_text(n % 10));
}

/// `n` in decimal.
pub fn decimal(n: usize) -> (text: String)
    ensures
        text@ == spec_decimal(n as nat),
{
    let mut text = String::new();
    append_decimal(&mut text, n);
    text
}

/// The greeting of the service called `name` on its `visits`-th visit.
pub fn greeting(name: &str, visits: usize) -> (text: String)
    ensures
        text@ == spec_greeting(name@, visits as nat),
{
    let mut text = String::from_str("Hello, this is ");
    text.append(name);
    text.append(" and it has been visited ");
    append_decimal(&mut text, visits);
    text.append(" times!");
    text
}

/// The response to the `visits`-th visit of the service called `name`: a
/// success whose body is the greeting. It declares no content type.
pub fn visit_reply(name: &str, visits: usize) -> (reply: Reply)
    ensures
        reply.status == STATUS_OK,
        reply.content_type is None,
        reply.body@ == spec_greeting(name@, visits as nat),
{
    Reply { status: STATUS_OK, content_type: None, body: greeting(name, visits) }
}

/// What lives as long as the process and is shared by all requests.
pub struct AppState {
    app_name: String,
    counter: SharedCounter,
}

impl AppState {
    /// The name of the service, fixed for the life of the process.
    pub closed spec fn spec_app_name(&self) -> Seq<char> {
        self.app_name@
    }

    /// The visit counter of the service.
    pub closed spec fn spec_counter(&self) -> SharedCounter {
        self.counter
    }

    /// The state of a service called `app_name` that nobody has visited.
    pub fn new(app_name: String) -> (state: Self)
        ensures
            state.spec_app_name() == app_name@,
    {
        AppState { app_name, counter: SharedCounter::new() }
    }

    /// The name of the service.
    pub fn app_name(&self) -> (name: &str)
        ensures
            name@ == self.spec_app_name(),
    {
        self.app_name.as_str()
    }

    /// The visit counter.
    pub fn counter(&self) -> (counter: &SharedCounter)
        ensures
            *counter == self.spec_counter(),
    {
        &self.counter
    }
}

/// A counted visit: its number, and the response that is due once the pause
/// has passed.
#[derive(Debug)]
pub struct Visit {
    /// The count after this visit.
    pub number: usize,
    /// How long to wait before answering, in seconds.
    pub delay_secs: u64,
    /// The response to send after the wait.
    pub reply: Reply,
}

/// Handles a visit. The visit is counted before this returns; the pause
/// comes after, and is the caller's to keep: it must wait `delay_secs`
/// without holding up other requests, and then send `reply`.
pub fn hello(data: &AppState) -> (visit: Visit)
    ensures
        visit.delay_secs == VISIT_DELAY_SECS,
        visit.reply.status == STATUS_OK,
        visit.reply.content_type is None,
        visit.reply.body@ == spec_greeting(data.spec_app_name(), visit.number as nat),
{
    let number = data.counter.increment_and_get();
    Visit { number, delay_secs: VISIT_DELAY_SECS, reply: visit_reply(data.app_name(), number) }
}

} // verus!
