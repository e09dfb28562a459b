//! The decisions of the watch loop: which change events start a test run,
//! how the test command is invoked, and how captured output is accumulated.
//!
//! Time is given in milliseconds on a monotonic clock whose origin the caller
//! picks; the caller performs the runs and reports when each one started.
use crate::paths::{filter_allows, path_allowed};
use vstd::prelude::*;
use vstd::string::StringExecFns;
use vstd::utf8::encode_utf8;

verus! {

/// What the watch loop needs to know of the project, fixed at startup.
pub struct Config {
    /// The root of the watched project; the test command runs there.
    pub project_dir: String,
    /// Changes that come sooner than this after the start of the last run
    /// are ignored.
    pub ignore_duration_ms: u64,
    /// Arguments handed to the test command after `test`.
    pub cargo_test_args: Vec<String>,
}

/// The time gone by from `from` to `to`, or zero where `to` is earlier.
pub open spec fn elapsed(from: u64, to: u64) -> nat {
    if to >= from {
        (to - from) as nat
    } else {
        0
    }
}

/// The UTF-8 bytes of an optional path.
pub open spec fn opt_bytes(path: Option<&str>) -> Option<Seq<u8>> {
    match path {
        Some(p) => Some(encode_utf8(p@)),
        None => None,
    }
}

/// The watch loop's state: its configuration and when the last run started.
pub struct Reactor {
    config: Config,
    last_run_at: u64,
}

impl Reactor {
    pub closed spec fn spec_config(&self) -> Config {
        self.config
    }

    pub closed spec fn spec_last_run_at(&self) -> u64 {
        self.last_run_at
    }

    /// The cooldown since the last run has passed at `now`.
    pub open spec fn cooled_down(&self, now: u64) -> bool {
        elapsed(self.spec_last_run_at(), now) >= self.spec_config().ignore_duration_ms
    }

    /// A change event at `now`, with the changed path if it carries one,
    /// starts a run.
    pub open spec fn accepts(&self, now: u64, path: Option<Seq<u8>>) -> bool {
        &&& self.cooled_down(now)
        &&& path matches Some(p)
        &&& path_allowed(encode_utf8(self.spec_config().project_dir@), p)
    }

    /// A reactor whose first run starts at `now`.
    pub fn new(config: Config, now: u64) -> (r: Reactor)
        ensures
            r.spec_config() == config,
            r.spec_last_run_at() == now,
    {
        Reactor { config, last_run_at: now }
    }

    pub fn config(&self) -> (r: &Config)
        ensures
            *r == self.spec_config(),
    {
        &self.config
    }

    pub fn last_run_at(&self) -> (r: u64)
        ensures
            r == self.spec_last_run_at(),
    {
        self.last_run_at
    }

    /// Should a change event at `now` start a test run? Not where it carries
    /// no path, nor where its path is not watched, nor where the last run
    /// started less than the ignore duration before `now`.
    pub fn should_react(&self, now: u64, path: Option<&str>) -> (r: bool)
        ensures
            r == self.accepts(now, opt_bytes(path)),
    {
        let gone = if now >= self.last_run_at {
            now - self.last_run_at
        } else {
            0
        };
        if gone < self.config.ignore_duration_ms {
            return false;
        }
        match path {
            Some(p) => filter_allows(self.config.project_dir.as_str(), p),
            None => false,
        }
    }

    /// Records that a run started at `started_at`.
    pub fn record_run(&mut self, started_at: u64)
        ensures
            final(self).spec_config() == old(self).spec_config(),
            final(self).spec_last_run_at() == started_at,
    {
        self.last_run_at = started_at;
    }

    /// The arguments of the test command: `test`, then the configured ones.
    pub fn test_args(&self) -> (r: Vec<String>)
        ensures
            r@.len() == self.spec_config().cargo_test_args@.len() + 1,
            r@[0]@ == "test"@,
            forall|i: int|
                0 <= i < self.spec_config().cargo_test_args@.len() ==> #[trigger] r@[i + 1]@
                    == self.spec_config().cargo_test_args@[i]@,
    {
        let extra = &self.config.cargo_test_args;
        let mut r: Vec<String> = Vec::new();
        r.push("test".to_owned());
        let mut i: usize = 0;
        while i < extra.len()
            invariant
                i <= extra@.len(),
                r@.len() == i + 1,
                r@[0]@ == "test"@,
                forall|j: int| 0 <= j < i ==> #[trigger] r@[j + 1]@ == extra@[j]@,
            decreases extra@.len() - i,
        {
            r.push(extra[i].clone());
            i = i + 1;
        }
        r
    }
}

/// Appends one captured line of output, and the newline that ended it, to
/// `buffer`.
pub fn append_line(buffer: &mut String, line: &str)
    ensures
        final(buffer)@ == old(buffer)@ + line@ + seq!['\n'],
{
    buffer.append(line);
    buffer.append("\n");
    proof {
        reveal_strlit("\n");
    }
}

/// Debounce: a change accepted at `t1` starts a run, which starts at
/// `started` and is recorded. A second change less than the ignore duration
/// after the first then starts no run, whatever its path; a change of a
/// watched path once the ignore duration has passed since the run started
/// starts another.
pub proof fn lemma_debounce(
    before: Reactor,
    after: Reactor,
    t1: u64,
    started: u64,
    t2: u64,
    first: Option<Seq<u8>>,
    second: Option<Seq<u8>>,
)
    requires
        before.accepts(t1, first),
        t1 <= started,
        after.spec_config() == before.spec_config(),
        after.spec_last_run_at() == started,
        t1 <= t2,
    ensures
        t2 < t1 + before.spec_config().ignore_duration_ms ==> !after.accepts(t2, second),
        t2 >= started + before.spec_config().ignore_duration_ms && second is Some && path_allowed(
            encode_utf8(before.spec_config().project_dir@),
            second->0,
        ) ==> after.accepts(t2, second),
{
}

} // verus!
