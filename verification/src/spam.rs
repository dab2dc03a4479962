//! Rate limiting: a fixed-window attempt counter per key, and the three
//! counters the bot runs side by side.

use crate::time::duration_from;
use crate::time::duration_nanos;
use crate::time::duration_of;
use crate::time::nanos_between;
use crate::time::elapsed_between;
use crate::time::nanos_of;
use crate::time::Clock;
use crate::time::MAX_DURATION_NANOS;
use std::time::Duration;
use vstd::hash_map::StringHashMap;
use vstd::prelude::*;

verus! {

// Rate limit -----------------------------------------------------------------
/// How many attempts are allowed within one window.
///
/// A limit with no attempts or with an empty window is *unlimited*: it never
/// produces a cooldown.
#[derive(Clone, Copy, Debug)]
pub struct RateLimit {
    max_attempts: usize,
    window: u128,
}

impl RateLimit {
    #[verifier::type_invariant]
    spec fn fits_a_duration(self) -> bool {
        self.window <= MAX_DURATION_NANOS
    }

    /// The number of attempts allowed per window.
    pub closed spec fn attempts(self) -> usize {
        self.max_attempts
    }

    /// The length of the window in nanoseconds.
    pub closed spec fn span(self) -> u128 {
        self.window
    }

    /// Whether the limit never produces a cooldown.
    pub open spec fn unlimited(self) -> bool {
        self.attempts() == 0 || self.span() == 0
    }

    /// The limit of `attempts` attempts per `span` nanoseconds.
    pub closed spec fn of(attempts: usize, span: u128) -> RateLimit {
        RateLimit { max_attempts: attempts, window: span }
    }

    /// The limit of `attempts` attempts per `span` nanoseconds is just that.
    pub proof fn lemma_of(attempts: usize, span: u128)
        ensures
            RateLimit::of(attempts, span).attempts() == attempts,
            RateLimit::of(attempts, span).span() == span,
    {
    }

    /// A limit of `max_attempts` attempts per `duration`.
    pub fn new(max_attempts: usize, duration: Duration) -> (limit: Self)
        ensures
            limit == RateLimit::of(max_attempts, duration_nanos(duration) as u128),
            limit.attempts() == max_attempts,
            limit.span() == duration_nanos(duration),
    {
        Self { max_attempts, window: nanos_of(&duration) }
    }

    /// The number of attempts allowed per window.
    pub fn max_attempts(&self) -> (n: usize)
        ensures
            n == self.attempts(),
    {
        self.max_attempts
    }

    /// The length of the window.
    pub fn duration(&self) -> (d: Duration)
        ensures
            duration_nanos(d) == self.span(),
    {
        proof {
            use_type_invariant(self);
        }
        duration_of(self.window)
    }

    /// Whether the limit never produces a cooldown.
    pub fn is_unlimited(&self) -> (b: bool)
        ensures
            b == self.unlimited(),
    {
        self.max_attempts == 0 || self.window == 0
    }
}

// Usage ----------------------------------------------------------------------
/// What a limiter remembers of one key: the attempts counted in the current
/// window and the clock reading at which that window began.
#[derive(Clone, Copy, Debug)]
pub struct UsageState {
    pub attempts: usize,
    pub window_start: u128,
}

impl UsageState {
    /// A window that begins at `now` and has counted nothing yet.
    pub fn new(now: u128) -> (state: Self)
        ensures
            state == fresh_usage(now),
    {
        Self { attempts: 0, window_start: now }
    }
}

/// A window that begins at `now` and has counted nothing yet.
pub open spec fn fresh_usage(now: u128) -> UsageState {
    UsageState { attempts: 0, window_start: now }
}

/// The window a check at `now` works on: the recorded one, or a fresh one for
/// a key that was never seen.
pub open spec fn usage_or_fresh(prev: Option<UsageState>, now: u128) -> UsageState {
    match prev {
        Some(state) => state,
        None => fresh_usage(now),
    }
}

/// Whether the window of `state` is over at `now`.
pub open spec fn window_over(state: UsageState, limit: RateLimit, now: u128) -> bool {
    elapsed_between(state.window_start, now) >= limit.span()
}

/// The answer of one check at `now`: `None` where the attempt is allowed, else
/// the nanoseconds left until the window is over.
pub open spec fn cooldown_at(prev: Option<UsageState>, limit: RateLimit, now: u128) -> Option<
    u128,
> {
    let state = usage_or_fresh(prev, now);
    if limit.unlimited() || window_over(state, limit, now) || state.attempts < limit.attempts() {
        None
    } else {
        Some((limit.span() - elapsed_between(state.window_start, now)) as u128)
    }
}

/// What is recorded for a key after one check at `now`.
///
/// An unlimited check and a refused one leave the record as it was. A check
/// after the window is over begins a new window with one attempt. Any other
/// counts one more attempt in the running window.
pub open spec fn usage_after(prev: Option<UsageState>, limit: RateLimit, now: u128) -> Option<
    UsageState,
> {
    let state = usage_or_fresh(prev, now);
    if limit.unlimited() {
        prev
    } else if window_over(state, limit, now) {
        Some(UsageState { attempts: 1, window_start: now })
    } else if state.attempts < limit.attempts() {
        Some(UsageState { attempts: (state.attempts + 1) as usize, window_start: state.window_start })
    } else {
        prev
    }
}

/// What a limiter has recorded for `key`, if anything.
pub open spec fn usage_of(usage: Map<Seq<char>, UsageState>, key: Seq<char>) -> Option<
    UsageState,
> {
    if usage.contains_key(key) {
        Some(usage[key])
    } else {
        None
    }
}

/// The records of a limiter after one check of `key` at `now`.
pub open spec fn usages_after(
    usage: Map<Seq<char>, UsageState>,
    key: Seq<char>,
    limit: RateLimit,
    now: u128,
) -> Map<Seq<char>, UsageState> {
    match usage_after(usage_of(usage, key), limit, now) {
        Some(state) => usage.insert(key, state),
        None => usage,
    }
}

/// The limit a check goes by: the one given for this call, else the limiter's
/// own.
pub open spec fn limit_in_force(custom: Option<&RateLimit>, default: RateLimit) -> RateLimit {
    match custom {
        Some(limit) => *limit,
        None => default,
    }
}

/// Whether `answer`, given in `Duration`s, says what `expected` says in
/// nanoseconds.
pub open spec fn same_cooldown(answer: Option<Duration>, expected: Option<u128>) -> bool {
    match answer {
        Some(d) => expected == Some(duration_nanos(d) as u128),
        None => expected is None,
    }
}

// Rate limiter ---------------------------------------------------------------
/// A fixed-window attempt counter per key.
pub struct RateLimiter {
    default_limit: RateLimit,
    usage: StringHashMap<UsageState>,
    clock: Clock,
}

impl View for RateLimiter {
    type V = Map<Seq<char>, UsageState>;

    closed spec fn view(&self) -> Map<Seq<char>, UsageState> {
        self.usage@
    }
}

impl RateLimiter {
    /// The limit that checks go by when none is given.
    pub closed spec fn default_limit(&self) -> RateLimit {
        self.default_limit
    }

    /// A limiter that has seen no key yet.
    pub fn new(default_limit: RateLimit) -> (limiter: Self)
        ensures
            limiter@ == Map::<Seq<char>, UsageState>::empty(),
            limiter.default_limit() == default_limit,
    {
        Self { default_limit, usage: StringHashMap::new(), clock: Clock::start() }
    }

    /// Checks one attempt of `key` at the clock reading `now` and counts it if
    /// it is allowed. Returns the nanoseconds left to wait if it is not.
    pub fn enforce_limit_at(&mut self, key: &str, custom_limit: Option<&RateLimit>, now: u128) -> (answer:
        Option<u128>)
        ensures
            answer == cooldown_at(
                usage_of(old(self)@, key@),
                limit_in_force(custom_limit, old(self).default_limit()),
                now,
            ),
            final(self)@ == usages_after(
                old(self)@,
                key@,
                limit_in_force(custom_limit, old(self).default_limit()),
                now,
            ),
            final(self).default_limit() == old(self).default_limit(),
            answer matches Some(left) ==> 0 < left <= limit_in_force(
                custom_limit,
                old(self).default_limit(),
            ).span() && left <= MAX_DURATION_NANOS,
    {
        let limit: RateLimit = match custom_limit {
            Some(l) => *l,
            None => self.default_limit,
        };
        proof {
            use_type_invariant(limit);
        }
        // no cooldown if no limit, allow all attempts
        if limit.is_unlimited() {
            return None;
        }
        let state: UsageState = match self.usage.get(key) {
            Some(s) => *s,
            None => UsageState::new(now),
        };
        let gone: u128 = nanos_between(state.window_start, now);

        // the window is over: this attempt opens the next one
        if gone >= limit.window {
            self.usage.insert(key.to_owned(), UsageState { attempts: 1, window_start: now });
            return None;
        }
        // within the window
        if state.attempts < limit.max_attempts {
            self.usage.insert(
                key.to_owned(),
                UsageState { attempts: state.attempts + 1, window_start: state.window_start },
            );
            return None;
        }
        Some(limit.window - gone)
    }

    /// Checks one attempt of `key` now, by the limiter's own clock, and counts
    /// it if it is allowed. Returns the time left to wait if it is not.
    ///
    /// The outcome is that of [`RateLimiter::enforce_limit_at`] for the
    /// reading the clock gave.
    pub fn enforce_limit(&mut self, key: &str, custom_limit: Option<&RateLimit>) -> (answer: Option<
        Duration,
    >)
        ensures
            exists|now: u128|
                {
                    &&& same_cooldown(
                        answer,
                        #[trigger] cooldown_at(
                            usage_of(old(self)@, key@),
                            limit_in_force(custom_limit, old(self).default_limit()),
                            now,
                        ),
                    )
                    &&& final(self)@ == usages_after(
                        old(self)@,
                        key@,
                        limit_in_force(custom_limit, old(self).default_limit()),
                        now,
                    )
                },
            final(self).default_limit() == old(self).default_limit(),
    {
        let now: u128 = self.clock.now();
        match self.enforce_limit_at(key, custom_limit, now) {
            Some(left) => Some(duration_of(left)),
            None => None,
        }
    }
}

// Spam handler ---------------------------------------------------------------
/// What the three limiters of a [`Spam`] hold.
pub struct SpamView {
    /// Commands counted per user.
    pub users: Map<Seq<char>, UsageState>,
    /// Invocations counted per command, over all users.
    pub commands: Map<Seq<char>, UsageState>,
    /// Failure notices counted per user.
    pub failures: Map<Seq<char>, UsageState>,
    /// The limit on commands per user.
    pub user_limit: RateLimit,
    /// The limit on invocations per command, unless the command has its own.
    pub command_limit: RateLimit,
    /// The limit on failure notices per user.
    pub failure_limit: RateLimit,
}

impl SpamView {
    /// The answer to a check of `user`'s command rate at `now`.
    pub open spec fn user_cooldown(self, user: Seq<char>, now: u128) -> Option<u128> {
        cooldown_at(usage_of(self.users, user), self.user_limit, now)
    }

    /// The state after a check of `user`'s command rate at `now`.
    pub open spec fn after_user_check(self, user: Seq<char>, now: u128) -> SpamView {
        SpamView { users: usages_after(self.users, user, self.user_limit, now), ..self }
    }

    /// The answer to a check of `command`'s rate at `now`.
    pub open spec fn command_cooldown(
        self,
        command: Seq<char>,
        custom: Option<&RateLimit>,
        now: u128,
    ) -> Option<u128> {
        cooldown_at(
            usage_of(self.commands, command),
            limit_in_force(custom, self.command_limit),
            now,
        )
    }

    /// The state after a check of `command`'s rate at `now`.
    pub open spec fn after_command_check(
        self,
        command: Seq<char>,
        custom: Option<&RateLimit>,
        now: u128,
    ) -> SpamView {
        SpamView {
            commands: usages_after(
                self.commands,
                command,
                limit_in_force(custom, self.command_limit),
                now,
            ),
            ..self
        }
    }

    /// The answer to a check of `user`'s failure notices at `now`.
    pub open spec fn failure_cooldown(self, user: Seq<char>, now: u128) -> Option<u128> {
        cooldown_at(usage_of(self.failures, user), self.failure_limit, now)
    }

    /// The state after a check of `user`'s failure notices at `now`.
    pub open spec fn after_failure_check(self, user: Seq<char>, now: u128) -> SpamView {
        SpamView { failures: usages_after(self.failures, user, self.failure_limit, now), ..self }
    }
}

/// The three rate limits of the bot: commands per user, invocations per
/// command, and failure notices per user.
pub struct Spam {
    user_limiter: RateLimiter,
    global_command_limiter: RateLimiter,
    failed_command_limiter: RateLimiter,
    clock: Clock,
}

impl View for Spam {
    type V = SpamView;

    closed spec fn view(&self) -> SpamView {
        SpamView {
            users: self.user_limiter@,
            commands: self.global_command_limiter@,
            failures: self.failed_command_limiter@,
            user_limit: self.user_limiter.default_limit(),
            command_limit: self.global_command_limiter.default_limit(),
            failure_limit: self.failed_command_limiter.default_limit(),
        }
    }
}

impl Spam {
    /// Three limiters that have seen nothing yet.
    pub fn new(
        user_limit: RateLimit,
        global_command_limit: RateLimit,
        failed_command_limit: RateLimit,
    ) -> (spam: Self)
        ensures
            spam@ == (SpamView {
                users: Map::empty(),
                commands: Map::empty(),
                failures: Map::empty(),
                user_limit,
                command_limit: global_command_limit,
                failure_limit: failed_command_limit,
            }),
    {
        Self {
            user_limiter: RateLimiter::new(user_limit),
            global_command_limiter: RateLimiter::new(global_command_limit),
            failed_command_limiter: RateLimiter::new(failed_command_limit),
            clock: Clock::start(),
        }
    }

    /// The reading of the clock that the checks without a time go by: the
    /// time since the clock was started, which is the length of a `Duration`
    /// and so no more than the longest of them.
    pub fn now(&self) -> (n: u128)
        ensures
            n <= MAX_DURATION_NANOS,
    {
        self.clock.now()
    }

    /// Checks `user_id`'s failure notices at `now`; counts this one if it is
    /// allowed, else returns the nanoseconds left to wait.
    pub fn check_failed_command_cooldown_at(&mut self, user_id: &str, now: u128) -> (answer: Option<
        u128,
    >)
        ensures
            answer == old(self)@.failure_cooldown(user_id@, now),
            final(self)@ == old(self)@.after_failure_check(user_id@, now),
            answer matches Some(left) ==> 0 < left <= old(self)@.failure_limit.span() && left
                <= MAX_DURATION_NANOS,
    {
        self.failed_command_limiter.enforce_limit_at(user_id, None, now)
    }

    /// Checks `user_id`'s command rate at `now`; counts this command if it is
    /// allowed, else returns the nanoseconds left to wait.
    pub fn check_user_command_cooldown_at(&mut self, user_id: &str, now: u128) -> (answer: Option<
        u128,
    >)
        ensures
            answer == old(self)@.user_cooldown(user_id@, now),
            final(self)@ == old(self)@.after_user_check(user_id@, now),
            answer matches Some(left) ==> 0 < left <= old(self)@.user_limit.span() && left
                <= MAX_DURATION_NANOS,
    {
        self.user_limiter.enforce_limit_at(user_id, None, now)
    }

    /// Checks `command`'s rate over all users at `now`, by `custom_limit` if
    /// one is given; counts this invocation if it is allowed, else returns the
    /// nanoseconds left to wait.
    pub fn check_global_command_cooldown_at(
        &mut self,
        command: &str,
        custom_limit: Option<&RateLimit>,
        now: u128,
    ) -> (answer: Option<u128>)
        ensures
            answer == old(self)@.command_cooldown(command@, custom_limit, now),
            final(self)@ == old(self)@.after_command_check(command@, custom_limit, now),
            answer matches Some(left) ==> 0 < left <= limit_in_force(
                custom_limit,
                old(self)@.command_limit,
            ).span() && left <= MAX_DURATION_NANOS,
    {
        self.global_command_limiter.enforce_limit_at(command, custom_limit, now)
    }

    /// Checks the cooldown for failed commands per user and returns the
    /// remaining time if the limit is exceeded.
    pub fn check_failed_command_cooldown(&mut self, user_id: &String) -> (answer: Option<Duration>)
        ensures
            exists|now: u128|
                {
                    &&& same_cooldown(answer, #[trigger] old(self)@.failure_cooldown(user_id@, now))
                    &&& final(self)@ == old(self)@.after_failure_check(user_id@, now)
                },
    {
        let now: u128 = self.clock.now();
        match self.check_failed_command_cooldown_at(user_id.as_str(), now) {
            Some(left) => Some(duration_of(left)),
            None => None,
        }
    }

    /// Checks the cooldown for commands per user and returns the remaining
    /// time if the limit is exceeded.
    pub fn check_user_command_cooldown(&mut self, user_id: &String) -> (answer: Option<Duration>)
        ensures
            exists|now: u128|
                {
                    &&& same_cooldown(answer, #[trigger] old(self)@.user_cooldown(user_id@, now))
                    &&& final(self)@ == old(self)@.after_user_check(user_id@, now)
                },
    {
        let now: u128 = self.clock.now();
        match self.check_user_command_cooldown_at(user_id.as_str(), now) {
            Some(left) => Some(duration_of(left)),
            None => None,
        }
    }

    /// Checks the cooldown for a command over all users and returns the
    /// remaining time if the limit is exceeded.
    pub fn check_global_command_cooldown(
        &mut self,
        command: &String,
        custom_limit: Option<&RateLimit>,
    ) -> (answer: Option<Duration>)
        ensures
            exists|now: u128|
                {
                    &&& same_cooldown(
                        answer,
                        #[trigger] old(self)@.command_cooldown(command@, custom_limit, now),
                    )
                    &&& final(self)@ == old(self)@.after_command_check(command@, custom_limit, now)
                },
    {
        let now: u128 = self.clock.now();
        match self.check_global_command_cooldown_at(command.as_str(), custom_limit, now) {
            Some(left) => Some(duration_of(left)),
            None => None,
        }
    }

    /// [`Spam::check_user_command_cooldown`] for a borrowed user id.
    pub fn update_user_cooldown(&mut self, user_id: &str) -> (answer: Option<Duration>)
        ensures
            exists|now: u128|
                {
                    &&& same_cooldown(answer, #[trigger] old(self)@.user_cooldown(user_id@, now))
                    &&& final(self)@ == old(self)@.after_user_check(user_id@, now)
                },
    {
        let now: u128 = self.clock.now();
        match self.check_user_command_cooldown_at(user_id, now) {
            Some(left) => Some(duration_of(left)),
            None => None,
        }
    }

    /// [`Spam::check_global_command_cooldown`] for a borrowed command name and
    /// the command's own limit.
    pub fn update_global_command_cooldown(&mut self, command_name: &str, rate_limit: &RateLimit) -> (answer:
        Option<Duration>)
        ensures
            exists|now: u128|
                {
                    &&& same_cooldown(
                        answer,
                        #[trigger] old(self)@.command_cooldown(command_name@, Some(rate_limit), now),
                    )
                    &&& final(self)@ == old(self)@.after_command_check(
                        command_name@,
                        Some(rate_limit),
                        now,
                    )
                },
    {
        let now: u128 = self.clock.now();
        match self.check_global_command_cooldown_at(command_name, Some(rate_limit), now) {
            Some(left) => Some(duration_of(left)),
            None => None,
        }
    }

    /// [`Spam::check_failed_command_cooldown`] for a borrowed user id.
    pub fn update_failed_command_cooldown(&mut self, user_id: &str) -> (answer: Option<Duration>)
        ensures
            exists|now: u128|
                {
                    &&& same_cooldown(answer, #[trigger] old(self)@.failure_cooldown(user_id@, now))
                    &&& final(self)@ == old(self)@.after_failure_check(user_id@, now)
                },
    {
        let now: u128 = self.clock.now();
        match self.check_failed_command_cooldown_at(user_id, now) {
            Some(left) => Some(duration_of(left)),
            None => None,
        }
    }
}

/// The limits the bot runs with unless told otherwise.
pub open spec fn default_limits(view: SpamView) -> bool {
    &&& view.user_limit.attempts() == 1
    &&& view.user_limit.span() == 5_000_000_000
    &&& view.command_limit.attempts() == 1
    &&& view.command_limit.span() == 5_000_000_000
    &&& view.failure_limit.attempts() == 2
    &&& view.failure_limit.span() == 30_000_000_000
}

impl Default for Spam {
    /// One command per user every 5 seconds, one invocation per command every
    /// 5 seconds unless the command says otherwise, and two failure notices
    /// per user every 30 seconds.
    fn default() -> (spam: Self)
        ensures
            default_limits(spam@),
            spam@.users == Map::<Seq<char>, UsageState>::empty(),
            spam@.commands == Map::<Seq<char>, UsageState>::empty(),
            spam@.failures == Map::<Seq<char>, UsageState>::empty(),
    {
        Self::new(
            // max any 1 bot command per-user every 5 seconds
            RateLimit::new(1, duration_from(5, 0)),
            // max any 1 bot command by any user every 5 seconds,
            // unless the command brings its own limit
            RateLimit::new(1, duration_from(5, 0)),
            // max any 2 failed command messages in chat, per-user, every 30 seconds
            RateLimit::new(2, duration_from(30, 0)),
        )
    }
}

} // verus!
