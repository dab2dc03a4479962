//! Simple spam checks: a counter of commands per user, a pause between two
//! uses of a command, and a pause after too many failed commands.

use crate::time::duration_from;
use crate::time::duration_nanos;
use crate::time::duration_of;
use crate::time::elapsed_between;
use crate::time::nanos_between;
use crate::time::nanos_of;
use crate::time::Clock;
use crate::time::MAX_DURATION_NANOS;
use std::time::Duration;
use vstd::hash_map::StringHashMap;
use vstd::prelude::*;

verus! {

/// One more than `n`, as far as a counter can count.
pub open spec fn counted(n: usize) -> usize {
    if n < usize::MAX {
        (n + 1) as usize
    } else {
        n
    }
}

/// What an [`ErrorSpamCheck`] holds.
pub struct ErrorSpamView {
    /// Maximum number of errors allowed before triggering a cooldown
    pub max_errors_allowed: usize,
    /// Duration of the error cooldown, in nanoseconds
    pub cooldown: u128,
    /// The start time of the error cooldown of each user that is under one
    pub cooldowns: Map<Seq<char>, u128>,
    /// The current error count of each user
    pub counts: Map<Seq<char>, usize>,
}

impl ErrorSpamView {
    /// Whether `user` is still under an error cooldown at `now`.
    pub open spec fn cooling(self, user: Seq<char>, now: u128) -> bool {
        self.cooldowns.contains_key(user) && elapsed_between(self.cooldowns[user], now)
            < self.cooldown
    }

    /// The errors counted for `user` at `now`, this one included: a cooldown
    /// that is over takes the count with it.
    pub open spec fn count_at(self, user: Seq<char>, now: u128) -> usize {
        if self.counts.contains_key(user) && !self.cooldowns.contains_key(user) {
            counted(self.counts[user])
        } else {
            1
        }
    }

    /// The answer to one more error of `user` at `now`: the time left of a
    /// running cooldown, the whole cooldown where this error begins one, and
    /// `None` where the error is allowed.
    pub open spec fn answer(self, user: Seq<char>, now: u128) -> Option<u128> {
        if self.max_errors_allowed == 0 {
            None
        } else if self.cooling(user, now) {
            Some((self.cooldown - elapsed_between(self.cooldowns[user], now)) as u128)
        } else if self.count_at(user, now) > self.max_errors_allowed {
            Some(self.cooldown)
        } else {
            None
        }
    }

    /// The state after one more error of `user` at `now`.
    pub open spec fn after(self, user: Seq<char>, now: u128) -> ErrorSpamView {
        if self.max_errors_allowed == 0 || self.cooling(user, now) {
            self
        } else if self.count_at(user, now) > self.max_errors_allowed {
            ErrorSpamView {
                cooldowns: self.cooldowns.insert(user, now),
                counts: self.counts.insert(user, self.count_at(user, now)),
                ..self
            }
        } else {
            ErrorSpamView {
                cooldowns: self.cooldowns.remove(user),
                counts: self.counts.insert(user, self.count_at(user, now)),
                ..self
            }
        }
    }
}

/// Helps rate limit the spam of failed commands
pub struct ErrorSpamCheck {
    /// Maximum number of errors allowed before triggering a cooldown
    max_errors_allowed: usize,
    /// Duration of the error cooldown
    error_cooldown_duration: u128,
    /// Maps user ID to the start time of their error cooldown
    user_error_cooldowns: StringHashMap<u128>,
    /// Maps user ID to their current error count
    user_error_counts: StringHashMap<usize>,
    clock: Clock,
}

impl View for ErrorSpamCheck {
    type V = ErrorSpamView;

    closed spec fn view(&self) -> ErrorSpamView {
        ErrorSpamView {
            max_errors_allowed: self.max_errors_allowed,
            cooldown: self.error_cooldown_duration,
            cooldowns: self.user_error_cooldowns@,
            counts: self.user_error_counts@,
        }
    }
}

impl ErrorSpamCheck {
    #[verifier::type_invariant]
    spec fn fits_a_duration(self) -> bool {
        self.error_cooldown_duration <= MAX_DURATION_NANOS
    }

    /// A check that has seen no error yet.
    pub fn new(max_errors_allowed: usize, error_cooldown_duration: Duration) -> (check: Self)
        ensures
            check@ == (ErrorSpamView {
                max_errors_allowed,
                cooldown: duration_nanos(error_cooldown_duration) as u128,
                cooldowns: Map::empty(),
                counts: Map::empty(),
            }),
    {
        Self {
            max_errors_allowed,
            error_cooldown_duration: nanos_of(&error_cooldown_duration),
            user_error_cooldowns: StringHashMap::new(),
            user_error_counts: StringHashMap::new(),
            clock: Clock::start(),
        }
    }

    /// Counts one more error of `user_id` at `now`; returns the nanoseconds
    /// of cooldown left if the user is under one.
    pub fn update_error_cooldown_at(&mut self, user_id: &str, now: u128) -> (left: Option<u128>)
        ensures
            left == old(self)@.answer(user_id@, now),
            final(self)@ == old(self)@.after(user_id@, now),
            left matches Some(n) ==> n <= MAX_DURATION_NANOS,
    {
        proof {
            use_type_invariant(&*self);
        }
        if self.max_errors_allowed == 0 {
            return None;
        }
        let ghost before = self@;
        let mut cooled: bool = false;
        match self.user_error_cooldowns.get(user_id) {
            Some(cooldown_start) => {
                let gone: u128 = nanos_between(*cooldown_start, now);
                if gone < self.error_cooldown_duration {
                    // User is still under error cooldown
                    return Some(self.error_cooldown_duration - gone);
                }
                cooled = true;
            },
            None => {},
        }
        let error_count: usize = if cooled {
            // Cooldown expired, the error count starts again
            1
        } else {
            match self.user_error_counts.get(user_id) {
                Some(count) => if *count < usize::MAX {
                    *count + 1
                } else {
                    *count
                },
                None => 1,
            }
        };
        let mut counts: StringHashMap<usize> = StringHashMap::new();
        std::mem::swap(&mut counts, &mut self.user_error_counts);
        counts.insert(user_id.to_owned(), error_count);
        std::mem::swap(&mut counts, &mut self.user_error_counts);
        let mut cooldowns: StringHashMap<u128> = StringHashMap::new();
        std::mem::swap(&mut cooldowns, &mut self.user_error_cooldowns);
        let left: Option<u128> = if error_count > self.max_errors_allowed {
            // Trigger error cooldown
            cooldowns.insert(user_id.to_owned(), now);
            Some(self.error_cooldown_duration)
        } else {
            cooldowns.remove(user_id);
            None
        };
        std::mem::swap(&mut cooldowns, &mut self.user_error_cooldowns);
        assert(self@.cooldowns =~= before.after(user_id@, now).cooldowns);
        assert(self@.counts =~= before.after(user_id@, now).counts);
        left
    }

    /// Updates the error cooldown state for a user, returns remaining cooldown time if active
    /// To be used only after a failed command, since this internally updates an error count
    pub fn update_error_cooldown(&mut self, user_id: &str) -> (left: Option<Duration>)
        ensures
            exists|now: u128|
                {
                    &&& final(self)@ == #[trigger] old(self)@.after(user_id@, now)
                    &&& match left {
                        Some(d) => old(self)@.answer(user_id@, now) == Some(
                            duration_nanos(d) as u128,
                        ),
                        None => old(self)@.answer(user_id@, now) is None,
                    }
                },
    {
        let now: u128 = self.clock.now();
        match self.update_error_cooldown_at(user_id, now) {
            Some(n) => Some(duration_of(n)),
            None => None,
        }
    }
}

impl Default for ErrorSpamCheck {
    /// Two errors are allowed; the third begins a cooldown of 30 seconds.
    fn default() -> (check: Self)
        ensures
            check@ == (ErrorSpamView {
                max_errors_allowed: 2,
                cooldown: 30_000_000_000,
                cooldowns: Map::empty(),
                counts: Map::empty(),
            }),
    {
        Self::new(2, duration_from(30, 0))
    }
}

// ----------------------------------------------------------------------------
/// What a [`SpamCheck`] holds, but for its error check.
pub struct SpamCheckView {
    /// Maximum number of commands a user is allowed to send within the window
    pub command_threshold: usize,
    /// The window within which the commands are counted, in nanoseconds
    pub window: u128,
    /// The command count of each user and the time at which the count began
    pub users: Map<Seq<char>, (usize, u128)>,
    /// The time of the last execution of each command
    pub commands: Map<Seq<char>, u128>,
}

impl SpamCheckView {
    /// The commands counted for `user` at `now`, this one included. The count
    /// begins again once more than the window has passed since it began.
    pub open spec fn count_at(self, user: Seq<char>, now: u128) -> (usize, u128) {
        if self.users.contains_key(user) && elapsed_between(self.users[user].1, now)
            <= self.window {
            (counted(self.users[user].0), self.users[user].1)
        } else {
            (1, now)
        }
    }

    /// Whether one more command of `user` at `now` is spam.
    pub open spec fn is_spam(self, user: Seq<char>, now: u128) -> bool {
        self.command_threshold != 0 && self.count_at(user, now).0 > self.command_threshold
    }

    /// The state after one more command of `user` at `now`.
    pub open spec fn after_command(self, user: Seq<char>, now: u128) -> SpamCheckView {
        if self.command_threshold == 0 {
            self
        } else {
            SpamCheckView { users: self.users.insert(user, self.count_at(user, now)), ..self }
        }
    }

    /// The time left at `now` until `command` is free again, with a pause of
    /// `pause` nanoseconds between two uses; `None` if it is free.
    pub open spec fn cooldown_left(self, command: Seq<char>, pause: u128, now: u128) -> Option<
        u128,
    > {
        if self.commands.contains_key(command) && elapsed_between(self.commands[command], now)
            < pause {
            Some((pause - elapsed_between(self.commands[command], now)) as u128)
        } else {
            None
        }
    }

    /// The state after `command` was asked for at `now`: a free command is
    /// used, one that is not free stays as it is.
    pub open spec fn after_use(self, command: Seq<char>, pause: u128, now: u128) -> SpamCheckView {
        if self.cooldown_left(command, pause, now) is Some {
            self
        } else {
            SpamCheckView { commands: self.commands.insert(command, now), ..self }
        }
    }
}

/// Counts commands per user and keeps a pause between two uses of a command.
pub struct SpamCheck {
    /// Maximum number of commands a user is allowed to send within `command_time_window`
    command_threshold: usize,
    /// Duration within which the command threshold (command spam) is measured
    command_time_window: u128,
    /// Maps a user ID to their total command count and the time the count began
    user_command_timestamps: StringHashMap<(usize, u128)>,
    /// Tracks the last execution time for each command by name
    command_cooldowns: StringHashMap<u128>,
    /// For spam control of failed commands
    error_spam_check: ErrorSpamCheck,
    clock: Clock,
}

impl View for SpamCheck {
    type V = SpamCheckView;

    closed spec fn view(&self) -> SpamCheckView {
        SpamCheckView {
            command_threshold: self.command_threshold,
            window: self.command_time_window,
            users: self.user_command_timestamps@,
            commands: self.command_cooldowns@,
        }
    }
}

impl SpamCheck {
    /// The spam control of failed commands.
    pub closed spec fn errors(&self) -> ErrorSpamCheck {
        self.error_spam_check
    }

    /// The spam control of failed commands, to read.
    pub fn error_spam_check(&self) -> (check: &ErrorSpamCheck)
        ensures
            *check == self.errors(),
    {
        &self.error_spam_check
    }

    /// The spam control of failed commands, to use.
    pub fn error_spam_check_mut(&mut self) -> (check: &mut ErrorSpamCheck)
        ensures
            *check == old(self).errors(),
            final(self).errors() == *final(check),
            final(self)@ == old(self)@,
    {
        &mut self.error_spam_check
    }

    /// A check that has seen no command yet.
    pub fn new(
        command_threshold: usize,
        command_time_window: Duration,
        error_spam_check: ErrorSpamCheck,
    ) -> (check: Self)
        ensures
            check@ == (SpamCheckView {
                command_threshold,
                window: duration_nanos(command_time_window) as u128,
                users: Map::empty(),
                commands: Map::empty(),
            }),
            check.errors() == error_spam_check,
    {
        Self {
            command_threshold,
            command_time_window: nanos_of(&command_time_window),
            user_command_timestamps: StringHashMap::new(),
            command_cooldowns: StringHashMap::new(),
            error_spam_check,
            clock: Clock::start(),
        }
    }

    /// Counts one more command of `user_id` at `now`, and says whether it is
    /// spam.
    pub fn check_command_spam_at(&mut self, user_id: &str, now: u128) -> (spam: bool)
        ensures
            spam == old(self)@.is_spam(user_id@, now),
            final(self)@ == old(self)@.after_command(user_id@, now),
            final(self).errors() == old(self).errors(),
    {
        // Allow all commands when threshold is 0
        if self.command_threshold == 0 {
            return false;
        }
        let (mut total_count, mut last_command_time): (usize, u128) =
            match self.user_command_timestamps.get(user_id) {
            Some(seen) => *seen,
            None => (0, now),
        };

        if nanos_between(last_command_time, now) > self.command_time_window {
            total_count = 0;
            last_command_time = now;
        }
        if total_count < usize::MAX {
            total_count = total_count + 1;
        }
        self.user_command_timestamps.insert(user_id.to_owned(), (total_count, last_command_time));

        total_count > self.command_threshold  // true if spamming
    }

    /// Checks if the user is spamming commands globally
    pub fn check_command_spam(&mut self, user_id: &str) -> (spam: bool)
        ensures
            exists|now: u128|
                {
                    &&& spam == #[trigger] old(self)@.is_spam(user_id@, now)
                    &&& final(self)@ == old(self)@.after_command(user_id@, now)
                },
            final(self).errors() == old(self).errors(),
    {
        let now: u128 = self.clock.now();
        self.check_command_spam_at(user_id, now)
    }

    /// Asks for `command_name` at `now`, with a pause of `pause` nanoseconds
    /// between two uses: uses it if it is free, else returns the nanoseconds
    /// left until it is.
    pub fn update_command_cooldown_at(&mut self, command_name: &str, pause: u128, now: u128) -> (left:
        Option<u128>)
        ensures
            left == old(self)@.cooldown_left(command_name@, pause, now),
            final(self)@ == old(self)@.after_use(command_name@, pause, now),
            final(self).errors() == old(self).errors(),
            left matches Some(n) ==> n <= pause,
    {
        match self.command_cooldowns.get(command_name) {
            Some(last_executed) => {
                let gone: u128 = nanos_between(*last_executed, now);
                if gone < pause {
                    // Command is still under cooldown
                    return Some(pause - gone);
                }
            },
            None => {},
        }
        // Reset the cooldown timer for the command
        self.command_cooldowns.insert(command_name.to_owned(), now);
        None  // No cooldown or cooldown expired
    }

    /// Checks and updates the command cooldown state, returns remaining cooldown
    /// time if applicable
    pub fn update_command_cooldown(&mut self, command_name: &str, command_cooldown_duration: Duration) -> (left:
        Option<Duration>)
        ensures
            exists|now: u128|
                {
                    &&& final(self)@ == #[trigger] old(self)@.after_use(
                        command_name@,
                        duration_nanos(command_cooldown_duration) as u128,
                        now,
                    )
                    &&& match left {
                        Some(d) => old(self)@.cooldown_left(
                            command_name@,
                            duration_nanos(command_cooldown_duration) as u128,
                            now,
                        ) == Some(duration_nanos(d) as u128),
                        None => old(self)@.cooldown_left(
                            command_name@,
                            duration_nanos(command_cooldown_duration) as u128,
                            now,
                        ) is None,
                    }
                },
            final(self).errors() == old(self).errors(),
    {
        let now: u128 = self.clock.now();
        let pause: u128 = nanos_of(&command_cooldown_duration);
        let left: Option<Duration> = match self.update_command_cooldown_at(command_name, pause, now) {
            Some(n) => Some(duration_of(n)),
            None => None,
        };
        assert(pause == duration_nanos(command_cooldown_duration) as u128);
        assert(self@ == old(self)@.after_use(command_name@, pause, now));
        left
    }
}

impl Default for SpamCheck {
    /// One command per user every 5 seconds, and the error check that
    /// [`ErrorSpamCheck`] begins with.
    fn default() -> (check: Self)
        ensures
            check@ == (SpamCheckView {
                command_threshold: 1,
                window: 5_000_000_000,
                users: Map::empty(),
                commands: Map::empty(),
            }),
    {
        Self::new(1, duration_from(5, 0), ErrorSpamCheck::new(2, duration_from(30, 0)))
    }
}

} // verus!
