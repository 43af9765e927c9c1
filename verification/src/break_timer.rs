//! The countdown between breaks.
//!
//! Once a second the program polls the timer with the command the user
//! typed since the last poll (if any). The timer answers with what to do:
//! stop, show the break window, or show the seconds left and then either
//! start the break at once, measure the idle time, or sleep a second.
use crate::cli_parser::Cli;
use crate::text::{trim, trim_bounds};
use vstd::prelude::*;

verus! {

/// A command typed by the user.
#[derive(Clone, Copy, Debug, PartialEq, Eq, Structural)]
pub enum Command {
    /// `N`: toggle whether a break is due: start one now, or skip one that has come due.
    Next,
    /// `R`: restart the countdown.
    Reset,
    /// `E`: exit.
    Exit,
    /// Any other line.
    Other,
}

/// What to do once the seconds left have been shown.
#[derive(Clone, Copy, Debug, PartialEq, Eq, Structural)]
pub enum AfterCountdown {
    /// The countdown reached zero: poll again at once, the break starts.
    StartBreak,
    /// Measure the idle time, hand it to `idle_checked`, then sleep a second.
    CheckIdle,
    /// Sleep a second.
    Sleep,
}

/// What the program does after a poll.
#[derive(Clone, Copy, Debug, PartialEq, Eq, Structural)]
pub enum Action {
    /// Stop the program.
    Exit,
    /// Show the break window for `length` seconds, call `break_over`, then sleep a second.
    TakeBreak { length: u64 },
    /// Show "Next break in: `remaining` seconds", then do `then`.
    Countdown { remaining: u64, then: AfterCountdown },
}

/// The command that a (trimmed) input line stands for.
pub open spec fn spec_command(line: Seq<char>) -> Command {
    if line == seq!['N'] || line == seq!['n'] {
        Command::Next
    } else if line == seq!['R'] || line == seq!['r'] {
        Command::Reset
    } else if line == seq!['E'] || line == seq!['e'] {
        Command::Exit
    } else {
        Command::Other
    }
}

/// Reads an input line as a command; leading and trailing whitespace
/// (the line break among it) is ignored.
pub fn parse_command(line: &str) -> (c: Command)
    ensures
        c == spec_command(trim(line@)),
{
    let (start, end) = trim_bounds(line);
    let ghost trimmed = line@.subrange(start as int, end as int);
    assert(trimmed.len() == end - start);
    if end - start != 1 {
        assert(trimmed.len() != seq!['N'].len());
        return Command::Other;
    }
    let c = line.get_char(start);
    assert(trimmed[0] == c);
    assert(trimmed =~= seq![c]);
    if c == 'N' || c == 'n' {
        Command::Next
    } else if c == 'R' || c == 'r' {
        Command::Reset
    } else if c == 'E' || c == 'e' {
        Command::Exit
    } else {
        Command::Other
    }
}

/// One second passes on a countdown that has `remaining` seconds left:
/// the seconds left after it, and whether the countdown is over.
pub open spec fn spec_tick_second(remaining: u64) -> (u64, bool) {
    ((remaining - 1) as u64, remaining == 1)
}

/// Takes one second off a countdown (see `spec_tick_second`).
pub fn tick_second(remaining: u64) -> (r: (u64, bool))
    requires
        remaining >= 1,
    ensures
        r.0 == remaining - 1,
        r.1 == (r.0 == 0),
        r == spec_tick_second(remaining),
{
    let left = remaining - 1;
    (left, left == 0)
}

/// The state of the break timer. Every duration is a number of seconds.
#[derive(Clone, Copy, Debug, PartialEq, Eq, Structural)]
pub struct BreakTimer {
    /// The command line the timer runs with.
    pub config: Cli,
    /// Seconds left before the next break.
    pub break_freq: u64,
    /// Length of the next break.
    pub break_length: u64,
    /// Whether the next poll shows the break window.
    pub is_break: bool,
}

impl BreakTimer {
    /// The countdown is never empty and never longer than the frequency.
    pub open spec fn wf(self) -> bool {
        1 <= self.break_freq <= self.config.freq
    }

    /// A timer that has just started.
    pub open spec fn spec_new(config: Cli) -> BreakTimer {
        BreakTimer { config, break_freq: config.freq, break_length: config.len, is_break: false }
    }

    /// The timer after the command `cmd` (other than `Exit`) took effect.
    pub open spec fn after_command(self, cmd: Option<Command>) -> BreakTimer {
        match cmd {
            Some(Command::Next) => BreakTimer {
                is_break: !self.is_break,
                break_freq: self.config.freq,
                break_length: self.config.len,
                ..self
            },
            Some(Command::Reset) => BreakTimer {
                break_freq: self.config.freq,
                break_length: self.config.len,
                ..self
            },
            _ => self,
        }
    }

    /// One poll: apply the command, then either ask for the break window or
    /// count down one second.
    pub open spec fn spec_poll(self, cmd: Option<Command>) -> (BreakTimer, Action) {
        if cmd == Some(Command::Exit) {
            (self, Action::Exit)
        } else {
            let t = self.after_command(cmd);
            if t.is_break {
                (t, Action::TakeBreak { length: t.break_length })
            } else {
                let left = (t.break_freq - 1) as u64;
                if left == 0 {
                    (
                        BreakTimer { break_freq: t.config.freq, is_break: true, ..t },
                        Action::Countdown { remaining: 0, then: AfterCountdown::StartBreak },
                    )
                } else if t.config.reset is Some {
                    (
                        BreakTimer { break_freq: left, ..t },
                        Action::Countdown { remaining: left, then: AfterCountdown::CheckIdle },
                    )
                } else {
                    (
                        BreakTimer { break_freq: left, ..t },
                        Action::Countdown { remaining: left, then: AfterCountdown::Sleep },
                    )
                }
            }
        }
    }

    /// The timer once the break window has closed.
    pub open spec fn spec_break_over(self) -> BreakTimer {
        BreakTimer { break_length: self.config.len, is_break: false, ..self }
    }

    /// The timer once the user has been idle for `idle_secs` seconds: an idle
    /// time of at least the idle reset restarts the countdown.
    pub open spec fn spec_idle_checked(self, idle_secs: u64) -> BreakTimer {
        match self.config.reset {
            Some(reset) => if idle_secs >= reset {
                BreakTimer { break_freq: self.config.freq, ..self }
            } else {
                self
            },
            None => self,
        }
    }

    /// Starts the timer. A frequency of zero seconds is refused, as the
    /// countdown could not take its first second off it.
    pub fn new(config: Cli) -> (t: BreakTimer)
        requires
            config.freq >= 1,
        ensures
            t == BreakTimer::spec_new(config),
            t.wf(),
    {
        BreakTimer { config, break_freq: config.freq, break_length: config.len, is_break: false }
    }

    /// Polls the timer with the command typed since the last poll, if any.
    pub fn poll(&mut self, cmd: Option<Command>) -> (a: Action)
        requires
            old(self).wf(),
        ensures
            (*final(self), a) == old(self).spec_poll(cmd),
            final(self).wf(),
    {
        match cmd {
            Some(Command::Exit) => return Action::Exit,
            Some(Command::Next) => {
                self.is_break = !self.is_break;
                self.break_freq = self.config.freq;
                self.break_length = self.config.len;
            },
            Some(Command::Reset) => {
                self.break_freq = self.config.freq;
                self.break_length = self.config.len;
            },
            _ => {},
        }
        if self.is_break {
            return Action::TakeBreak { length: self.break_length };
        }
        let (left, over) = tick_second(self.break_freq);
        if over {
            self.break_freq = self.config.freq;
            self.is_break = true;
            Action::Countdown { remaining: 0, then: AfterCountdown::StartBreak }
        } else {
            self.break_freq = left;
            if self.config.reset.is_some() {
                Action::Countdown { remaining: left, then: AfterCountdown::CheckIdle }
            } else {
                Action::Countdown { remaining: left, then: AfterCountdown::Sleep }
            }
        }
    }

    /// The break window has closed: the next break has the full length.
    pub fn break_over(&mut self)
        requires
            old(self).wf(),
        ensures
            *final(self) == old(self).spec_break_over(),
            final(self).wf(),
    {
        self.break_length = self.config.len;
        self.is_break = false;
    }

    /// The user has been idle for `idle_secs` seconds.
    pub fn idle_checked(&mut self, idle_secs: u64)
        requires
            old(self).wf(),
        ensures
            *final(self) == old(self).spec_idle_checked(idle_secs),
            final(self).wf(),
    {
        if let Some(reset) = self.config.reset {
            if idle_secs >= reset {
                self.break_freq = self.config.freq;
            }
        }
    }
}


/// The timer after `n` polls during which the user typed nothing.
pub open spec fn quiet_polls(t: BreakTimer, n: nat) -> BreakTimer
    decreases n,
{
    if n == 0 {
        t
    } else {
        quiet_polls(t, (n - 1) as nat).spec_poll(None).0
    }
}

/// Every step of the timer keeps it well formed, so the countdown never
/// has to take a second off zero.
pub proof fn law_steps_keep_timer_well_formed(t: BreakTimer, cmd: Option<Command>, idle_secs: u64)
    requires
        t.wf(),
    ensures
        t.spec_poll(cmd).0.wf(),
        t.spec_break_over().wf(),
        t.spec_idle_checked(idle_secs).wf(),
{
}

/// `E` stops the program whatever the state, and leaves the timer as it was.
pub proof fn law_exit_always_exits(t: BreakTimer)
    ensures
        t.spec_poll(Some(Command::Exit)) == (t, Action::Exit),
{
}

/// `R` outside a break restarts the countdown from the full frequency.
pub proof fn law_reset_restarts_countdown(t: BreakTimer)
    requires
        t.wf(),
        !t.is_break,
        t.config.freq > 1,
    ensures
        t.spec_poll(Some(Command::Reset)).0.break_freq == t.config.freq - 1,
        t.spec_poll(Some(Command::Reset)).0.break_length == t.config.len,
        !t.spec_poll(Some(Command::Reset)).0.is_break,
        t.spec_poll(Some(Command::Reset)).1 == (Action::Countdown {
            remaining: (t.config.freq - 1) as u64,
            then: if t.config.reset is Some { AfterCountdown::CheckIdle } else { AfterCountdown::Sleep },
        }),
{
}

/// `N` outside a break starts the break at once, with the full break length.
pub proof fn law_next_starts_break(t: BreakTimer)
    requires
        t.wf(),
        !t.is_break,
    ensures
        t.spec_poll(Some(Command::Next)).1 == (Action::TakeBreak { length: t.config.len }),
        t.spec_poll(Some(Command::Next)).0.break_freq == t.config.freq,
{
}

/// `N` when a break is due skips it: the countdown starts over instead.
pub proof fn law_next_skips_due_break(t: BreakTimer)
    requires
        t.wf(),
        t.is_break,
    ensures
        !(t.spec_poll(Some(Command::Next)).1 is TakeBreak),
        !(t.spec_poll(Some(Command::Next)).1 is Exit),
        t.config.freq > 1 ==> t.spec_poll(Some(Command::Next)).0.break_freq == t.config.freq - 1,
{
}

/// An idle time of at least the idle reset restarts the countdown; a shorter
/// one, or none configured, leaves the timer unchanged.
pub proof fn law_idle_reset(t: BreakTimer, idle_secs: u64)
    ensures
        (t.config.reset matches Some(reset) && idle_secs >= reset) ==>
            t.spec_idle_checked(idle_secs) == (BreakTimer { break_freq: t.config.freq, ..t }),
        !(t.config.reset matches Some(reset) && idle_secs >= reset) ==>
            t.spec_idle_checked(idle_secs) == t,
{
}

/// While the user types nothing, each poll takes one second off the countdown.
pub proof fn law_quiet_polls_count_down(t: BreakTimer, n: nat)
    requires
        t.wf(),
        !t.is_break,
        n < t.break_freq,
    ensures
        quiet_polls(t, n) == (BreakTimer { break_freq: (t.break_freq - n) as u64, ..t }),
    decreases n,
{
    if n > 0 {
        law_quiet_polls_count_down(t, (n - 1) as nat);
    }
}

/// While the user types nothing, the break is due after exactly as many
/// polls as the countdown has seconds left, and not before.
pub proof fn law_break_due_after_countdown(t: BreakTimer)
    requires
        t.wf(),
        !t.is_break,
    ensures
        forall|n: nat| n < t.break_freq - 1 ==> (#[trigger] quiet_polls(t, n)).spec_poll(None).1
            == (Action::Countdown {
                remaining: (t.break_freq - n - 1) as u64,
                then: if t.config.reset is Some { AfterCountdown::CheckIdle } else { AfterCountdown::Sleep },
            }),
        quiet_polls(t, (t.break_freq - 1) as nat).spec_poll(None).1
            == (Action::Countdown { remaining: 0, then: AfterCountdown::StartBreak }),
        quiet_polls(t, t.break_freq as nat) == (BreakTimer {
            break_freq: t.config.freq,
            is_break: true,
            ..t
        }),
{
    assert forall|n: nat| n < t.break_freq - 1 implies (#[trigger] quiet_polls(t, n)).spec_poll(
        None,
    ).1 == (Action::Countdown {
        remaining: (t.break_freq - n - 1) as u64,
        then: if t.config.reset is Some { AfterCountdown::CheckIdle } else { AfterCountdown::Sleep },
    }) by {
        law_quiet_polls_count_down(t, n);
    }
    law_quiet_polls_count_down(t, (t.break_freq - 1) as nat);
}

/// A whole cycle without commands or idle resets: from a fresh start, after
/// `freq` quiet polls the next poll shows the break window for the full break
/// length, and once the break is over the timer is as fresh as at the start.
pub proof fn law_break_cycle(config: Cli)
    requires
        config.freq >= 1,
    ensures
        quiet_polls(BreakTimer::spec_new(config), config.freq as nat).spec_poll(None)
            == (quiet_polls(BreakTimer::spec_new(config), config.freq as nat), Action::TakeBreak {
            length: config.len,
        }),
        quiet_polls(BreakTimer::spec_new(config), config.freq as nat).spec_break_over()
            == BreakTimer::spec_new(config),
{
    law_break_due_after_countdown(BreakTimer::spec_new(config));
}


/// A line that is none of the commands changes nothing: the poll is the same
/// as one where nothing was typed.
pub proof fn law_other_line_is_ignored(t: BreakTimer)
    ensures
        t.spec_poll(Some(Command::Other)) == t.spec_poll(None),
{
}

/// Only the single letters `N`, `R` and `E` (either case), once surrounding
/// whitespace is trimmed, are commands.
pub proof fn law_commands_are_single_letters(line: Seq<char>)
    ensures
        spec_command(line) == Command::Next <==> (line == seq!['N'] || line == seq!['n']),
        spec_command(line) == Command::Reset <==> (line == seq!['R'] || line == seq!['r']),
        spec_command(line) == Command::Exit <==> (line == seq!['E'] || line == seq!['e']),
{
    if line.len() == 1 {
        let c = line[0];
        assert(seq!['N'][0] == 'N' && seq!['n'][0] == 'n' && seq!['R'][0] == 'R');
        assert(seq!['r'][0] == 'r' && seq!['E'][0] == 'E' && seq!['e'][0] == 'e');
        assert(line == seq!['N'] ==> c == 'N');
        assert(line == seq!['n'] ==> c == 'n');
        assert(line == seq!['R'] ==> c == 'R');
        assert(line == seq!['r'] ==> c == 'r');
    }
}

/// A quiet poll outside a break takes exactly one second off the countdown
/// (or, at the last second, makes the break due and restarts the countdown).
pub proof fn law_quiet_poll_takes_one_second(t: BreakTimer)
    requires
        t.wf(),
        !t.is_break,
    ensures
        t.break_freq > 1 ==> t.spec_poll(None).0.break_freq == t.break_freq - 1
            && !t.spec_poll(None).0.is_break,
        t.break_freq == 1 ==> t.spec_poll(None).0.is_break && t.spec_poll(None).0.break_freq
            == t.config.freq,
        t.spec_poll(None).0.config == t.config,
        t.spec_poll(None).0.break_length == t.break_length,
{
}


/// When a break is over, no break is due and the next one has the full break
/// length; the countdown and the configuration are untouched.
pub proof fn law_break_over_ends_break(t: BreakTimer)
    ensures
        !t.spec_break_over().is_break,
        t.spec_break_over().break_length == t.config.len,
        t.spec_break_over().break_freq == t.break_freq,
        t.spec_break_over().config == t.config,
{
}


/// The seconds left on a countdown after `n` ticks.
pub open spec fn ticks(remaining: u64, n: nat) -> u64
    decreases n,
{
    if n == 0 {
        remaining
    } else {
        spec_tick_second(ticks(remaining, (n - 1) as nat)).0
    }
}

/// A tick takes exactly one second off, and ends the countdown exactly on
/// its last second; a countdown of `remaining` seconds is over after exactly
/// `remaining` ticks, and not before.
pub proof fn law_countdown_ends_after_its_length(remaining: u64, n: nat)
    requires
        remaining >= 1,
        1 <= n <= remaining,
    ensures
        spec_tick_second(remaining).0 + 1 == remaining,
        spec_tick_second(remaining).1 <==> remaining == 1,
        ticks(remaining, n) == remaining - n,
        spec_tick_second(ticks(remaining, (n - 1) as nat)).1 <==> n == remaining,
    decreases n,
{
    assert(ticks(remaining, 0) == remaining);
    if n > 1 {
        law_countdown_ends_after_its_length(remaining, (n - 1) as nat);
    }
}

} // verus!
