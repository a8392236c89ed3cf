//! PipeWire sample-rate control: reading the forced rate out of
//! `pw-metadata` output and deciding which `pw-metadata` command to run.
//! Running the command is left to the caller, which reports success back.

use vstd::prelude::*;
use crate::text::{
    all_digits, chars_of, decimal, decimal_string, find_chars, first_occurrence, is_digit, occurs_at,
    parse_u32, parse_u32_chars, single_char, lemma_decimal_parses, lemma_first_occurrence,
};

verus! {

/// The first line of `t`: everything before the first newline.
pub open spec fn first_line_len(t: Seq<char>) -> int {
    match first_occurrence(t, seq!['\n']) {
        Some(k) => k,
        None => t.len() as int,
    }
}

/// The forced rate announced on one `pw-metadata` output line, such as
/// `update: id:0 key:'clock.force-rate' value:'48000' type:''`.
pub open spec fn line_rate(line: Seq<char>) -> Option<u32> {
    if first_occurrence(line, "clock.force-rate"@) is Some && first_occurrence(line, "value:"@) is Some {
        match first_occurrence(line, "value:'"@) {
            Some(start) => {
                let rest = line.skip(start + 7);
                match first_occurrence(rest, seq!['\'']) {
                    Some(end) => parse_u32(rest.take(end)),
                    None => None,
                }
            },
            None => None,
        }
    } else {
        None
    }
}

/// The forced rate found on the first line that announces one, or 0 when no
/// line does (no rate is forced).
pub open spec fn forced_rate_of(t: Seq<char>) -> u32
    decreases t.len(),
{
    if t.len() == 0 {
        0
    } else {
        let k = first_line_len(t);
        match line_rate(t.take(k)) {
            Some(rate) => rate,
            None => if 0 <= k < t.len() {
                forced_rate_of(t.skip(k + 1))
            } else {
                0
            },
        }
    }
}

fn line_rate_exec(line: &[char]) -> (r: Option<u32>)
    ensures
        r == line_rate(line@),
{
    let key = chars_of("clock.force-rate");
    let value = chars_of("value:");
    let value_quote = chars_of("value:'");
    proof {
        lemma_first_occurrence(line@, "clock.force-rate"@);
        lemma_first_occurrence(line@, "value:"@);
        lemma_first_occurrence(line@, "value:'"@);
    }
    if find_chars(line, key.as_slice()).is_none() || find_chars(line, value.as_slice()).is_none() {
        return None;
    }
    match find_chars(line, value_quote.as_slice()) {
        Some(start) => {
            proof {
                reveal_strlit("value:'");
                assert(start + 7 <= line@.len());
            }
            assert(start + 7 <= line.len());
            let after = start + 7;
            let rest = &line[after..line.len()];
            proof {
                assert(rest@ =~= line@.skip(start + 7));
                lemma_first_occurrence(rest@, seq!['\'']);
            }
            let quote = single_char('\'');
            match find_chars(rest, quote.as_slice()) {
                Some(end) => {
                    let digits = &rest[0..end];
                    proof {
                        assert(digits@ =~= rest@.take(end as int));
                    }
                    parse_u32_chars(digits)
                },
                None => None,
            }
        },
        None => None,
    }
}

/// The rate forced in PipeWire according to the output of
/// `pw-metadata -n settings 0 clock.force-rate`: the value of the first line
/// that names the key with a value that parses as a `u32`, else 0.
pub fn parse_force_rate(output: &str) -> (rate: u32)
    ensures
        rate == forced_rate_of(output@),
{
    let text = chars_of(output);
    let newline = single_char('\n');
    let mut pos: usize = 0;
    proof {
        assert(text@.skip(0) =~= text@);
    }
    while pos < text.len()
        invariant
            pos <= text@.len(),
            text@ == output@,
            newline@ == seq!['\n'],
            forced_rate_of(output@) == forced_rate_of(text@.skip(pos as int)),
        decreases text.len() - pos,
    {
        let rest = &text.as_slice()[pos..text.len()];
        proof {
            assert(rest@ =~= text@.skip(pos as int));
        }
        let len = match find_chars(rest, newline.as_slice()) {
            Some(k) => k,
            None => rest.len(),
        };
        proof {
            lemma_first_occurrence(rest@, seq!['\n']);
            assert(len == first_line_len(rest@));
        }
        let line = &rest[0..len];
        proof {
            assert(line@ =~= rest@.take(len as int));
        }
        match line_rate_exec(line) {
            Some(rate) => {
                return rate;
            },
            None => {},
        }
        if len >= rest.len() {
            return 0;
        }
        proof {
            assert(rest@.skip(len + 1) =~= text@.skip(pos + len + 1));
        }
        pos = pos + len + 1;
    }
    proof {
        assert(text@.skip(pos as int).len() == 0);
    }
    0
}

/// A `pw-metadata` command that changes the forced rate.
#[derive(Clone, Copy, PartialEq, Eq, Debug)]
pub enum RateCommand {
    /// Force the given sample rate.
    Force(u32),
    /// Clear the forced rate so that PipeWire picks its default.
    Clear,
}

/// The value written to `clock.force-rate` by a command: the rate in
/// decimal, or `0` to clear it.
pub open spec fn command_value(cmd: RateCommand) -> Seq<char> {
    match cmd {
        RateCommand::Force(rate) => decimal(rate as nat),
        RateCommand::Clear => decimal(0),
    }
}

/// The arguments of `pw-metadata` that read the forced rate.
pub open spec fn query_args_spec() -> Seq<Seq<char>> {
    seq!["-n"@, "settings"@, "0"@, "clock.force-rate"@]
}

/// Arguments of `pw-metadata` that read the forced rate.
pub fn query_args() -> (args: Vec<String>)
    ensures
        args@.map_values(|a: String| a@) == query_args_spec(),
{
    let mut args: Vec<String> = Vec::new();
    args.push("-n".to_owned());
    args.push("settings".to_owned());
    args.push("0".to_owned());
    args.push("clock.force-rate".to_owned());
    proof {
        assert(args@.map_values(|a: String| a@) =~= query_args_spec());
    }
    args
}

impl RateCommand {
    /// Arguments of `pw-metadata` that carry out this command.
    pub fn args(&self) -> (args: Vec<String>)
        ensures
            args@.map_values(|a: String| a@) == query_args_spec().push(command_value(*self)),
    {
        let mut args = query_args();
        let value = match self {
            RateCommand::Force(rate) => decimal_string(*rate as u64),
            RateCommand::Clear => decimal_string(0),
        };
        let ghost before = args@;
        args.push(value);
        proof {
            assert(args@.map_values(|a: String| a@) =~= before.map_values(|a: String| a@).push(
                command_value(*self),
            ));
        }
        args
    }
}

/// PipeWire sample-rate controller: remembers the rate that was forced
/// before the player started and the rate it forced itself.
pub struct PipeWireController {
    original_rate: Option<u32>,
    current_rate: Option<u32>,
}

impl PipeWireController {
    /// The forced rate found when the controller was created (`Some(0)`
    /// when none was forced, `None` when it could not be read).
    pub closed spec fn original(&self) -> Option<u32> {
        self.original_rate
    }

    /// The rate this controller last forced successfully.
    pub closed spec fn current(&self) -> Option<u32> {
        self.current_rate
    }

    /// The command needed to force `rate`: none when it is already forced.
    pub open spec fn rate_command(&self, rate: u32) -> Option<RateCommand> {
        if self.current() == Some(rate) {
            None
        } else {
            Some(RateCommand::Force(rate))
        }
    }

    /// The command that puts back the rate found at start: that rate when
    /// it was positive, a clear when it was 0, nothing when it is unknown.
    pub open spec fn restore_command(&self) -> Option<RateCommand> {
        match self.original() {
            Some(rate) => if rate > 0 {
                self.rate_command(rate)
            } else {
                Some(RateCommand::Clear)
            },
            None => None,
        }
    }

    /// The forced rate once `cmd` has run successfully.
    pub open spec fn rate_after(cmd: RateCommand) -> Option<u32> {
        match cmd {
            RateCommand::Force(rate) => Some(rate),
            RateCommand::Clear => None,
        }
    }

    /// Creates a controller; `original_rate` is the forced rate read at
    /// start (see [`parse_force_rate`]), `None` when it could not be read.
    pub fn new(original_rate: Option<u32>) -> (c: Self)
        ensures
            c.original() == original_rate,
            c.current() is None,
    {
        PipeWireController { original_rate, current_rate: None }
    }

    /// The sample rate this controller has forced, if any.
    pub fn get_current_rate(&self) -> (r: Option<u32>)
        ensures
            r == self.current(),
    {
        self.current_rate
    }

    /// Decides how to set the sample rate: no command when `rate` is
    /// already forced, otherwise a command forcing it.
    pub fn set_rate(&self, rate: u32) -> (cmd: Option<RateCommand>)
        ensures
            cmd == self.rate_command(rate),
    {
        if self.current_rate == Some(rate) {
            None
        } else {
            Some(RateCommand::Force(rate))
        }
    }

    /// Decides how to restore the rate found at start.
    pub fn restore_original(&self) -> (cmd: Option<RateCommand>)
        ensures
            cmd == self.restore_command(),
    {
        match self.original_rate {
            Some(rate) => {
                if rate > 0 {
                    self.set_rate(rate)
                } else {
                    Some(self.clear_forced_rate())
                }
            },
            None => None,
        }
    }

    /// The command that clears the forced rate.
    pub fn clear_forced_rate(&self) -> (cmd: RateCommand)
        ensures
            cmd == RateCommand::Clear,
    {
        RateCommand::Clear
    }

    /// Records that `cmd` ran successfully.
    pub fn command_succeeded(&mut self, cmd: RateCommand)
        ensures
            final(self).current() == Self::rate_after(cmd),
            final(self).original() == old(self).original(),
    {
        match cmd {
            RateCommand::Force(rate) => {
                self.current_rate = Some(rate);
            },
            RateCommand::Clear => {
                self.current_rate = None;
            },
        }
    }
}

/// Setting a rate is idempotent: once the command for `rate` has succeeded,
/// asking for `rate` again needs no command.
pub proof fn set_rate_idempotent(c: PipeWireController, rate: u32, after: PipeWireController)
    requires
        c.rate_command(rate) is Some,
        after.current() == PipeWireController::rate_after(c.rate_command(rate)->0),
        after.original() == c.original(),
    ensures
        after.rate_command(rate) is None,
{
}

/// Restoring undoes the player's changes: after the restore command has
/// succeeded, the forced rate is the one found at start (none when that was
/// 0), and restoring again needs no command when a positive rate was found.
pub proof fn restore_returns_to_original(c: PipeWireController, after: PipeWireController)
    requires
        c.restore_command() is Some,
        after.current() == PipeWireController::rate_after(c.restore_command()->0),
        after.original() == c.original(),
    ensures
        c.original() is Some,
        c.original()->0 > 0 ==> after.current() == c.original() && after.restore_command() is None,
        c.original()->0 == 0 ==> after.current() is None,
{
}

/// The rate forced after a history of commands, each with whether it
/// succeeded, starting from `start`: the rate of the last command that
/// succeeded (none for a clear), or `start` when none succeeded.
pub open spec fn rate_after_history(start: Option<u32>, history: Seq<(RateCommand, bool)>) -> Option<u32>
    decreases history.len(),
{
    if history.len() == 0 {
        start
    } else if history.last().1 {
        PipeWireController::rate_after(history.last().0)
    } else {
        rate_after_history(start, history.drop_last())
    }
}

/// The forced rate follows the last command that succeeded: along any
/// sequence of controllers where each step either recorded a successful
/// command with [`PipeWireController::command_succeeded`] or, for a command
/// that failed, left the controller as it was, the rate this player has
/// forced is the one the last successful command set (none after a clear),
/// and none when no command succeeded since the controller was created.
/// Deciding a command ([`PipeWireController::set_rate`],
/// [`PipeWireController::restore_original`],
/// [`PipeWireController::clear_forced_rate`]) never changes the controller.
pub proof fn forced_rate_follows_last_success(states: Seq<PipeWireController>, history: Seq<(RateCommand, bool)>)
    requires
        states.len() == history.len() + 1,
        states[0].current() is None,
        forall|i: int|
            0 <= i < history.len() ==> (if (#[trigger] history[i]).1 {
                states[i + 1].current() == PipeWireController::rate_after(history[i].0)
                    && states[i + 1].original() == states[i].original()
            } else {
                states[i + 1] == states[i]
            }),
    ensures
        states.last().current() == rate_after_history(None, history),
        states.last().original() == states[0].original(),
    decreases history.len(),
{
    if history.len() > 0 {
        let n = history.len() - 1;
        let hs = history.drop_last();
        let ss = states.drop_last();
        assert forall|i: int| 0 <= i < hs.len() implies (if (#[trigger] hs[i]).1 {
            ss[i + 1].current() == PipeWireController::rate_after(hs[i].0) && ss[i + 1].original()
                == ss[i].original()
        } else {
            ss[i + 1] == ss[i]
        }) by {
            assert(hs[i] == history[i]);
        }
        forced_rate_follows_last_success(ss, hs);
        assert(history[n] == history.last());
    }
}

/// The line `pw-metadata` prints for `clock.force-rate` holding `value`.
pub open spec fn rate_announcement(value: Seq<char>) -> Seq<char> {
    "update: id:0 key:'clock.force-rate' value:'"@ + value + "' type:''"@
}

proof fn lemma_first_at(s: Seq<char>, pat: Seq<char>, i: int)
    requires
        occurs_at(s, pat, i),
        pat.len() > 0,
        forall|j: int| 0 <= j < i ==> s[j] != pat[0],
    ensures
        first_occurrence(s, pat) == Some(i),
{
    lemma_first_occurrence(s, pat);
    match first_occurrence(s, pat) {
        Some(c) => {
            if c < i {
                assert(s.subrange(c, c + pat.len())[0] == s[c]);
            } else if c > i {
            }
        },
        None => {},
    }
}

/// What a command writes reads back: the line `pw-metadata` prints for the
/// value a command wrote parses to the rate it forced, and to 0 (no forced
/// rate) for a clear.
pub proof fn written_rate_reads_back(cmd: RateCommand)
    ensures
        forced_rate_of(rate_announcement(command_value(cmd))) == match cmd {
            RateCommand::Force(rate) => rate,
            RateCommand::Clear => 0u32,
        },
{
    let p = "update: id:0 key:'clock.force-rate' value:'"@;
    let q = "' type:''"@;
    reveal_strlit("update: id:0 key:'clock.force-rate' value:'");
    reveal_strlit("' type:''");
    reveal_strlit("clock.force-rate");
    reveal_strlit("value:");
    reveal_strlit("value:'");
    let n: nat = match cmd {
        RateCommand::Force(rate) => rate as nat,
        RateCommand::Clear => 0,
    };
    let d = decimal(n);
    lemma_decimal_parses(n);
    assert(d == command_value(cmd));
    let line = p + d + q;
    assert(line == rate_announcement(command_value(cmd)));
    assert(p.len() == 43);
    assert(q.len() == 9);
    assert forall|j: int| 0 <= j < line.len() implies line[j] != '\n' && (j < 36 ==> line[j] != 'v') by {
        if j < 43 {
            assert(line[j] == p[j]);
        } else if j < 43 + d.len() {
            assert(line[j] == d[j - 43]);
            assert(is_digit(d[j - 43]));
        } else {
            assert(line[j] == q[j - 43 - d.len()]);
        }
    }
    lemma_first_occurrence(line, seq!['\n']);
    if first_occurrence(line, seq!['\n']) is Some {
        let k = first_occurrence(line, seq!['\n'])->0;
        assert(line.subrange(k, k + 1)[0] == line[k]);
    }
    assert(first_line_len(line) == line.len());
    assert(line.take(line.len() as int) =~= line);
    assert(line.subrange(18, 34) =~= "clock.force-rate"@);
    assert(occurs_at(line, "clock.force-rate"@, 18));
    lemma_first_occurrence(line, "clock.force-rate"@);
    assert(first_occurrence(line, "clock.force-rate"@) is Some);
    assert(line.subrange(36, 42) =~= "value:"@);
    assert(occurs_at(line, "value:"@, 36));
    lemma_first_occurrence(line, "value:"@);
    assert(first_occurrence(line, "value:"@) is Some);
    assert(line.subrange(36, 43) =~= "value:'"@);
    lemma_first_at(line, "value:'"@, 36);
    let rest = line.skip(43);
    assert(rest =~= d + q);
    assert(rest.subrange(d.len() as int, d.len() as int + 1) =~= seq!['\'']);
    assert forall|j: int| 0 <= j < d.len() implies rest[j] != '\'' by {
        assert(rest[j] == d[j]);
        assert(is_digit(d[j]));
    }
    lemma_first_at(rest, seq!['\''], d.len() as int);
    assert(rest.take(d.len() as int) =~= d);
    assert(parse_u32(rest.take(d.len() as int)) == Some(n as u32));
    assert(line.skip(36int + 7) == rest);
    assert(line_rate(line) == Some(n as u32));
    assert(line_rate(line.take(first_line_len(line))) == Some(n as u32));
}

} // verus!
