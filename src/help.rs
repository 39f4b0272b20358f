//! Digesting the `--help` output of external subcommands: each one's usage
//! line and short description, how they are shown in the tool's own help,
//! and when a slow subcommand is given up on.

use vstd::prelude::*;
use crate::status::{Termination, EX_OK};
use crate::text::{
    blank, find_line_end, is_blank, joined, lemma_line_end_bounds, line_at, line_end, lines_from,
    starts_with, text_lines,
};

verus! {

/// What the tool's help shows about one subcommand.
#[derive(Clone, Debug)]
pub struct CommandDescription {
    /// The subcommand's name, without the program prefix.
    pub name: String,
    /// The leading non-blank lines of its help text.
    pub description: String,
    /// The first line of its help text that begins with `Usage:`.
    pub usage: Option<String>,
}

/// Collects and digests the help of every external subcommand.
#[derive(Clone, Copy, Debug)]
pub struct Help;

/// What a poll of one running `--help` child found.
#[derive(Clone, Copy, Debug, PartialEq, Eq)]
pub enum ChildPoll {
    /// The child has not exited yet.
    Running,
    /// The child has exited.
    Exited,
    /// Its state could not be queried.
    Failed,
}

/// What to do with a `--help` child after a poll.
#[derive(Clone, Copy, Debug, PartialEq, Eq)]
pub enum PollAction {
    /// Yield to other work and poll again.
    Wait,
    /// Collect its output: it exited before the deadline.
    Collect,
    /// Kill it: the shared deadline has passed.
    Kill,
    /// Drop it without output: its state could not be read, or it was
    /// only seen to have exited after the deadline.
    Drop,
}

/// How long, in nanoseconds from the start of the collection, every
/// subcommand together has to print its help.
pub const HELP_WAIT_LIMIT_NANOS: u128 = 1_000_000_000;

/// The view of an optional string.
pub open spec fn opt_view(s: Option<String>) -> Option<Seq<char>> {
    match s {
        Some(t) => Some(t@),
        None => None,
    }
}

/// The first of `lines` that begins with `Usage:`.
pub open spec fn first_usage(lines: Seq<Seq<char>>) -> Option<Seq<char>>
    decreases lines.len(),
{
    if lines.len() == 0 {
        None
    } else {
        match first_usage(lines.drop_last()) {
            Some(u) => Some(u),
            None => if "Usage:"@.is_prefix_of(lines.last()) {
                Some(lines.last())
            } else {
                None
            },
        }
    }
}

/// The lines of `lines` before the first blank one.
pub open spec fn leading_nonblank(lines: Seq<Seq<char>>) -> Seq<Seq<char>>
    decreases lines.len(),
{
    if lines.len() == 0 {
        Seq::empty()
    } else {
        let p = leading_nonblank(lines.drop_last());
        if p.len() == lines.len() - 1 && !is_blank(lines.last()) {
            p.push(lines.last())
        } else {
            p
        }
    }
}

/// The short description in a help text: its leading non-blank lines.
pub open spec fn description_of(text: Seq<char>) -> Seq<char> {
    joined(leading_nonblank(text_lines(text)))
}

/// The usage line of a help text.
pub open spec fn usage_of(text: Seq<char>) -> Option<Seq<char>> {
    first_usage(text_lines(text))
}

/// `d` describes the subcommand `name` whose help text is `text`.
pub open spec fn describes(d: CommandDescription, name: Seq<char>, text: Seq<char>) -> bool {
    &&& d.name@ == name
    &&& d.description@ == description_of(text)
    &&& opt_view(d.usage) == usage_of(text)
}

/// The usage line that the subcommand `name` is expected to print.
pub open spec fn predicted_usage(name: Seq<char>) -> Seq<char> {
    "Usage: asimov-"@ + name + " "@
}

/// The arguments shown after `asimov <name>` in the tool's help: what
/// follows the expected usage prefix, or a generic placeholder.
pub open spec fn shown_arguments(name: Seq<char>, usage: Option<Seq<char>>) -> Seq<char> {
    match usage {
        Some(u) => if predicted_usage(name).is_prefix_of(u) {
            u.subrange(predicted_usage(name).len() as int, u.len() as int)
        } else {
            "[OPTIONS] [COMMAND]"@
        },
        None => "[OPTIONS] [COMMAND]"@,
    }
}

/// `s` with a tab after every line feed.
pub open spec fn indented(s: Seq<char>) -> Seq<char>
    decreases s.len(),
{
    if s.len() == 0 {
        Seq::empty()
    } else {
        indented(s.drop_last()) + if s.last() == '\n' {
            seq!['\n', '\t']
        } else {
            seq![s.last()]
        }
    }
}

/// The action after a poll that found `poll`, `elapsed` nanoseconds after
/// the collection began, under the shared `limit`.
pub open spec fn poll_outcome(poll: ChildPoll, elapsed: u128, limit: u128) -> PollAction {
    match poll {
        ChildPoll::Failed => PollAction::Drop,
        ChildPoll::Exited => if elapsed > limit {
            PollAction::Drop
        } else {
            PollAction::Collect
        },
        ChildPoll::Running => if elapsed > limit {
            PollAction::Kill
        } else {
            PollAction::Wait
        },
    }
}

/// Digests the help text `text` of the subcommand `name`.
pub fn describe_command(name: String, text: &str) -> (r: CommandDescription)
    ensures
        describes(r, name@, text@),
{
    let n = text.unicode_len();
    let mut i: usize = 0;
    let mut usage: Option<String> = None;
    let mut description = String::new();
    let mut leading = true;
    let mut described = false;
    let ghost mut done: Seq<Seq<char>> = Seq::empty();
    proof {
        reveal_strlit("Usage:");
        reveal_strlit("\n");
        assert(done + lines_from(text@, 0) =~= text_lines(text@));
    }
    while i < n
        invariant
            n == text@.len(),
            i <= n,
            text_lines(text@) == done + lines_from(text@, i as int),
            opt_view(usage) == first_usage(done),
            description@ == joined(leading_nonblank(done)),
            leading == (leading_nonblank(done).len() == done.len()),
            described == (leading_nonblank(done).len() > 0),
            leading_nonblank(done).len() <= done.len(),
            "Usage:"@ == seq!['U', 's', 'a', 'g', 'e', ':'],
            "\n"@ == seq!['\n'],
        decreases n - i,
    {
        let e = find_line_end(text, n, i);
        proof {
            lemma_line_end_bounds(text@, i as int);
        }
        let end = if e < n && e > i && text.get_char(e - 1) == '\r' {
            e - 1
        } else {
            e
        };
        let line = text.substring_char(i, end);
        assert(line@ == line_at(text@, i as int));
        let ghost before = done;
        let ghost p = leading_nonblank(before);
        if usage.is_none() && starts_with(line, "Usage:") {
            usage = Some(line.to_owned());
        }
        if leading {
            if blank(line) {
                leading = false;
            } else {
                if described {
                    description.append("\n");
                }
                description.append(line);
                described = true;
            }
        }
        proof {
            done = before.push(line@);
            assert(done.drop_last() =~= before);
            if p.len() == before.len() && !is_blank(line@) {
                assert(leading_nonblank(done) == p.push(line@));
                assert(p.push(line@).drop_last() =~= p);
                if p.len() == 0 {
                    assert(description@ =~= joined(p.push(line@)));
                }
            }
            let rest = lines_from(text@, e as int + 1);
            assert(lines_from(text@, i as int) == seq![line@] + rest);
            assert(before + lines_from(text@, i as int) =~= done + rest);
            if e == n {
                assert(lines_from(text@, n as int) == rest);
            }
        }
        i = if e < n {
            e + 1
        } else {
            n
        };
    }
    proof {
        assert(done =~= done + lines_from(text@, n as int));
    }
    CommandDescription { name, description, usage }
}

impl Help {
    /// Digests the collected help texts: for each `(name, text)` pair, in
    /// order, the description of that subcommand.
    pub fn execute(&self, output: Vec<(String, String)>) -> (r: Vec<CommandDescription>)
        ensures
            r.len() == output.len(),
            forall|i: int| 0 <= i < r.len() ==> describes(#[trigger] r@[i], output@[i].0@, output@[i].1@),
    {
        let mut result: Vec<CommandDescription> = Vec::new();
        let mut i: usize = 0;
        while i < output.len()
            invariant
                i <= output.len(),
                result.len() == i,
                forall|j: int| 0 <= j < i ==> describes(#[trigger] result@[j], output@[j].0@, output@[j].1@),
            decreases output.len() - i,
        {
            let name = output[i].0.clone();
            let d = describe_command(name, output[i].1.as_str());
            result.push(d);
            i = i + 1;
        }
        result
    }

    /// Whether the output of a `--help` child that ended as `t` is kept:
    /// only a successful exit counts.
    pub fn keeps_output(&self, t: Termination) -> (r: bool)
        ensures
            r == (t == Termination::Exited(EX_OK)),
    {
        match t {
            Termination::Exited(code) => code == EX_OK,
            _ => false,
        }
    }

    /// Decides what to do with a `--help` child after polling it: every
    /// child shares one deadline, `limit` nanoseconds after the collection
    /// began, and `elapsed` is the time since that beginning. A child
    /// contributes only if it is seen to have exited by the deadline; past
    /// it, a running child is killed and an exited one is dropped.
    pub fn poll_action(&self, poll: ChildPoll, elapsed: u128, limit: u128) -> (r: PollAction)
        ensures
            r == poll_outcome(poll, elapsed, limit),
    {
        match poll {
            ChildPoll::Failed => PollAction::Drop,
            ChildPoll::Exited => if elapsed > limit {
                PollAction::Drop
            } else {
                PollAction::Collect
            },
            ChildPoll::Running => if elapsed > limit {
                PollAction::Kill
            } else {
                PollAction::Wait
            },
        }
    }
}

impl CommandDescription {
    /// The arguments to show after `asimov <name>` in the tool's help.
    pub fn shown_arguments(&self) -> (r: String)
        ensures
            r@ == shown_arguments(self.name@, opt_view(self.usage)),
    {
        let mut predicted = "Usage: asimov-".to_owned();
        predicted.append(self.name.as_str());
        predicted.append(" ");
        match &self.usage {
            Some(u) => {
                if starts_with(u.as_str(), predicted.as_str()) {
                    let k = predicted.as_str().unicode_len();
                    let n = u.as_str().unicode_len();
                    u.as_str().substring_char(k, n).to_owned()
                } else {
                    "[OPTIONS] [COMMAND]".to_owned()
                }
            },
            None => "[OPTIONS] [COMMAND]".to_owned(),
        }
    }

    /// The description with every line after the first indented by a tab.
    pub fn indented_description(&self) -> (r: String)
        ensures
            r@ == indented(self.description@),
    {
        let s = self.description.as_str();
        let n = s.unicode_len();
        let mut out = String::new();
        let mut i: usize = 0;
        proof {
            reveal_strlit("\n\t");
            assert(s@.subrange(0, 0) =~= Seq::<char>::empty());
        }
        while i < n
            invariant
                n == s@.len(),
                i <= n,
                out@ == indented(s@.subrange(0, i as int)),
                "\n\t"@ == seq!['\n', '\t'],
            decreases n - i,
        {
            let c = s.get_char(i);
            if c == '\n' {
                out.append("\n\t");
            } else {
                out.append(s.substring_char(i, i + 1));
            }
            proof {
                let t = s@.subrange(0, i as int + 1);
                assert(t.drop_last() =~= s@.subrange(0, i as int));
                assert(s@.subrange(i as int, i as int + 1) =~= seq![c]);
            }
            i = i + 1;
        }
        proof {
            assert(s@.subrange(0, n as int) =~= s@);
        }
        out
    }
}

} // verus!
