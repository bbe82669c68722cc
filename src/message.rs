//! Building the message: either the words given, or a report on a command
//! that was run.
use vstd::prelude::*;
use crate::error::PingError;
use crate::text::{decimal, decimal_string, join_spaces, join_words, views};

verus! {

/// What the command line asked for.
pub struct Invocation {
    /// An explicit path to the configuration file.
    pub config: Option<String>,
    /// Whether the words are a command to run rather than the message.
    pub command: bool,
    /// The trailing words.
    pub args: Vec<String>,
}

/// How the message is obtained.
pub enum Plan {
    /// Send these words as they are.
    Message(String),
    /// Run `program` with `args`; `line` is the whole command as typed,
    /// which the report on its outcome quotes.
    Run { program: String, args: Vec<String>, line: String },
}

/// The message that reports how a command ended. A command that ended with
/// no exit code (killed by a signal) is reported as having failed with code 0.
pub open spec fn command_report(line: Seq<char>, code: Option<i32>) -> Seq<char> {
    if code == Some(0i32) {
        "command '"@ + line + "' succeeded"@
    } else {
        let c: i32 = match code {
            Some(c) => c,
            None => 0,
        };
        "command '"@ + line + "' failed with exit code "@ + decimal(c as int)
    }
}

fn clone_from(words: &Vec<String>, start: usize) -> (r: Vec<String>)
    requires
        start <= words@.len(),
    ensures
        views(r@) == views(words@).subrange(start as int, words@.len() as int),
{
    let mut out: Vec<String> = Vec::new();
    let mut i: usize = start;
    while i < words.len()
        invariant
            start <= i <= words@.len(),
            views(out@) =~= views(words@).subrange(start as int, i as int),
        decreases words@.len() - i,
    {
        let w = words[i].clone();
        proof {
            assert(views(out@.push(w)) =~= views(out@).push(w@));
        }
        out.push(w);
        i = i + 1;
    }
    out
}

impl Invocation {
    /// Decides how the message is obtained. Command mode needs at least one
    /// word, the program to run; this is refused before anything is run or
    /// sent.
    pub fn plan(&self) -> (r: Result<Plan, PingError>)
        ensures
            r is Err <==> (self.command && self.args@.len() == 0),
            r is Err ==> r == Err::<Plan, PingError>(PingError::Usage),
            r matches Ok(Plan::Message(m)) ==> !self.command && m@ == join_spaces(
                views(self.args@),
            ),
            r matches Ok(Plan::Run { program, args, line }) ==> {
                &&& self.command
                &&& self.args@.len() >= 1
                &&& program@ == self.args@[0]@
                &&& views(args@) == views(self.args@).drop_first()
                &&& line@ == join_spaces(views(self.args@))
            },
    {
        if !self.command {
            return Ok(Plan::Message(join_words(&self.args)));
        }
        if self.args.len() == 0 {
            return Err(PingError::Usage);
        }
        let line = join_words(&self.args);
        let program = self.args[0].clone();
        let args = clone_from(&self.args, 1);
        proof {
            assert(views(self.args@).subrange(1, self.args@.len() as int) =~= views(
                self.args@,
            ).drop_first());
        }
        Ok(Plan::Run { program, args, line })
    }
}

/// The message that reports how the command `line` ended, given its exit
/// code, if it had one.
pub fn command_message(line: &str, code: Option<i32>) -> (r: String)
    ensures
        r@ == command_report(line@, code),
{
    let mut out = "command '".to_owned();
    out.append(line);
    match code {
        Some(0i32) => {
            out.append("' succeeded");
        },
        _ => {
            let c: i32 = match code {
                Some(c) => c,
                None => 0,
            };
            out.append("' failed with exit code ");
            let d = decimal_string(c);
            out.append(d.as_str());
        },
    }
    out
}

} // verus!
